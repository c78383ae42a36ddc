use fbksd_core::actions::Action;
use fbksd_core::info::TechniqueType;
use fbksd_core::publishing::copy_public_page;

#[test]
fn test_copy_public_page() {
    let names = vec![String::from("Box"), String::from("Gauss")];
    let steps = copy_public_page(
        "/d",
        "/d/public/abc",
        false,
        TechniqueType::DENOISER,
        "Box",
        &names,
    )
    .unwrap();
    assert_eq!(steps.len(), 5);
    match &steps[4] {
        Action::Symlink { target, link } => {
            assert_eq!(target, "../../../data/denoisers/Gauss");
            assert_eq!(link, "/d/public/abc/data/denoisers/Gauss");
        }
        other => panic!("{:?}", other),
    }
}
