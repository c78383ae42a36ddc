use fbksd_core::utils::{components, relative_from, Component};

#[test]
fn test_relative_from() {
    let relative = relative_from(
        "/home/jonas/fbksd-data/public/data/denoisers/Box",
        "/home/jonas/.",
    );
    println!("{:?}", relative);
    assert_eq!(
        relative,
        Some(String::from("fbksd-data/public/data/denoisers/Box"))
    );
    assert_eq!(
        relative_from(
            "/home/jonas/fbksd-data/public/data/denoisers/Box",
            "/home/jonas/fbksd-data/public/data"
        ),
        Some(String::from("denoisers/Box"))
    );
}

#[test]
fn relative_from_steps_up_to_the_common_directory() {
    assert_eq!(
        relative_from("/d/public/scenes", "/d/public/abc"),
        Some(String::from("../scenes"))
    );
    assert_eq!(
        relative_from("/d/public/data/samplers", "/d/public/abc/data"),
        Some(String::from("../../data/samplers"))
    );
}

#[test]
fn components_follow_the_standard_library() {
    for path in [
        "/home/jonas/.",
        "a/./b",
        "./a/b",
        "a//b/",
        "../x",
        "",
        "/",
        ".",
        "a/b/..",
        "/./a",
    ] {
        let ours: Vec<String> = components(path)
            .iter()
            .map(|c| match c {
                Component::RootDir => String::from("/"),
                Component::CurDir => String::from("."),
                Component::ParentDir => String::from(".."),
                Component::Normal(name) => name.clone(),
            })
            .collect();
        let theirs: Vec<String> = std::path::Path::new(path)
            .components()
            .map(|c| c.as_os_str().to_str().unwrap().to_string())
            .collect();
        assert_eq!(ours, theirs);
    }
}
