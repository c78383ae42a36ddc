use fbksd_core::info::TechniqueType;
use fbksd_core::paths;
use fbksd_core::text;
use fbksd_core::utils;
use std::path::Path;

#[test]
fn join_follows_the_standard_library() {
    for (base, part) in [
        ("/data", "config.json"),
        ("/data/", "config.json"),
        ("", "a"),
        ("a", ""),
        ("a/", ""),
        ("a", "/b"),
        ("", ""),
        ("/", "x"),
        ("rel/dir", "x/y"),
    ] {
        let theirs = Path::new(base).join(part);
        assert_eq!(paths::join(base, part), theirs.to_str().unwrap());
    }
}

#[test]
fn the_layout_of_the_data_root() {
    let root = "/srv/fbksd-data";
    assert_eq!(paths::config_path(root), "/srv/fbksd-data/config.json");
    assert_eq!(paths::database_path(root), "/srv/fbksd-data/server.db");
    assert_eq!(paths::workspaces_path(root), "/srv/fbksd-data/workspaces");
    assert_eq!(paths::scenes_path(root), "/srv/fbksd-data/scenes");
    assert_eq!(paths::iqa_path(root), "/srv/fbksd-data/iqa");
    assert_eq!(paths::renderers_path(root), "/srv/fbksd-data/renderers");
    assert_eq!(paths::page_path(root), "/srv/fbksd-data/page");
    assert_eq!(paths::tmp_workspace_path(root), "/srv/fbksd-data/tmp/workspace");
    assert_eq!(paths::public_page_path(root), "/srv/fbksd-data/public");
    assert_eq!(
        paths::denoisers_workspaces_path(root),
        "/srv/fbksd-data/workspaces/denoisers"
    );
    assert_eq!(
        paths::samplers_workspaces_path(root),
        "/srv/fbksd-data/workspaces/samplers"
    );
    assert_eq!(paths::LOCK_FILE, "/var/lock/fbksd.lock");
    assert_eq!(paths::TECH_INSTALL_DIR, "install");
    assert_eq!(paths::TECH_RESULTS_DIR, "results");
}

#[test]
fn the_layout_of_a_technique() {
    let root = "/d";
    let g = TechniqueType::DENOISER;
    assert_eq!(paths::tech_data_path(root, g, 42), "/d/workspaces/denoisers/42");
    assert_eq!(
        paths::tech_data_path(root, TechniqueType::SAMPLER, 7),
        "/d/workspaces/samplers/7"
    );
    assert_eq!(
        paths::tech_project_src_path(root, g, 42),
        "/d/workspaces/denoisers/42/project"
    );
    assert_eq!(
        paths::tech_workspace_path(root, g, 42, "u-1"),
        "/d/workspaces/denoisers/42/u-1"
    );
    assert_eq!(
        paths::tech_install_path(root, g, 42, "u-1"),
        "/d/workspaces/denoisers/42/u-1/install"
    );
    assert_eq!(
        paths::tech_results_path(root, g, 42, "u-1"),
        "/d/workspaces/denoisers/42/u-1/results"
    );
    assert_eq!(
        paths::tech_published_wp_path(root, g, 42),
        "/d/workspaces/denoisers/42/published"
    );
    assert_eq!(
        paths::tech_published_install_path(root, g, 42),
        "/d/workspaces/denoisers/42/published/install"
    );
    assert_eq!(
        paths::tech_published_results_path(root, g, 42),
        "/d/workspaces/denoisers/42/published/results"
    );
    assert_eq!(paths::private_page_path(root, "u-1"), "/d/public/u-1");
    assert_eq!(
        paths::page_data_path("/d/public", g, "Box"),
        "/d/public/data/denoisers/Box"
    );
    assert_eq!(paths::tmp_install_path(root, g, 42), "/d/tmp/workspace/denoisers/42");
    assert_eq!(
        paths::tmp_results_path(root, g, "Box"),
        "/d/tmp/workspace/results/.current/denoisers/Box"
    );
    assert_eq!(paths::contents("/a/b"), "/a/b/");
    assert_eq!(paths::contents("/a/b/"), "/a/b/");
}

#[test]
fn numbers_are_written_in_decimal() {
    for n in [0, 1, 9, 10, 42, 100, 2147483647, -1, -10, -2147483648, 1234567890] {
        assert_eq!(text::decimal_string(n), n.to_string());
    }
}

#[test]
fn texts_are_compared_and_joined() {
    assert!(text::same("abc", "abc"));
    assert!(!text::same("abc", "abd"));
    assert!(!text::same("abc", "ab"));
    assert_eq!(text::concat("ab", "cd"), "abcd");
}

#[test]
fn file_names_follow_the_standard_library() {
    for path in ["a/b/ref.exr", "ref.exr", "a/b/ref", "a/.hidden", "a/b.c.d", "/x/y.tar.gz"] {
        let p = Path::new(path);
        let name = utils::file_name(path).unwrap();
        assert_eq!(name, p.file_name().unwrap().to_str().unwrap());
        assert_eq!(utils::file_stem(name), p.file_stem().unwrap().to_str().unwrap());
        assert_eq!(
            utils::with_extension(path, "png").unwrap(),
            p.with_extension("png").to_str().unwrap()
        );
        assert_eq!(
            utils::with_file_name(path, "t.jpg").unwrap(),
            p.with_file_name("t.jpg").to_str().unwrap()
        );
        assert_eq!(
            utils::parent(path).unwrap(),
            p.parent().unwrap().to_str().unwrap()
        );
    }
    assert_eq!(utils::file_name("a/b/"), None);
    assert_eq!(utils::file_name(""), None);
    assert_eq!(utils::file_name("a/.."), None);
    assert_eq!(utils::with_extension("a/..", "png"), None);
    assert_eq!(utils::parent(""), None);
    assert_eq!(utils::parent("/"), None);
    assert_eq!(utils::parent("a"), Some(String::new()));
}

#[test]
fn relative_from_has_no_answer_through_a_parent_or_from_a_relative_path() {
    assert_eq!(utils::relative_from("a/b", "/x"), None);
    assert_eq!(utils::relative_from("/a/b", "x"), Some(String::from("/a/b")));
    assert_eq!(utils::relative_from("/a/b", "/a/../c"), None);
    assert_eq!(utils::relative_from("/a/b", "/a/b"), Some(String::new()));
    assert_eq!(utils::relative_from("/a", "/a/b/c"), Some(String::from("../..")));
    assert_eq!(utils::relative_from("a/b/c", "a/x/y"), Some(String::from("../../b/c")));
    assert_eq!(utils::relative_from("/a/b/c", "/a/./d"), Some(String::from("../b/c")));
    assert_eq!(utils::relative_from("a/b", "./x"), Some(String::from("a/../b")));
}
