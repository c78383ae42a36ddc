use fbksd_core::actions::{move_path, own_path, sync_images, sync_path, Action};
use fbksd_core::admin;
use fbksd_core::ci::ProjectInfo;
use fbksd_core::db;
use fbksd_core::db::Database;
use fbksd_core::error::Error;
use fbksd_core::info::{TechniqueInfo, TechniqueType};
use fbksd_core::page::MetricValue;
use fbksd_core::paths::Environment;
use fbksd_core::publishing;
use fbksd_core::schema::WorkspaceStatus;
use fbksd_core::staging;
use fbksd_core::staging::Published;
use fbksd_core::workspace::{ExecTime, Renderer, ResultLog, Scene, Technique, Workspace};
use fbksd_core::{
    can_run, delete_unpublished_workspace, init_missing_scenes_workspace, publish_private,
    publish_private_at, publish_public, publish_public_at, save_results, save_results_with,
    trim_unpublished, trim_unpublished_at, update_results,
};

fn project(id: i32) -> ProjectInfo {
    ProjectInfo {
        id,
        commit_sha: String::from("abc1234"),
        user_email: String::from("u@x"),
        docker_img: String::from("fbksd-ci:latest"),
        token: String::from("t"),
    }
}

fn registered(id: i32, name: &str, group: TechniqueType) -> Database {
    let mut state = Database::new();
    add(&mut state, id, name, group);
    state
}

fn add(state: &mut Database, id: i32, name: &str, group: TechniqueType) {
    let tech = TechniqueInfo {
        technique_type: group,
        short_name: String::from(name),
        full_name: String::new(),
        comment: String::new(),
        citation: String::new(),
        versions: vec![],
    };
    db::register(state, &project(id), &tech).unwrap();
}

fn env() -> Environment {
    Environment {
        data_root: String::from("/d"),
        www_user: String::from("www"),
        www_group: String::from("data"),
    }
}

fn show(steps: &[Action]) -> Vec<String> {
    steps
        .iter()
        .map(|a| match a {
            Action::Commit => String::from("commit"),
            Action::CreateDir(p) => format!("mkdir {}", p),
            Action::CreateDirAll(p) => format!("mkdir -p {}", p),
            Action::RemoveDirAll(p) => format!("rm -r {}", p),
            Action::RemoveDirAllIfPresent(p) => format!("rm -rf {}", p),
            Action::RemoveFile(p) => format!("rm {}", p),
            Action::Symlink { target, link } => format!("ln -s {} {}", target, link),
            Action::ReplaceLink { target, link } => format!("ln -sf {} {}", target, link),
            Action::CopyFile { src, dest } => format!("cp {} {}", src, dest),
            Action::Run { program, args } => format!("{} {}", program, args.join(" ")),
            Action::RunIn { dir, program, args } => {
                format!("[{}] {} {}", dir, program, args.join(" "))
            }
            Action::MoveEach { pattern, dest } => format!("mv-each {} {}", pattern, dest),
            Action::ExportPage { page, workspace } => match workspace {
                Some((g, id, uuid)) => format!("export {} {} {} {}", page, g.as_str(), id, uuid),
                None => format!("export {}", page),
            },
            Action::WriteConfig { path, config } => {
                format!("config {} {}", path, config.renderers.len())
            }
        })
        .collect()
}

#[test]
fn saving_results_adds_a_workspace_and_moves_the_files() {
    let mut state = registered(42, "Box", TechniqueType::DENOISER);
    let (uuid, steps) =
        save_results_with(&mut state, "/d", &project(42), "Box", 2, String::from("u1"), 10)
            .unwrap();
    assert_eq!(uuid, "u1");
    assert_eq!(
        show(&steps),
        vec![
            "commit",
            "mkdir -p /d/workspaces/denoisers/42/u1/results",
            "mv /d/tmp/workspace/denoisers/42 /d/workspaces/denoisers/42/u1/install",
            "mv-each /d/tmp/workspace/results/.current/denoisers/Box/* /d/workspaces/denoisers/42/u1/results/",
        ]
    );
    assert_eq!(state.workspaces().len(), 1);
    assert_eq!(state.workspaces()[0].status, WorkspaceStatus::New);
    assert_eq!(state.workspaces()[0].creation_time, 10);
}

#[test]
fn the_third_save_exceeds_a_capacity_of_two() {
    let mut state = registered(42, "Box", TechniqueType::DENOISER);
    let p = project(42);
    assert!(save_results(&mut state, "/d", &p, "Box", 2).is_ok());
    assert!(save_results(&mut state, "/d", &p, "Box", 2).is_ok());
    assert_eq!(
        save_results(&mut state, "/d", &p, "Box", 2).unwrap_err(),
        Error::MaxWorkspacesExceeded
    );
    assert_eq!(state.workspaces().len(), 2);
    assert_eq!(
        save_results(&mut state, "/d", &project(1), "Box", 2).unwrap_err(),
        Error::NotRegistered
    );
}

#[test]
fn a_private_publication_stages_the_page() {
    let mut state = registered(42, "Box", TechniqueType::DENOISER);
    let p = project(42);
    db::add_workspace_with(&mut state, &p, 3, String::from("u1"), 10).unwrap();
    let names = vec![String::from("Box"), String::from("Gauss")];
    let steps = publish_private_at(&mut state, &env(), &p, "u1", "Box", false, &names, 20).unwrap();
    assert_eq!(
        show(&steps),
        vec![
            "rsync -a --no-links /d/page/ /d/public/u1",
            "ln -s ../scenes /d/public/u1/scenes",
            "mkdir -p /d/public/u1/data/denoisers",
            "ln -s ../../data/samplers /d/public/u1/data/samplers",
            "ln -s ../../../data/denoisers/Gauss /d/public/u1/data/denoisers/Gauss",
            "export /d/public/u1 denoisers 42 u1",
            "rsync -a --include *.png --include */ --exclude * --delete /d/workspaces/denoisers/42/u1/results/ /d/public/u1/data/denoisers/Box/",
            "commit",
            "chown -R www:data /d/public",
        ]
    );
    assert_eq!(state.workspaces()[0].status, WorkspaceStatus::Finished);
    assert_eq!(state.workspaces()[0].finish_time, Some(20));
}

#[test]
fn a_private_publication_that_fails_changes_nothing() {
    let mut state = registered(42, "Box", TechniqueType::DENOISER);
    let p = project(42);
    db::add_workspace_with(&mut state, &p, 3, String::from("u1"), 10).unwrap();
    let names = vec![];
    assert_eq!(
        publish_private_at(&mut state, &env(), &p, "u1", "Box", true, &names, 20).unwrap_err(),
        Error::Unspecified
    );
    assert_eq!(state.workspaces()[0].status, WorkspaceStatus::New);
    assert_eq!(
        publish_private_at(&mut state, &env(), &project(1), "u1", "Box", false, &names, 20)
            .unwrap_err(),
        Error::NotRegistered
    );
    assert_eq!(
        publish_private_at(&mut state, &env(), &p, "nope", "Box", false, &names, 20).unwrap_err(),
        Error::Unspecified
    );
    assert!(publish_private(&mut state, &env(), &p, "u1", "Box", false, &names).is_ok());
    assert!(state.workspaces()[0].finish_time.unwrap() > 1_500_000_000);
}

#[test]
fn a_public_publication_links_the_workspace() {
    let mut state = registered(42, "Box", TechniqueType::DENOISER);
    let p = project(42);
    db::add_workspace_with(&mut state, &p, 3, String::from("u1"), 10).unwrap();
    assert_eq!(
        publish_public_at(&mut state, "/d", &p, "u1", "Box", 30).unwrap_err(),
        Error::Unspecified
    );
    db::publish_workspace_private_at(&mut state, &p, "u1", 20).unwrap();
    let steps = publish_public_at(&mut state, "/d", &p, "u1", "Box", 30).unwrap();
    assert_eq!(
        show(&steps),
        vec![
            "commit",
            "export /d/public denoisers 42 u1",
            "ln -sf u1 /d/workspaces/denoisers/42/published",
            "rm -rf /d/public/data/denoisers/Box",
            "mv /d/public/u1/data/denoisers/Box /d/public/data/denoisers/Box",
            "rm -r /d/public/u1",
        ]
    );
    assert_eq!(state.workspaces()[0].status, WorkspaceStatus::Published);
    assert_eq!(
        publish_public_at(&mut state, "/d", &p, "u1", "Box", 40).unwrap_err(),
        Error::AlreadyPublished
    );
    db::add_workspace_with(&mut state, &p, 3, String::from("u2"), 50).unwrap();
    db::publish_workspace_private_at(&mut state, &p, "u2", 60).unwrap();
    let steps = publish_public(&mut state, "/d", &p, "u2", "Box").unwrap();
    assert_eq!(show(&steps)[2], "ln -sf u2 /d/workspaces/denoisers/42/published");
    assert_eq!(state.workspaces()[0].status, WorkspaceStatus::Finished);
    assert_eq!(state.workspaces()[1].status, WorkspaceStatus::Published);
}

#[test]
fn deleting_a_workspace_removes_its_files() {
    let mut state = registered(7, "Rand", TechniqueType::SAMPLER);
    db::add_workspace_with(&mut state, &project(7), 3, String::from("u1"), 10).unwrap();
    let steps = delete_unpublished_workspace(&mut state, "/d", 7, "u1").unwrap();
    assert_eq!(
        show(&steps),
        vec!["commit", "rm -r /d/workspaces/samplers/7/u1", "rm -r /d/public/u1"]
    );
    assert!(state.workspaces().is_empty());
    assert_eq!(
        delete_unpublished_workspace(&mut state, "/d", 7, "u1").unwrap_err(),
        Error::Unspecified
    );
    assert_eq!(
        delete_unpublished_workspace(&mut state, "/d", 8, "u1").unwrap_err(),
        Error::NotRegistered
    );
}

#[test]
fn a_technique_may_run_below_the_limit() {
    let mut state = registered(42, "Box", TechniqueType::DENOISER);
    let p = project(42);
    assert_eq!(can_run(&state, &p, 1), Ok(true));
    assert_eq!(can_run(&state, &p, 0), Ok(false));
    assert_eq!(can_run(&state, &p, -1), Ok(false));
    db::add_workspace_with(&mut state, &p, 3, String::from("u1"), 10).unwrap();
    assert_eq!(can_run(&state, &p, 1), Ok(true));
    db::publish_workspace_private_at(&mut state, &p, "u1", 20).unwrap();
    assert_eq!(can_run(&state, &p, 1), Ok(false));
    assert_eq!(can_run(&state, &p, 2), Ok(true));
    assert_eq!(can_run(&state, &project(1), 2), Err(Error::Unspecified));
}

#[test]
fn old_workspaces_are_trimmed() {
    let mut state = registered(42, "Box", TechniqueType::DENOISER);
    add(&mut state, 7, "Rand", TechniqueType::SAMPLER);
    let day = 86400;
    db::add_workspace_with(&mut state, &project(42), 9, String::from("old"), 0).unwrap();
    db::publish_workspace_private_at(&mut state, &project(42), "old", 0).unwrap();
    db::add_workspace_with(&mut state, &project(42), 9, String::from("young"), 0).unwrap();
    db::publish_workspace_private_at(&mut state, &project(42), "young", day).unwrap();
    db::add_workspace_with(&mut state, &project(42), 9, String::from("new"), 0).unwrap();
    db::add_workspace_with(&mut state, &project(7), 9, String::from("s-old"), 0).unwrap();
    db::publish_workspace_private_at(&mut state, &project(7), "s-old", 5).unwrap();
    db::add_workspace_with(&mut state, &project(7), 9, String::from("s-pub"), 0).unwrap();
    db::publish_workspace_private_at(&mut state, &project(7), "s-pub", 5).unwrap();
    db::publish_workspace_public_at(&mut state, &project(7), "s-pub", 6).unwrap();

    let steps = trim_unpublished_at(&mut state, "/d", 1, day + 10);
    assert_eq!(
        show(&steps),
        vec![
            "rm -r /d/workspaces/denoisers/42/old",
            "rm -r /d/public/old",
            "rm -r /d/workspaces/samplers/7/s-old",
            "rm -r /d/public/s-old",
            "commit",
        ]
    );
    let left: Vec<&str> = state.workspaces().iter().map(|w| w.uuid.as_str()).collect();
    assert_eq!(left, vec!["young", "new", "s-pub"]);
    let steps = trim_unpublished(&mut state, "/d", 1);
    assert_eq!(show(&steps), vec!["rm -r /d/workspaces/denoisers/42/young", "rm -r /d/public/young", "commit"]);
}

fn scene(name: &str) -> Scene {
    Scene {
        name: String::from(name),
        path: String::new(),
        ref_img: format!("pbrt/{}/ref.exr", name),
        citation: String::new(),
        png: format!("pbrt/{}/ref.png", name),
        thumb: format!("pbrt/{}/ref_thumb256.jpg", name),
    }
}

fn corpus() -> Vec<Renderer> {
    vec![Renderer {
        renderer: String::from("pbrt"),
        scenes: vec![scene("s1"), scene("s2"), scene("s3")],
    }]
}

fn technique(results: &[&str]) -> Technique {
    Technique {
        short_name: String::from("Box"),
        full_name: String::new(),
        comment: String::new(),
        citation: String::new(),
        results: results
            .iter()
            .map(|s| ResultLog {
                aborted: false,
                date: String::new(),
                exec_time: ExecTime { time_ms: 1 },
                spp_budget: 2,
                metrics: vec![MetricValue { metric: String::from("PSNR"), bits: 0 }],
                scene_name: String::from(*s),
            })
            .collect(),
        id: 42,
    }
}

#[test]
fn the_missing_scenes_get_a_scratch_workspace_of_their_own() {
    let state = registered(42, "Box", TechniqueType::DENOISER);
    let (has, steps) = init_missing_scenes_workspace(
        &state,
        "/d",
        &project(42),
        "u1",
        &technique(&["s1", "s2"]),
        &corpus(),
        &[2, 4],
    )
    .unwrap();
    assert!(has);
    assert_eq!(
        show(&steps),
        vec![
            "rm -rf /d/tmp/workspace",
            "mkdir -p /d/tmp/workspace",
            "ln -s ../../scenes /d/tmp/workspace/scenes",
            "ln -s ../../renderers /d/tmp/workspace/renderers",
            "ln -s ../../iqa /d/tmp/workspace/iqa",
            "mkdir /d/tmp/workspace/denoisers",
            "mkdir /d/tmp/workspace/samplers",
            "mkdir /d/tmp/workspace/configs",
            "mkdir -p /d/tmp/workspace/results/Results 1",
            "ln -s Results 1 /d/tmp/workspace/results/.current",
            "config /d/tmp/workspace/configs/all.json 1",
            "ln -s all.json /d/tmp/workspace/configs/.current.json",
            "rsync -a /d/workspaces/denoisers/42/u1/install/ /d/tmp/workspace/denoisers/42",
        ]
    );
    match &steps[10] {
        Action::WriteConfig { config, .. } => {
            assert_eq!(config.filters.len(), 1);
            assert_eq!(config.filters[0].name, "Box");
            assert!(config.samplers.is_empty());
            assert_eq!(config.renderers[0].scenes.len(), 1);
            assert_eq!(config.renderers[0].scenes[0].name, "s3");
            assert_eq!(config.renderers[0].scenes[0].spps, vec![2, 4]);
        }
        other => panic!("{:?}", other),
    }

    let (has, steps) = init_missing_scenes_workspace(
        &state,
        "/d",
        &project(42),
        "u1",
        &technique(&["s1", "s2", "s3"]),
        &corpus(),
        &[2, 4],
    )
    .unwrap();
    assert!(!has);
    assert_eq!(show(&steps), vec!["rm -rf /d/tmp/workspace", "mkdir -p /d/tmp/workspace"]);
    assert_eq!(
        init_missing_scenes_workspace(
            &state,
            "/d",
            &project(1),
            "u1",
            &technique(&[]),
            &corpus(),
            &[2]
        )
        .unwrap_err(),
        Error::NotRegistered
    );
    assert_eq!(
        init_missing_scenes_workspace(
            &state,
            "relative",
            &project(42),
            "u1",
            &technique(&[]),
            &vec![Renderer { renderer: String::from("r"), scenes: vec![scene("s1")] }],
            &[2]
        )
        .map(|p| p.0),
        Ok(true)
    );
}

#[test]
fn new_results_are_merged_without_overwriting() {
    let state = registered(42, "Box", TechniqueType::DENOISER);
    let steps = update_results(&state, &env(), &project(42), "u1", "BoxTmp", "Box").unwrap();
    assert_eq!(
        show(&steps),
        vec![
            "rsync -a --ignore-existing /d/tmp/workspace/results/.current/denoisers/BoxTmp/ /d/workspaces/denoisers/42/u1/results/",
            "rsync -a --include *.png --include */ --exclude * --delete --ignore-existing /d/workspaces/denoisers/42/u1/results/ /d/public/u1/data/denoisers/Box/",
            "chown -R www:data /d/public",
        ]
    );
    assert_eq!(
        update_results(&state, &env(), &project(1), "u1", "Box", "Box").unwrap_err(),
        Error::NotRegistered
    );
}

fn published() -> Vec<Published> {
    vec![
        Published {
            group: TechniqueType::DENOISER,
            id: 42,
            uuid: String::from("u1"),
            short_name: String::from("Box"),
        },
        Published {
            group: TechniqueType::SAMPLER,
            id: 7,
            uuid: String::from("u2"),
            short_name: String::from("Rand"),
        },
    ]
}

#[test]
fn the_scratch_workspace_is_saved_technique_by_technique() {
    let p = &published()[0];
    assert_eq!(
        show(&staging::save_technique_tmp_workspace("/d", p, true, true)),
        vec![
            "mv /d/tmp/workspace/results/.current/denoisers/Box/ /d/workspaces/denoisers/42/u1/results/",
            "mv /d/tmp/workspace/denoisers/42/ /d/workspaces/denoisers/42/u1/install/",
        ]
    );
    assert_eq!(
        show(&staging::save_technique_tmp_workspace("/d", p, false, false)),
        vec![
            "rsync -a --ignore-existing /d/tmp/workspace/results/.current/denoisers/Box/ /d/workspaces/denoisers/42/u1/results/",
        ]
    );
    assert_eq!(staging::save_tmp_workspace("/d", true, &published(), true, false).len(), 4);
    assert!(staging::save_tmp_workspace("/d", false, &published(), true, false).is_empty());
}

#[test]
fn the_scratch_workspace_is_set_up_with_the_published_techniques() {
    let steps = staging::create_tmp_workspace("/d", true, &published(), &[2, 4]);
    assert_eq!(
        show(&steps),
        vec![
            "rm -rf /d/tmp/workspace",
            "mkdir -p /d/tmp/workspace",
            "ln -s /d/renderers /d/tmp/workspace/renderers",
            "[/d/tmp/workspace] fbksd init --scenes-dir /d/scenes",
            "mkdir -p /d/tmp/workspace/results/.current/denoisers",
            "mkdir -p /d/tmp/workspace/results/.current/samplers",
            "rsync -a /d/workspaces/denoisers/42/u1/install/ /d/tmp/workspace/denoisers/42",
            "rsync -a /d/workspaces/denoisers/42/u1/results/ /d/tmp/workspace/results/.current/denoisers/Box",
            "rsync -a /d/workspaces/samplers/7/u2/install/ /d/tmp/workspace/samplers/7",
            "rsync -a /d/workspaces/samplers/7/u2/results/ /d/tmp/workspace/results/.current/samplers/Rand",
            "[/d/tmp/workspace] fbksd config new all --scenes-all --filters-all --samplers-all --select --spps 2 4",
        ]
    );
    assert_eq!(staging::create_tmp_workspace("/d", false, &published(), &[2]).len(), 5);
}

#[test]
fn the_public_page_is_updated_from_the_published_workspaces() {
    let wp = Workspace::new(
        vec![Renderer { renderer: String::from("pbrt"), scenes: vec![scene("s1")] }],
        vec![],
        vec![],
        vec![],
    );
    let steps = admin::update_page(&env(), &wp, &published()).unwrap();
    assert_eq!(
        show(&steps),
        vec![
            "export /d/public",
            "mkdir -p /d/public/scenes",
            "mkdir -p /d/public/scenes/pbrt/s1",
            "cp /d/scenes/pbrt/s1/ref.png /d/public/scenes/pbrt/s1/ref.png",
            "cp /d/scenes/pbrt/s1/ref_thumb256.jpg /d/public/scenes/pbrt/s1/ref_thumb256.jpg",
            "rsync -a --include *.png --include */ --exclude * --delete /d/workspaces/denoisers/42/u1/results/ /d/public/data/denoisers/Box/",
            "rsync -a --include *.png --include */ --exclude * --delete /d/workspaces/samplers/7/u2/results/ /d/public/data/samplers/Rand/",
            "chown -R www:data /d/public",
        ]
    );
    let all = admin::run_all(&env(), "fbksd-ci", &wp, &published(), &[2]).unwrap();
    let shown = show(&all);
    assert_eq!(shown.len(), 11 + 2 + 2 + 8);
    assert!(shown[11].starts_with("[/d/tmp/workspace] docker run --gpus all"));
    assert!(shown[11].ends_with("fbksd-ci fbksd run"));
    assert!(shown[12].ends_with("fbksd-ci fbksd results compute"));
    assert_eq!(
        shown[13],
        "rsync -a --ignore-existing /d/tmp/workspace/results/.current/denoisers/Box/ /d/workspaces/denoisers/42/u1/results/"
    );
}

#[test]
fn a_technique_leaves_the_public_page() {
    let mut state = registered(42, "Box", TechniqueType::DENOISER);
    let p = project(42);
    db::add_workspace_with(&mut state, &p, 3, String::from("u1"), 10).unwrap();
    db::publish_workspace_private_at(&mut state, &p, "u1", 20).unwrap();
    db::publish_workspace_public_at(&mut state, &p, "u1", 30).unwrap();
    let (group, uuid) = db::unpublish_workspace(&mut state, 42).unwrap();
    assert_eq!(uuid, "u1");
    let steps = publishing::unpublish_technique("/d", group, 42, "Box");
    assert_eq!(
        show(&steps),
        vec![
            "rm /d/workspaces/denoisers/42/published",
            "rm -r /d/public/data/denoisers/Box",
            "commit",
            "export /d/public",
        ]
    );
}

#[test]
fn the_building_blocks_of_the_steps() {
    assert_eq!(show(&[move_path("a", "b")]), vec!["mv a b"]);
    assert_eq!(show(&[sync_path("a", "b", false)]), vec!["rsync -a a b"]);
    assert_eq!(show(&[sync_path("a", "b", true)]), vec!["rsync -a --ignore-existing a b"]);
    assert_eq!(show(&[own_path("u", "g", "/p")]), vec!["chown -R u:g /p"]);
    assert_eq!(
        show(&[sync_images("a/", "b/", true)]),
        vec!["rsync -a --include *.png --include */ --exclude * --delete --ignore-existing a/ b/"]
    );
    assert_eq!(
        show(&[publishing::export_technique_images("a", "b", false)]),
        vec!["rsync -a --include *.png --include */ --exclude * --delete a/ b/"]
    );
    assert_eq!(
        show(&[publishing::set_public_page_permissions(&env())]),
        vec!["chown -R www:data /d/public"]
    );
    assert_eq!(
        show(&publishing::export_images("/d", &published()[..1].iter().map(|p| Published {
            group: p.group,
            id: p.id,
            uuid: p.uuid.clone(),
            short_name: p.short_name.clone(),
        }).collect())),
        vec!["rsync -a --include *.png --include */ --exclude * --delete /d/workspaces/denoisers/42/u1/results/ /d/public/data/denoisers/Box/"]
    );
    assert!(publishing::copy_public_page("/d", "/d/public/u", true, TechniqueType::DENOISER, "x", &vec![]).is_none());
    assert!(publishing::copy_public_page("d", "/abs", false, TechniqueType::DENOISER, "x", &vec![]).is_none());
}
