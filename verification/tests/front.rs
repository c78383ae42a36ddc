use fbksd_core::admin;
use fbksd_core::ci::ProjectInfo;
use fbksd_core::cmake;
use fbksd_core::cmake::BuildType;
use fbksd_core::consumer;
use fbksd_core::db;
use fbksd_core::db::Database;
use fbksd_core::docker::Docker;
use fbksd_core::error::Error as CoreError;
use fbksd_core::info::{TechniqueInfo, TechniqueType};
use fbksd_core::msgs::{Error, Msg};
use fbksd_core::producer;
use fbksd_core::actions::Action;
use fbksd_core::schema::{Task, TaskType};
use fbksd_core::server;
use fbksd_core::webhooks;

fn project(id: i32) -> ProjectInfo {
    ProjectInfo {
        id,
        commit_sha: String::from("abc1234"),
        user_email: String::from("u@x"),
        docker_img: String::from("fbksd-ci:latest"),
        token: String::from("t"),
    }
}

fn manifest(name: &str) -> TechniqueInfo {
    TechniqueInfo {
        technique_type: TechniqueType::DENOISER,
        short_name: String::from(name),
        full_name: String::new(),
        comment: String::new(),
        citation: String::new(),
        versions: vec![],
    }
}

#[test]
fn the_builder_collects_the_settings_in_the_order_of_the_run() {
    let mut docker = Docker::new("image");
    docker
        .args(&["--rm"])
        .env_vars(&["A=1", "B=2"])
        .mounts(&[("/h", "/c")])
        .mounts_ro(&[("/h2", "/c2")])
        .cmd_args(&["first"])
        .network("net")
        .working_dir("/wd");
    assert_eq!(
        docker.run_args("cmd", &["x", "y"]),
        vec![
            "run", "--gpus", "all", "--rm", "-v", "/h:/c", "-v", "/h2:/c2:ro", "-e", "A=1",
            "-e", "B=2", "--network", "net", "image", "cmd", "first", "x", "y"
        ]
    );
}

fn task(kind: TaskType, data: Option<&str>) -> Task {
    Task {
        id: 1,
        technique_id: 42,
        commit_sha: String::from("abc"),
        docker_img: String::from("fbksd-ci:latest"),
        task_type: kind,
        task_data: data.map(String::from),
        user_email: String::from("owner@x"),
    }
}

#[test]
fn a_task_runs_in_the_container_of_its_image() {
    let args = consumer::execute_task("/d", "fbksd-server:8096", &task(TaskType::Build, None));
    assert_eq!(
        args,
        vec![
            "run",
            "--gpus",
            "all",
            "-v",
            "/d/tmp/workspace:/mnt/fbksd-data/tmp/workspace",
            "-v",
            "/var/lock/fbksd.lock:/var/lock/fbksd.lock",
            "-v",
            "/d/scenes:/mnt/fbksd-data/scenes:ro",
            "-v",
            "/d/renderers:/mnt/fbksd-data/renderers:ro",
            "-v",
            "/d/iqa:/mnt/fbksd-data/iqa:ro",
            "-e",
            "FBKSD_DATA_ROOT=/mnt/fbksd-data",
            "-e",
            "FBKSD_SERVER_ADDR=fbksd-server:8096",
            "--network",
            "fbksd-net",
            "fbksd-ci:latest",
            "fbksd-ci",
            "install"
        ]
    );
    let run = consumer::execute_task("/d", "s:1", &task(TaskType::RunBenchmark, None));
    assert_eq!(run.last().unwrap(), "run");
    let publish = consumer::execute_task("/d", "s:1", &task(TaskType::PublishResults, Some("u-1")));
    assert_eq!(publish.last().unwrap(), "publish");
    assert!(publish.contains(&String::from("FBKSD_PUBLISH=u-1")));
    assert!(!run.iter().any(|a| a.starts_with("FBKSD_PUBLISH")));
    assert_eq!(consumer::subcommand(TaskType::Build), "install");
    assert_eq!(consumer::POLLING_INTERVAL, 10);
}

#[test]
fn the_owner_is_told_how_the_task_ended() {
    let mut state = Database::new();
    let ended = task(TaskType::Build, None);
    assert_eq!(consumer::report(&mut state, &ended, Some(0)), Ok(()));
    assert_eq!(consumer::report(&mut state, &ended, Some(1)), Ok(()));
    assert_eq!(consumer::report(&mut state, &ended, None), Ok(()));
    let texts: Vec<&str> = state.message_tasks().iter().map(|m| m.text.as_str()).collect();
    assert_eq!(texts, vec!["Task succeeded.", "Task failed.", "Task failed."]);
    assert_eq!(state.message_tasks()[0].subject, "FBKSD status update");
    assert_eq!(state.message_tasks()[0].to_address, "owner@x");
}

#[test]
fn the_control_tool_runs_in_the_scratch_workspace() {
    assert_eq!(
        admin::docker_run("/d", "fbksd-ci", "fbksd", &["results", "compute"]),
        vec![
            "run",
            "--gpus",
            "all",
            "-v",
            "/var/lock/fbksd.lock:/var/lock/fbksd.lock",
            "-v",
            "/d/tmp/workspace:/mnt/fbksd-data/tmp/workspace",
            "-v",
            "/d/renderers:/mnt/fbksd-data/tmp/workspace/renderers:ro",
            "-v",
            "/d/scenes:/mnt/fbksd-data/tmp/workspace/scenes:ro",
            "--network",
            "",
            "fbksd-ci",
            "fbksd",
            "results",
            "compute"
        ]
    );
}

#[test]
fn install_registers_and_queues_a_build() {
    let mut state = Database::new();
    let steps = producer::install(&mut state, "/d", &project(42), &manifest("Box")).unwrap();
    assert_eq!(state.techniques().len(), 1);
    assert_eq!(state.techniques()[0].id, 42);
    assert_eq!(state.priority_tasks().len(), 1);
    assert_eq!(state.priority_tasks()[0].docker_img, "fbksd-ci:latest");
    assert_eq!(state.priority_tasks()[0].task_type, TaskType::Build);
    assert!(state.normal_tasks().is_empty());
    assert_eq!(steps.len(), 3);
    assert!(matches!(steps[0], Action::Commit));
    match &steps[1] {
        Action::CreateDirAll(p) => assert_eq!(p, "/d/workspaces/denoisers/42/project"),
        other => panic!("{:?}", other),
    }
    match &steps[2] {
        Action::Run { program, args } => {
            assert_eq!(program, "rsync");
            assert_eq!(args, &vec!["-a", ".", "/d/workspaces/denoisers/42/project/"]);
        }
        other => panic!("{:?}", other),
    }
    assert_eq!(
        producer::install(&mut state, "/d", &project(42), &manifest("Box")).unwrap_err(),
        CoreError::Unspecified
    );
    assert_eq!(
        producer::install(&mut state, "/d", &project(43), &manifest("Box")).unwrap_err(),
        CoreError::NameAlreadyExists
    );
    assert_eq!(state.techniques().len(), 1);
}

#[test]
fn a_message_stands_between_two_rows_of_stars() {
    assert_eq!(producer::print_msg("hello"), "*****\nhello\n*****");
    assert_eq!(
        producer::print_msg("Failed.\n  - reason here"),
        "***************\nFailed.\n  - reason here\n***************"
    );
    assert_eq!(producer::print_msg(""), "\n\n");
    assert_eq!(producer::print_msg("ab\n"), "**\nab\n\n**");
    let row = "*".repeat(producer::BUILD_QUEUED.len());
    assert!(producer::print_msg(producer::BUILD_QUEUED).starts_with(&row));
    assert!(producer::RUN_QUEUED.starts_with("Benchmark execution task was queued."));
}

#[test]
fn the_server_answers_each_request() {
    let mut state = Database::new();
    assert_eq!(server::register(&mut state, &project(1), &manifest("Box")), Ok(String::new()));
    assert_eq!(
        server::register(&mut state, &project(2), &manifest("Box")),
        Err(Error::Logic(String::from("technique with the same name already exists")))
    );
    assert_eq!(server::done(Ok(())), Ok(String::new()));
    assert_eq!(server::done(Err(CoreError::Unspecified)), Err(Error::Internal));
    assert_eq!(server::save_results(Ok(String::from("u-1"))), Ok(String::from("u-1")));
    assert_eq!(
        server::save_results(Err(CoreError::MaxWorkspacesExceeded)),
        Err(Error::Logic(String::from("maximum number of workspaces exceeded")))
    );
    assert_eq!(server::can_run(Ok(true)), Ok(String::from("true")));
    assert_eq!(server::can_run(Ok(false)), Ok(String::from("false")));
    assert_eq!(server::can_run(Err(CoreError::Unspecified)), Err(Error::Internal));
    assert_eq!(server::init_missing_scenes_workspace(Ok(true)), Ok(String::new()));
    assert_eq!(
        server::init_missing_scenes_workspace(Ok(false)),
        Ok(String::from("NO_SCENE"))
    );
    assert_eq!(
        server::init_missing_scenes_workspace(Err(CoreError::NotRegistered)),
        Err(Error::Logic(String::from("no technique with the given id was found")))
    );
    assert_eq!(server::invalid_message(), Err(Error::InvalidMessage));
    assert!(server::closes_connection(&Err(Error::Internal)));
    assert!(!server::closes_connection(&Ok(String::new())));
    assert!(server::ends_session(&Msg::End));
    assert!(!server::ends_session(&Msg::CanRun(project(1))));
    assert_eq!(server::BIND_ADDRESS, "0.0.0.0:8096");
}

#[test]
fn errors_of_the_registry_become_errors_of_the_server() {
    for e in [
        CoreError::NameAlreadyExists,
        CoreError::NotRegistered,
        CoreError::InvalidInfoFile,
        CoreError::AlreadyPublished,
        CoreError::MaxWorkspacesExceeded,
    ] {
        assert_eq!(Error::from(e), Error::Logic(String::from(e.message())));
        assert_eq!(Error::of(e), Error::Logic(String::from(e.message())));
    }
    assert_eq!(Error::from(CoreError::Unspecified), Error::Internal);
    assert_eq!(Error::InvalidMessage.message(), "invalid message");
    assert_eq!(Error::Internal.message(), "internal error");
    assert_eq!(Error::Logic(String::from("x")).message(), "logic error: x");
}

#[test]
fn the_webhook_takes_payloads_up_to_the_limit() {
    assert!(webhooks::accepts(true, 0));
    assert!(webhooks::accepts(true, 262_144));
    assert!(!webhooks::accepts(true, 262_145));
    assert!(!webhooks::accepts(false, 10));
    assert_eq!(webhooks::receive(0, 262_144), Some(262_144));
    assert_eq!(webhooks::receive(262_144, 1), None);
    assert_eq!(webhooks::receive(100, 28), Some(128));
    assert_eq!(webhooks::receive(usize::MAX, usize::MAX), None);
    assert_eq!(webhooks::MAX_SIZE, 256 * 1024);
}

#[test]
fn cmake_is_given_the_build_type_and_the_prefix() {
    assert_eq!(
        cmake::config(BuildType::Release, "install", ".."),
        vec!["-DCMAKE_BUILD_TYPE=Release", "-DCMAKE_INSTALL_PREFIX=install", ".."]
    );
    assert_eq!(
        cmake::config(BuildType::default(), "/p", "src")[0],
        "-DCMAKE_BUILD_TYPE=Debug"
    );
    assert_eq!(cmake::install(), vec!["--build", ".", "--target", "install"]);
    let inside = vec![String::from("/w/install/bin/box"), String::from("/w/install/info.json")];
    assert!(cmake::manifest_contained("/w/install", &inside));
    let outside = vec![String::from("/w/install/bin/box"), String::from("/usr/bin/box")];
    assert!(!cmake::manifest_contained("/w/install", &outside));
    assert!(!cmake::manifest_contained("/w/install", &vec![String::from("/w/installer/x")]));
    assert!(cmake::manifest_contained("/w/install", &vec![]));
    assert!(fbksd_core::utils::starts_with("/a/b/c", "/a/b"));
    assert!(fbksd_core::utils::starts_with("/a/b", "/a/b/"));
    assert!(!fbksd_core::utils::starts_with("/a", "/a/b"));
    assert_eq!(BuildType::Debug.as_str(), "Debug");
}

#[test]
fn a_queued_run_needs_no_second_one() {
    let mut state = Database::new();
    db::register(&mut state, &project(1), &manifest("Box")).unwrap();
    assert_eq!(db::push_run_task(&mut state, &project(1)), Ok(()));
    assert_eq!(db::push_run_task(&mut state, &project(1)), Err(CoreError::Unspecified));
}
