use fbksd_core::ci::ProjectInfo;
use fbksd_core::db;
use fbksd_core::db::{Database, NextIds};
use fbksd_core::error::Error;
use fbksd_core::info::{TechniqueInfo, TechniqueType};
use fbksd_core::schema::{Priority, Task, TaskType};

fn project(id: i32) -> ProjectInfo {
    ProjectInfo {
        id,
        commit_sha: format!("sha{}", id),
        user_email: String::from("u@x"),
        docker_img: String::from("fbksd-ci:latest"),
        token: String::from("t"),
    }
}

fn state_with(ids: &[i32]) -> Database {
    let mut state = Database::new();
    for id in ids {
        let tech = TechniqueInfo {
            technique_type: TechniqueType::DENOISER,
            short_name: format!("tech{}", id),
            full_name: String::new(),
            comment: String::new(),
            citation: String::new(),
            versions: vec![],
        };
        db::register(&mut state, &project(*id), &tech).unwrap();
    }
    state
}

#[test]
fn high_tasks_leave_first_and_each_class_in_order() {
    let mut state = state_with(&[1, 2, 3]);
    assert_eq!(db::push_run_task(&mut state, &project(1)), Ok(()));
    assert_eq!(db::push_build_task(&mut state, &project(2)), Ok(()));
    assert_eq!(db::push_run_task(&mut state, &project(3)), Ok(()));

    let first = db::pop_next_task(&mut state).unwrap();
    assert_eq!(first.get_type(), TaskType::Build);
    assert_eq!(first.technique_id, 2);
    assert_eq!(first.docker_img, "fbksd-ci:latest");
    assert_eq!(first.commit_sha, "sha2");
    assert_eq!(first.task_data, None);
    assert_eq!(first.user_email, "u@x");

    let second = db::pop_next_task(&mut state).unwrap();
    assert_eq!(second.get_type(), TaskType::RunBenchmark);
    assert_eq!(second.technique_id, 1);

    let third = db::pop_next_task(&mut state).unwrap();
    assert_eq!(third.get_type(), TaskType::RunBenchmark);
    assert_eq!(third.technique_id, 3);
    assert!(second.id < third.id);

    assert!(db::pop_next_task(&mut state).is_none());
}

#[test]
fn a_second_build_for_a_technique_is_rejected() {
    let mut state = state_with(&[1]);
    assert_eq!(db::push_build_task(&mut state, &project(1)), Ok(()));
    assert_eq!(db::push_build_task(&mut state, &project(1)), Err(Error::Unspecified));
    assert_eq!(state.priority_tasks().len(), 1);
    assert_eq!(db::push_run_task(&mut state, &project(1)), Ok(()));
    assert_eq!(
        db::push_publish_task(&mut state, &project(1), &String::from("u1")),
        Err(Error::Unspecified)
    );
    assert_eq!(db::push_run_task(&mut state, &project(1)), Err(Error::Unspecified));
    assert_eq!(state.normal_tasks().len(), 1);
    db::pop_next_task(&mut state).unwrap();
    assert_eq!(db::push_build_task(&mut state, &project(1)), Ok(()));
}

#[test]
fn tasks_need_a_registered_technique() {
    let mut state = state_with(&[1]);
    assert_eq!(db::push_build_task(&mut state, &project(2)), Err(Error::NotRegistered));
    assert_eq!(db::push_run_task(&mut state, &project(2)), Err(Error::NotRegistered));
    assert_eq!(
        db::push_publish_task(&mut state, &project(2), &String::from("u")),
        Err(Error::NotRegistered)
    );
}

#[test]
fn a_publication_carries_the_uuid() {
    let mut state = state_with(&[1]);
    assert_eq!(db::push_publish_task(&mut state, &project(1), &String::from("u-1")), Ok(()));
    let task = db::pop_next_task(&mut state).unwrap();
    assert_eq!(task.get_type(), TaskType::PublishResults);
    assert_eq!(task.task_data, Some(String::from("u-1")));
    assert_eq!(task.id, 1);
}

#[test]
fn row_ids_keep_growing() {
    let mut state = state_with(&[1, 2]);
    db::push_build_task(&mut state, &project(1)).unwrap();
    assert_eq!(db::pop_next_task(&mut state).unwrap().id, 1);
    db::push_build_task(&mut state, &project(2)).unwrap();
    assert_eq!(db::pop_next_task(&mut state).unwrap().id, 2);
    assert_eq!(state.next_ids().priority, 3);
    assert_eq!(state.next_ids().normal, 1);
}

#[test]
fn a_full_table_takes_no_task() {
    let tech = fbksd_core::schema::Technique {
        id: 1,
        technique_type: TechniqueType::DENOISER,
        short_name: String::from("a"),
        full_name: String::new(),
        citation: String::new(),
        comment: String::new(),
    };
    let next = NextIds { priority: i32::MAX, normal: 1, message: i32::MAX };
    let mut state = Database::load(vec![tech], vec![], vec![], vec![], vec![], next).unwrap();
    assert_eq!(db::push_build_task(&mut state, &project(1)), Err(Error::Unspecified));
    assert_eq!(db::push_run_task(&mut state, &project(1)), Ok(()));
    assert_eq!(db::push_msg_task(&mut state, "a@b", "s", "t"), Err(Error::Unspecified));
}

#[test]
fn a_stored_queue_is_loaded_only_if_it_is_sound() {
    let tech = |id: i32, name: &str| fbksd_core::schema::Technique {
        id,
        technique_type: TechniqueType::DENOISER,
        short_name: String::from(name),
        full_name: String::new(),
        citation: String::new(),
        comment: String::new(),
    };
    let task = |id: i32, technique_id: i32, kind: TaskType| Task {
        id,
        technique_id,
        commit_sha: String::new(),
        docker_img: String::new(),
        task_type: kind,
        task_data: None,
        user_email: String::from("u@x"),
    };
    let next = NextIds { priority: 5, normal: 5, message: 1 };
    let ok = Database::load(
        vec![tech(1, "a"), tech(2, "b")],
        vec![],
        vec![task(1, 1, TaskType::Build), task(3, 2, TaskType::Build)],
        vec![task(2, 1, TaskType::RunBenchmark)],
        vec![],
        next,
    );
    assert!(ok.is_some());
    let twice = Database::load(
        vec![tech(1, "a")],
        vec![],
        vec![task(1, 1, TaskType::Build), task(2, 1, TaskType::Build)],
        vec![],
        vec![],
        next,
    );
    assert!(twice.is_none());
    let unordered = Database::load(
        vec![tech(1, "a"), tech(2, "b")],
        vec![],
        vec![task(3, 1, TaskType::Build), task(2, 2, TaskType::Build)],
        vec![],
        vec![],
        next,
    );
    assert!(unordered.is_none());
    let wrong_class = Database::load(
        vec![tech(1, "a")],
        vec![],
        vec![task(1, 1, TaskType::RunBenchmark)],
        vec![],
        vec![],
        next,
    );
    assert!(wrong_class.is_none());
    let beyond = Database::load(
        vec![tech(1, "a")],
        vec![],
        vec![task(5, 1, TaskType::Build)],
        vec![],
        vec![],
        next,
    );
    assert!(beyond.is_none());
}

#[test]
fn messages_are_read_and_dropped_in_order() {
    let mut state = Database::new();
    assert!(db::read_next_message(&state).is_none());
    assert_eq!(db::pop_next_message(&mut state), Err(Error::Unspecified));
    assert_eq!(db::push_msg_task(&mut state, "a@x", "first", "one"), Ok(()));
    assert_eq!(db::push_msg_task(&mut state, "b@x", "second", "two"), Ok(()));
    let m = db::read_next_message(&state).unwrap();
    assert_eq!(m.id, 1);
    assert_eq!(m.to_address, "a@x");
    assert_eq!(m.subject, "first");
    assert_eq!(m.text, "one");
    assert_eq!(db::read_next_message(&state).unwrap().id, 1);
    assert_eq!(db::pop_next_message(&mut state), Ok(()));
    assert_eq!(db::read_next_message(&state).unwrap().subject, "second");
    assert_eq!(db::pop_next_message(&mut state), Ok(()));
    assert!(db::read_next_message(&state).is_none());
}

#[test]
fn task_kinds_are_stored_as_numbers() {
    assert_eq!(TaskType::Build.code(), 0);
    assert_eq!(TaskType::RunBenchmark.code(), 1);
    assert_eq!(TaskType::PublishResults.code(), 2);
    assert_eq!(TaskType::from_code(0), TaskType::Build);
    assert_eq!(TaskType::from_code(2), TaskType::PublishResults);
    assert_eq!(TaskType::from_code(1), TaskType::RunBenchmark);
    assert_eq!(TaskType::from_code(9), TaskType::RunBenchmark);
    assert_eq!(TaskType::Build.priority(), Priority::High);
    assert_eq!(TaskType::RunBenchmark.priority(), Priority::Normal);
    assert_eq!(TaskType::PublishResults.priority(), Priority::Normal);
}
