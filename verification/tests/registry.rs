use fbksd_core::ci::ProjectInfo;
use fbksd_core::db;
use fbksd_core::db::{Database, NextIds};
use fbksd_core::error::Error;
use fbksd_core::info::{TechniqueInfo, TechniqueType, Version};
use fbksd_core::schema::{Technique, Workspace, WorkspaceStatus};

fn project(id: i32) -> ProjectInfo {
    ProjectInfo {
        id,
        commit_sha: String::from("abc1234"),
        user_email: String::from("u@x"),
        docker_img: String::from("fbksd-ci:latest"),
        token: String::from("t"),
    }
}

fn manifest(name: &str, versions: Vec<Version>) -> TechniqueInfo {
    TechniqueInfo {
        technique_type: TechniqueType::DENOISER,
        short_name: String::from(name),
        full_name: String::from("Box filter"),
        comment: String::from("a comment"),
        citation: String::from("a citation"),
        versions,
    }
}

fn version(name: &str) -> Version {
    Version {
        name: String::from(name),
        comment: String::new(),
        executable: String::from("bin"),
    }
}

fn registered(id: i32, name: &str) -> Database {
    let mut state = Database::new();
    db::register(&mut state, &project(id), &manifest(name, vec![])).unwrap();
    state
}

fn status_of(state: &Database, uuid: &str) -> WorkspaceStatus {
    state
        .workspaces()
        .iter()
        .find(|w| w.uuid == uuid)
        .unwrap()
        .status
}

#[test]
fn first_registration_adds_one_technique() {
    let mut state = Database::new();
    assert_eq!(db::register(&mut state, &project(42), &manifest("Box", vec![])), Ok(()));
    assert_eq!(state.techniques().len(), 1);
    assert_eq!(state.techniques()[0].id, 42);
    assert_eq!(state.techniques()[0].short_name, "Box");
    assert_eq!(db::technique_type(&state, 42), Ok(TechniqueType::DENOISER));
    assert_eq!(db::technique_type(&state, 43), Err(Error::NotRegistered));
}

#[test]
fn name_collision_is_rejected() {
    let mut state = registered(42, "Box");
    assert_eq!(
        db::register(&mut state, &project(43), &manifest("Box", vec![])),
        Err(Error::NameAlreadyExists)
    );
    assert_eq!(state.techniques().len(), 1);
    assert_eq!(state.techniques()[0].id, 42);
    assert_eq!(state.techniques()[0].short_name, "Box");
}

#[test]
fn register_with_two_versions_is_invalid() {
    let mut state = Database::new();
    let tech = manifest("Box", vec![version("default"), version("fast")]);
    assert_eq!(db::register(&mut state, &project(1), &tech), Err(Error::InvalidInfoFile));
    assert_eq!(state.techniques().len(), 0);
}

#[test]
fn register_with_a_version_not_named_default_is_invalid() {
    let mut state = Database::new();
    let tech = manifest("Box", vec![version("fast")]);
    assert_eq!(db::register(&mut state, &project(1), &tech), Err(Error::InvalidInfoFile));
    let tech = manifest("Box", vec![version("default")]);
    assert_eq!(db::register(&mut state, &project(1), &tech), Ok(()));
}

#[test]
fn registering_again_updates_the_description_and_keeps_the_group() {
    let mut state = registered(42, "Box");
    let mut tech = manifest("Box2", vec![]);
    tech.technique_type = TechniqueType::SAMPLER;
    tech.full_name = String::from("Another name");
    assert_eq!(db::register(&mut state, &project(42), &tech), Ok(()));
    assert_eq!(state.techniques().len(), 1);
    assert_eq!(state.techniques()[0].short_name, "Box2");
    assert_eq!(state.techniques()[0].full_name, "Another name");
    assert_eq!(db::technique_type(&state, 42), Ok(TechniqueType::DENOISER));
}

#[test]
fn renaming_to_a_name_in_use_is_rejected() {
    let mut state = registered(42, "Box");
    db::register(&mut state, &project(43), &manifest("Gauss", vec![])).unwrap();
    assert_eq!(
        db::register(&mut state, &project(43), &manifest("Box", vec![])),
        Err(Error::NameAlreadyExists)
    );
    assert_eq!(state.techniques()[1].short_name, "Gauss");
}

#[test]
fn capacity_is_enforced() {
    let mut state = registered(42, "Box");
    let p = project(42);
    assert_eq!(
        db::add_workspace_with(&mut state, &p, 2, String::from("u1"), 10),
        Ok(String::from("u1"))
    );
    assert_eq!(
        db::add_workspace_with(&mut state, &p, 2, String::from("u2"), 11),
        Ok(String::from("u2"))
    );
    assert_eq!(
        db::add_workspace_with(&mut state, &p, 2, String::from("u3"), 12),
        Err(Error::MaxWorkspacesExceeded)
    );
    assert_eq!(state.num_workspaces(42), 2);
    assert_eq!(state.count_unpublished(42), 2);
}

#[test]
fn removing_a_workspace_restores_admission() {
    let mut state = registered(42, "Box");
    let p = project(42);
    db::add_workspace_with(&mut state, &p, 1, String::from("u1"), 10).unwrap();
    assert_eq!(
        db::add_workspace_with(&mut state, &p, 1, String::from("u2"), 11),
        Err(Error::MaxWorkspacesExceeded)
    );
    assert_eq!(db::remove_workspace(&mut state, 42, "u1"), Ok(()));
    assert_eq!(
        db::add_workspace_with(&mut state, &p, 1, String::from("u2"), 11),
        Ok(String::from("u2"))
    );
    assert_eq!(state.count_unpublished(42), 1);
    assert_eq!(
        db::add_workspace_with(&mut state, &p, 1, String::from("u3"), 12),
        Err(Error::MaxWorkspacesExceeded)
    );
    assert_eq!(db::remove_workspace(&mut state, 42, "u2"), Ok(()));
    let minted = db::add_workspace(&mut state, &p, 1).unwrap();
    assert_ne!(minted, "u2");
    assert_eq!(state.count_unpublished(42), 1);
}

#[test]
fn a_published_workspace_does_not_count_against_the_capacity() {
    let mut state = registered(42, "Box");
    let p = project(42);
    db::add_workspace_with(&mut state, &p, 1, String::from("u1"), 10).unwrap();
    db::publish_workspace_private_at(&mut state, &p, "u1", 20).unwrap();
    db::publish_workspace_public_at(&mut state, &p, "u1", 30).unwrap();
    assert_eq!(
        db::add_workspace_with(&mut state, &p, 1, String::from("u2"), 40),
        Ok(String::from("u2"))
    );
}

#[test]
fn add_workspace_needs_a_registered_technique_and_a_new_uuid() {
    let mut state = registered(42, "Box");
    assert_eq!(
        db::add_workspace_with(&mut state, &project(7), 3, String::from("u1"), 10),
        Err(Error::NotRegistered)
    );
    db::add_workspace_with(&mut state, &project(42), 3, String::from("u1"), 10).unwrap();
    assert_eq!(
        db::add_workspace_with(&mut state, &project(42), 3, String::from("u1"), 10),
        Err(Error::Unspecified)
    );
    assert_eq!(
        db::add_workspace_with(&mut state, &project(42), -1, String::from("u2"), 10),
        Err(Error::MaxWorkspacesExceeded)
    );
}

#[test]
fn add_workspace_mints_a_fresh_uuid_each_time() {
    let mut state = registered(42, "Box");
    let first = db::add_workspace(&mut state, &project(42), 5).unwrap();
    let second = db::add_workspace(&mut state, &project(42), 5).unwrap();
    assert_eq!(first.len(), 36);
    assert_eq!(second.len(), 36);
    assert_ne!(first, second);
    assert_eq!(first.matches('-').count(), 4);
    for (i, c) in first.chars().enumerate() {
        if i == 8 || i == 13 || i == 18 || i == 23 {
            assert_eq!(c, '-');
        } else {
            assert!(c.is_ascii_digit() || ('a'..='f').contains(&c));
        }
    }
    assert_eq!(first.chars().nth(14), Some('4'));
    assert!("89ab".contains(first.chars().nth(19).unwrap()));
    assert_eq!(state.workspaces().len(), 2);
    assert_eq!(state.workspaces()[0].uuid, first);
    assert_eq!(state.workspaces()[0].status, WorkspaceStatus::New);
    assert!(state.workspaces()[0].creation_time > 1_500_000_000);
}

#[test]
fn publish_public_depends_on_the_status() {
    let mut state = registered(42, "Box");
    let p = project(42);
    db::add_workspace_with(&mut state, &p, 3, String::from("u1"), 10).unwrap();
    assert_eq!(
        db::publish_workspace_public_at(&mut state, &p, "u1", 20),
        Err(Error::Unspecified)
    );
    assert_eq!(db::publish_workspace_private_at(&mut state, &p, "u1", 20), Ok(()));
    assert_eq!(db::publish_workspace_public_at(&mut state, &p, "u1", 30), Ok(()));
    assert_eq!(
        db::publish_workspace_public_at(&mut state, &p, "u1", 40),
        Err(Error::AlreadyPublished)
    );
    assert_eq!(
        db::publish_workspace_public_at(&mut state, &p, "nope", 40),
        Err(Error::Unspecified)
    );
    assert_eq!(
        db::publish_workspace_public_at(&mut state, &project(9), "u1", 40),
        Err(Error::NotRegistered)
    );
}

#[test]
fn publishing_a_second_workspace_demotes_the_first() {
    let mut state = registered(42, "Box");
    let p = project(42);
    db::add_workspace_with(&mut state, &p, 3, String::from("uuid1"), 10).unwrap();
    db::publish_workspace_private_at(&mut state, &p, "uuid1", 20).unwrap();
    db::publish_workspace_public_at(&mut state, &p, "uuid1", 30).unwrap();
    db::add_workspace_with(&mut state, &p, 3, String::from("uuid2"), 40).unwrap();
    db::publish_workspace_private_at(&mut state, &p, "uuid2", 50).unwrap();
    db::publish_workspace_public_at(&mut state, &p, "uuid2", 60).unwrap();
    assert_eq!(status_of(&state, "uuid1"), WorkspaceStatus::Finished);
    assert_eq!(status_of(&state, "uuid2"), WorkspaceStatus::Published);
    assert_eq!(state.workspaces()[0].publication_time, None);
    assert_eq!(state.workspaces()[0].finish_time, Some(20));
    assert_eq!(state.workspaces()[1].publication_time, Some(60));
    assert_eq!(
        db::get_published(&state, TechniqueType::DENOISER),
        vec![(42, String::from("uuid2"))]
    );
    assert_eq!(db::get_published(&state, TechniqueType::SAMPLER), vec![]);
}

#[test]
fn publish_then_unpublish_gives_the_workspace_back() {
    let mut state = registered(42, "Box");
    let p = project(42);
    db::add_workspace_with(&mut state, &p, 3, String::from("u1"), 10).unwrap();
    db::publish_workspace_private_at(&mut state, &p, "u1", 20).unwrap();
    db::publish_workspace_public_at(&mut state, &p, "u1", 30).unwrap();
    assert_eq!(
        db::unpublish_workspace(&mut state, 42),
        Ok((TechniqueType::DENOISER, String::from("u1")))
    );
    let w = &state.workspaces()[0];
    assert_eq!(w.status, WorkspaceStatus::Finished);
    assert_eq!(w.publication_time, None);
    assert_eq!(w.finish_time, Some(20));
    assert_eq!(db::unpublish_workspace(&mut state, 42), Err(Error::Unspecified));
    assert_eq!(db::unpublish_workspace(&mut state, 1), Err(Error::NotRegistered));
}

#[test]
fn publish_private_finishes_a_workspace() {
    let mut state = registered(42, "Box");
    let p = project(42);
    db::add_workspace_with(&mut state, &p, 3, String::from("u1"), 10).unwrap();
    assert_eq!(db::publish_workspace_private_at(&mut state, &p, "u1", 20), Ok(()));
    assert_eq!(state.workspaces()[0].finish_time, Some(20));
    assert_eq!(db::publish_workspace_private_at(&mut state, &p, "u1", 25), Ok(()));
    assert_eq!(state.workspaces()[0].status, WorkspaceStatus::Finished);
    assert_eq!(state.workspaces()[0].finish_time, Some(25));
    assert_eq!(
        db::publish_workspace_private_at(&mut state, &p, "u2", 20),
        Err(Error::Unspecified)
    );
    assert_eq!(
        db::publish_workspace_private_at(&mut state, &project(1), "u1", 20),
        Err(Error::NotRegistered)
    );
    db::publish_workspace_public_at(&mut state, &p, "u1", 30).unwrap();
    assert_eq!(
        db::publish_workspace_private_at(&mut state, &p, "u1", 40),
        Err(Error::Unspecified)
    );
}

#[test]
fn the_clock_stamps_the_transitions() {
    let mut state = registered(42, "Box");
    let p = project(42);
    let uuid = db::add_workspace(&mut state, &p, 3).unwrap();
    assert_eq!(db::publish_workspace_private(&mut state, &p, &uuid), Ok(()));
    let finished = state.workspaces()[0].finish_time.unwrap();
    assert!(finished > 1_500_000_000);
    assert_eq!(db::publish_workspace_public(&mut state, &p, &uuid), Ok(()));
    assert!(state.workspaces()[0].publication_time.unwrap() >= finished);
    assert_eq!(db::get_unpub_older_than(&state, TechniqueType::DENOISER, 1), vec![]);
}

#[test]
fn remove_workspace_reports_what_is_missing() {
    let mut state = registered(42, "Box");
    assert_eq!(db::remove_workspace(&mut state, 1, "u1"), Err(Error::NotRegistered));
    assert_eq!(db::remove_workspace(&mut state, 42, "u1"), Err(Error::Unspecified));
}

#[test]
fn unpublished_workspaces_are_the_finished_ones() {
    let mut state = registered(42, "Box");
    let p = project(42);
    db::add_workspace_with(&mut state, &p, 5, String::from("u1"), 10).unwrap();
    db::add_workspace_with(&mut state, &p, 5, String::from("u2"), 10).unwrap();
    db::add_workspace_with(&mut state, &p, 5, String::from("u3"), 10).unwrap();
    db::publish_workspace_private_at(&mut state, &p, "u2", 20).unwrap();
    db::publish_workspace_private_at(&mut state, &p, "u3", 20).unwrap();
    db::publish_workspace_public_at(&mut state, &p, "u3", 30).unwrap();
    assert_eq!(db::get_unpublished(&state, 42), Ok(vec![String::from("u2")]));
    assert_eq!(db::get_unpublished(&state, 1), Err(Error::Unspecified));
}

#[test]
fn old_workspaces_are_found_to_the_second() {
    let mut state = registered(42, "Box");
    let p = project(42);
    db::add_workspace_with(&mut state, &p, 5, String::from("u1"), 0).unwrap();
    db::publish_workspace_private_at(&mut state, &p, "u1", 1000).unwrap();
    let day = 86400;
    assert_eq!(
        db::get_unpub_older_than_at(&state, TechniqueType::DENOISER, 2, 1000 + 2 * day - 1),
        vec![]
    );
    assert_eq!(
        db::get_unpub_older_than_at(&state, TechniqueType::DENOISER, 2, 1000 + 2 * day),
        vec![(42, String::from("u1"))]
    );
    assert_eq!(
        db::get_unpub_older_than_at(&state, TechniqueType::SAMPLER, 2, 1000 + 2 * day),
        vec![]
    );
}

#[test]
fn db_test_limit() {
    let state = Database::new();
    let list = db::get_unpub_older_than(&state, TechniqueType::DENOISER, 2);
    assert_eq!(list.len(), 0)
}

#[test]
fn registry_db_test_limit() {
    let state = registered(12, "jhosidf");
    let list = db::get_unpub_older_than(&state, TechniqueType::DENOISER, 2);
    assert_eq!(list.len(), 0)
}

fn technique(id: i32, name: &str) -> Technique {
    Technique {
        id,
        technique_type: TechniqueType::DENOISER,
        short_name: String::from(name),
        full_name: String::new(),
        citation: String::new(),
        comment: String::new(),
    }
}

fn workspace(id: i32, uuid: &str, status: WorkspaceStatus) -> Workspace {
    Workspace {
        technique_id: id,
        uuid: String::from(uuid),
        commit_sha: String::new(),
        docker_image: String::new(),
        status,
        creation_time: 1,
        finish_time: if status == WorkspaceStatus::New { None } else { Some(2) },
        publication_time: if status == WorkspaceStatus::Published { Some(3) } else { None },
    }
}

fn ids() -> NextIds {
    NextIds { priority: 1, normal: 1, message: 1 }
}

#[test]
fn a_stored_state_is_loaded_only_if_it_is_sound() {
    let good = Database::load(
        vec![technique(1, "a"), technique(2, "b")],
        vec![
            workspace(1, "u1", WorkspaceStatus::Published),
            workspace(1, "u2", WorkspaceStatus::Finished),
            workspace(2, "u3", WorkspaceStatus::New),
        ],
        vec![],
        vec![],
        vec![],
        ids(),
    );
    assert!(good.is_some());
    assert_eq!(good.unwrap().count_unpublished(1), 1);

    let two_published = Database::load(
        vec![technique(1, "a")],
        vec![
            workspace(1, "u1", WorkspaceStatus::Published),
            workspace(1, "u2", WorkspaceStatus::Published),
        ],
        vec![],
        vec![],
        vec![],
        ids(),
    );
    assert!(two_published.is_none());

    let same_name = Database::load(
        vec![technique(1, "a"), technique(2, "a")],
        vec![],
        vec![],
        vec![],
        vec![],
        ids(),
    );
    assert!(same_name.is_none());

    let same_id = Database::load(
        vec![technique(1, "a"), technique(1, "b")],
        vec![],
        vec![],
        vec![],
        vec![],
        ids(),
    );
    assert!(same_id.is_none());

    let orphan = Database::load(
        vec![technique(1, "a")],
        vec![workspace(2, "u1", WorkspaceStatus::New)],
        vec![],
        vec![],
        vec![],
        ids(),
    );
    assert!(orphan.is_none());

    let same_uuid = Database::load(
        vec![technique(1, "a")],
        vec![
            workspace(1, "u1", WorkspaceStatus::New),
            workspace(1, "u1", WorkspaceStatus::Finished),
        ],
        vec![],
        vec![],
        vec![],
        ids(),
    );
    assert!(same_uuid.is_none());

    let mut timeless = workspace(1, "u1", WorkspaceStatus::Finished);
    timeless.finish_time = None;
    let bad_times =
        Database::load(vec![technique(1, "a")], vec![timeless], vec![], vec![], vec![], ids());
    assert!(bad_times.is_none());
}

#[test]
fn technique_groups_are_stored_as_numbers() {
    assert_eq!(TechniqueType::DENOISER.code(), 0);
    assert_eq!(TechniqueType::SAMPLER.code(), 1);
    assert_eq!(TechniqueType::from_code(0), TechniqueType::DENOISER);
    assert_eq!(TechniqueType::from_code(1), TechniqueType::SAMPLER);
    assert_eq!(TechniqueType::from_code(7), TechniqueType::SAMPLER);
    assert_eq!(WorkspaceStatus::from_code(2), Some(WorkspaceStatus::Published));
    assert_eq!(WorkspaceStatus::from_code(3), None);
    assert_eq!(WorkspaceStatus::Finished.code(), 1);
    assert_eq!(TechniqueType::DENOISER.as_str(), "denoisers");
    assert_eq!(TechniqueType::SAMPLER.as_str(), "samplers");
    assert_eq!(TechniqueType::SAMPLER.opposite(), TechniqueType::DENOISER);
}

#[test]
fn errors_have_their_texts() {
    assert_eq!(Error::NameAlreadyExists.message(), "technique with the same name already exists");
    assert_eq!(Error::NotRegistered.message(), "no technique with the given id was found");
    assert_eq!(Error::InvalidInfoFile.message(), "invalid info.json file");
    assert_eq!(Error::AlreadyPublished.message(), "technique is already published");
    assert_eq!(Error::MaxWorkspacesExceeded.message(), "maximum number of workspaces exceeded");
    assert_eq!(Error::Unspecified.message(), "unspecified error");
    assert!(Error::NotRegistered.is_domain());
    assert!(!Error::Unspecified.is_domain());
}
