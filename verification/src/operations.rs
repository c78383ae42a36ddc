//! The operations that the server offers: each one changes the registry and plans the
//! steps that follow on the file system.

use crate::actions::{action_views, append_steps, move_path, move_step, Action, ActionView};
use crate::ci::{ProjectInfo, ProjectInfoView};
use crate::db;
use crate::db::Database;
use crate::error::Error;
use crate::info::TechniqueType;
use crate::invariants::{lemma_remove_workspace};
use crate::model::{group_of, DatabaseView};
use crate::page::ints;
use crate::paths::{
    contents, contents_of, join, joined, page_data_path, private_page_path, public_page_path,
    spec_page_data_path, spec_private_page_path, spec_public_page_path,
    spec_tech_workspace_path, spec_tmp_install_path, spec_tmp_results_path,
    tech_published_wp_path, tech_results_path, tech_workspace_path,
    tmp_install_path, tmp_results_path, Environment,
};
use crate::publishing::{
    copy_public_page, export_technique_images, image_step, permission_step, private_page_steps,
    set_public_page_permissions,
};
use crate::staging::{
    create_tmp_technique_workspace, save_technique_steps, save_technique_tmp_workspace,
    tmp_technique_workspace, Published, PublishedView,
};
use crate::text::texts;
use crate::workspace as wp;
use crate::wrappers::{fresh_uuid, unix_now};
use vstd::prelude::*;
use vstd::string::*;

verus! {

/// The steps that follow a new workspace: the state is stored; the results directory
/// of the workspace is made; the binaries that the run left in the scratch workspace
/// become the binaries of the workspace; and each entry of the technique's results in
/// the scratch workspace moves to the results of the workspace.
#[verifier::opaque]
pub open spec fn save_results_steps(
    root: Seq<char>,
    group: TechniqueType,
    id: int,
    uuid: Seq<char>,
    short_name: Seq<char>,
) -> Seq<ActionView> {
    let base = spec_tech_workspace_path(root, group, id, uuid);
    seq![
        ActionView::Commit,
        ActionView::CreateDirAll(joined(base, "results"@)),
        move_step(spec_tmp_install_path(root, group, id), joined(base, "install"@)),
        ActionView::MoveEach {
            pattern: joined(spec_tmp_results_path(root, group, short_name), "*"@),
            dest: contents_of(joined(base, "results"@)),
        },
    ]
}

/// What saving the results of a run comes to: the outcome of adding a workspace, and
/// on success its uuid with the steps that follow.
pub open spec fn saved(
    v: DatabaseView,
    root: Seq<char>,
    proj: ProjectInfoView,
    short_name: Seq<char>,
    max: int,
    uuid: Seq<char>,
    now: int,
) -> Result<(Seq<char>, Seq<ActionView>), Error> {
    match v.add_workspace(proj, max, uuid, now).1 {
        Err(e) => Err(e),
        Ok(u) => Ok(
            (
                u,
                save_results_steps(
                    root,
                    group_of(v.techniques, proj.id)->0,
                    proj.id,
                    u,
                    short_name,
                ),
            ),
        ),
    }
}

/// The content of a uuid with steps.
pub open spec fn saved_view(r: Result<(String, Vec<Action>), Error>) -> Result<
    (Seq<char>, Seq<ActionView>),
    Error,
> {
    match r {
        Ok(p) => Ok((p.0@, action_views(p.1@))),
        Err(e) => Err(e),
    }
}

/// The content of steps.
pub open spec fn steps_view(r: Result<Vec<Action>, Error>) -> Result<Seq<ActionView>, Error> {
    match r {
        Ok(steps) => Ok(action_views(steps@)),
        Err(e) => Err(e),
    }
}

/// Saves the results of a technique, as a run left them in the scratch workspace, into
/// a new workspace under the given uuid, created at `now`. `short_name` is the name of
/// the technique in the scratch workspace. Gives the uuid and the steps to take.
///
/// Fails as `db::add_workspace_with` does, and then changes nothing.
pub fn save_results_with(
    db: &mut Database,
    root: &str,
    proj: &ProjectInfo,
    short_name: &str,
    max_workspaces: i32,
    uuid: String,
    now: i64,
) -> (r: Result<(String, Vec<Action>), Error>)
    requires
        old(db).wf(),
    ensures
        final(db).wf(),
        final(db)@ == old(db)@.add_workspace(proj@, max_workspaces as int, uuid@, now as int).0,
        saved_view(r) == saved(
            old(db)@,
            root@,
            proj@,
            short_name@,
            max_workspaces as int,
            uuid@,
            now as int,
        ),
{
    let group = match db::technique_type(db, proj.id) {
        Ok(group) => group,
        Err(e) => {
            proof {
                crate::invariants::lemma_add_workspace(
                    db@,
                    proj@,
                    max_workspaces as int,
                    uuid@,
                    now as int,
                );
            }
            return Err(e);
        },
    };
    let uuid = match db::add_workspace_with(db, proj, max_workspaces, uuid, now) {
        Ok(uuid) => uuid,
        Err(e) => {
            return Err(e);
        },
    };
    proof {
        reveal(save_results_steps);
    }
    let base = tech_workspace_path(root, group, proj.id, uuid.as_str());
    let results = join(base.as_str(), "results");
    let mut steps: Vec<Action> = Vec::new();
    steps.push(Action::Commit);
    steps.push(Action::CreateDirAll(results.clone()));
    steps.push(
        move_path(
            tmp_install_path(root, group, proj.id).as_str(),
            join(base.as_str(), "install").as_str(),
        ),
    );
    steps.push(
        Action::MoveEach {
            pattern: join(tmp_results_path(root, group, short_name).as_str(), "*"),
            dest: contents(results.as_str()),
        },
    );
    assert(action_views(steps@) =~= save_results_steps(
        root@,
        group,
        proj.id as int,
        uuid@,
        short_name@,
    ));
    Ok((uuid, steps))
}

/// Saves the results of a technique into a new workspace under a freshly minted uuid,
/// created now.
///
/// The outcome is that of `save_results_with` for the uuid that was minted and the
/// time that the clock gave.
pub fn save_results(
    db: &mut Database,
    root: &str,
    proj: &ProjectInfo,
    short_name: &str,
    max_workspaces: i32,
) -> (r: Result<(String, Vec<Action>), Error>)
    requires
        old(db).wf(),
    ensures
        final(db).wf(),
        exists|uuid: Seq<char>, now: int|
            {
                &&& crate::text::is_v4_uuid(uuid)
                &&& final(db)@ == (#[trigger] old(db)@.add_workspace(
                    proj@,
                    max_workspaces as int,
                    uuid,
                    now,
                )).0
                &&& saved_view(r) == saved(
                    old(db)@,
                    root@,
                    proj@,
                    short_name@,
                    max_workspaces as int,
                    uuid,
                    now,
                )
            },
{
    let uuid = fresh_uuid();
    let now = unix_now();
    let ghost minted = uuid@;
    let r = save_results_with(db, root, proj, short_name, max_workspaces, uuid, now);
    assert(db@ == old(db)@.add_workspace(proj@, max_workspaces as int, minted, now as int).0);
    r
}

/// The steps that follow the copy of the public page when a workspace is published
/// privately: the data files of the private page are written with the workspace
/// loaded; the images of the workspace are copied to the page; the state is stored;
/// and the public page is handed to the web server.
#[verifier::opaque]
pub open spec fn private_tail(
    root: Seq<char>,
    user: Seq<char>,
    owner_group: Seq<char>,
    group: TechniqueType,
    id: int,
    uuid: Seq<char>,
    short_name: Seq<char>,
) -> Seq<ActionView> {
    let private = spec_private_page_path(root, uuid);
    seq![
        ActionView::ExportPage { page: private, workspace: Some((group, id, uuid)) },
        image_step(
            joined(spec_tech_workspace_path(root, group, id, uuid), "results"@),
            spec_page_data_path(private, group, short_name),
            false,
        ),
        ActionView::Commit,
        permission_step(user, owner_group, root),
    ]
}

/// What publishing a workspace privately comes to: `NotRegistered` where the technique
/// is unknown; `Unspecified` where the private page cannot be planned; else the outcome
/// of the registry, and on success the steps: the copy of the public page, then the
/// rest.
pub open spec fn published_privately(
    v: DatabaseView,
    root: Seq<char>,
    user: Seq<char>,
    owner_group: Seq<char>,
    proj: ProjectInfoView,
    uuid: Seq<char>,
    short_name: Seq<char>,
    page_exists: bool,
    names: Seq<Seq<char>>,
    now: int,
) -> Result<Seq<ActionView>, Error> {
    match group_of(v.techniques, proj.id) {
        None => Err(Error::NotRegistered),
        Some(group) => match private_page_steps(
            root,
            spec_private_page_path(root, uuid),
            page_exists,
            group,
            short_name,
            names,
        ) {
            None => Err(Error::Unspecified),
            Some(copy) => match v.publish_workspace_private(proj, uuid, now).1 {
                Err(e) => Err(e),
                Ok(_) => Ok(
                    copy + private_tail(root, user, owner_group, group, proj.id, uuid, short_name),
                ),
            },
        },
    }
}

/// Publishes a workspace to its private page at `now`. `short_name` is the name under
/// which the technique was installed in the workspace, `page_exists` says whether the
/// private page is there already, and `names` are the techniques of the same group
/// that the public page holds. The registry changes on success only.
pub fn publish_private_at(
    db: &mut Database,
    env: &Environment,
    proj: &ProjectInfo,
    uuid: &str,
    short_name: &str,
    page_exists: bool,
    names: &Vec<String>,
    now: i64,
) -> (r: Result<Vec<Action>, Error>)
    requires
        old(db).wf(),
    ensures
        final(db).wf(),
        steps_view(r) == published_privately(
            old(db)@,
            env.data_root@,
            env.www_user@,
            env.www_group@,
            proj@,
            uuid@,
            short_name@,
            page_exists,
            texts(names@),
            now as int,
        ),
        final(db)@ == if r is Ok {
            old(db)@.publish_workspace_private(proj@, uuid@, now as int).0
        } else {
            old(db)@
        },
{
    let root = env.data_root.as_str();
    let group = match db::technique_type(db, proj.id) {
        Ok(group) => group,
        Err(_) => {
            return Err(Error::NotRegistered);
        },
    };
    let private = private_page_path(root, uuid);
    let mut steps = match copy_public_page(
        root,
        private.as_str(),
        page_exists,
        group,
        short_name,
        names,
    ) {
        Some(steps) => steps,
        None => {
            return Err(Error::Unspecified);
        },
    };
    proof {
        crate::invariants::lemma_publish_workspace_private(db@, proj@, uuid@, now as int);
    }
    match db::publish_workspace_private_at(db, proj, uuid, now) {
        Ok(()) => {},
        Err(e) => {
            return Err(e);
        },
    }
    let mut tail: Vec<Action> = Vec::new();
    tail.push(
        Action::ExportPage {
            page: private.clone(),
            workspace: Some((group, proj.id, String::from_str(uuid))),
        },
    );
    tail.push(
        export_technique_images(
            tech_results_path(root, group, proj.id, uuid).as_str(),
            page_data_path(private.as_str(), group, short_name).as_str(),
            false,
        ),
    );
    tail.push(Action::Commit);
    tail.push(set_public_page_permissions(env));
    proof {
        reveal(private_tail);
    }
    assert(action_views(tail@) =~= private_tail(
        root@,
        env.www_user@,
        env.www_group@,
        group,
        proj.id as int,
        uuid@,
        short_name@,
    ));
    append_steps(&mut steps, tail);
    Ok(steps)
}

/// Publishes a workspace to its private page now.
///
/// The outcome is that of `publish_private_at` for the time that the clock gave.
pub fn publish_private(
    db: &mut Database,
    env: &Environment,
    proj: &ProjectInfo,
    uuid: &str,
    short_name: &str,
    page_exists: bool,
    names: &Vec<String>,
) -> (r: Result<Vec<Action>, Error>)
    requires
        old(db).wf(),
    ensures
        final(db).wf(),
        exists|now: int|
            {
                &&& steps_view(r) == #[trigger] published_privately(
                    old(db)@,
                    env.data_root@,
                    env.www_user@,
                    env.www_group@,
                    proj@,
                    uuid@,
                    short_name@,
                    page_exists,
                    texts(names@),
                    now,
                )
                &&& final(db)@ == if r is Ok {
                    old(db)@.publish_workspace_private(proj@, uuid@, now).0
                } else {
                    old(db)@
                }
            },
{
    let now = unix_now();
    let r = publish_private_at(db, env, proj, uuid, short_name, page_exists, names, now);
    assert(steps_view(r) == published_privately(
        old(db)@,
        env.data_root@,
        env.www_user@,
        env.www_group@,
        proj@,
        uuid@,
        short_name@,
        page_exists,
        texts(names@),
        now as int,
    ));
    r
}

/// The steps that follow a public publication: the state is stored; the data files of
/// the public page are written with the workspace loaded; the link `published` of the
/// technique is made to lead to the workspace; the results that the public page held of
/// the technique give way to those of the private page; and the private page goes.
#[verifier::opaque]
pub open spec fn public_steps(
    root: Seq<char>,
    group: TechniqueType,
    id: int,
    uuid: Seq<char>,
    short_name: Seq<char>,
) -> Seq<ActionView> {
    let public = spec_public_page_path(root);
    let private = spec_private_page_path(root, uuid);
    seq![
        ActionView::Commit,
        ActionView::ExportPage { page: public, workspace: Some((group, id, uuid)) },
        ActionView::ReplaceLink {
            target: uuid,
            link: spec_tech_workspace_path(root, group, id, "published"@),
        },
        ActionView::RemoveDirAllIfPresent(spec_page_data_path(public, group, short_name)),
        move_step(
            spec_page_data_path(private, group, short_name),
            spec_page_data_path(public, group, short_name),
        ),
        ActionView::RemoveDirAll(private),
    ]
}

/// Whether a step makes or removes a link or a file.
pub open spec fn touches_a_link(step: ActionView) -> bool {
    step is Symlink || step is ReplaceLink || step is RemoveFile
}

/// After a public publication the link `published` of the technique leads to the
/// published workspace: the steps set that link to the uuid, and no other step of
/// theirs makes or removes a link.
pub proof fn lemma_published_link(
    root: Seq<char>,
    group: TechniqueType,
    id: int,
    uuid: Seq<char>,
    short_name: Seq<char>,
)
    ensures
        public_steps(root, group, id, uuid, short_name).len() == 6,
        public_steps(root, group, id, uuid, short_name)[2] == (ActionView::ReplaceLink {
            target: uuid,
            link: spec_tech_workspace_path(root, group, id, "published"@),
        }),
        forall|k: int|
            0 <= k < 6 && k != 2 ==> !touches_a_link(
                #[trigger] public_steps(root, group, id, uuid, short_name)[k],
            ),
{
    reveal(public_steps);
}

/// What publishing a workspace on the public page comes to: the outcome of the
/// registry, and on success the steps that follow.
pub open spec fn published_publicly(
    v: DatabaseView,
    root: Seq<char>,
    proj: ProjectInfoView,
    uuid: Seq<char>,
    short_name: Seq<char>,
    now: int,
) -> Result<Seq<ActionView>, Error> {
    match v.publish_workspace_public(proj, uuid, now).1 {
        Err(e) => Err(e),
        Ok(_) => Ok(
            public_steps(root, group_of(v.techniques, proj.id)->0, proj.id, uuid, short_name),
        ),
    }
}

/// Publishes a finished workspace on the public page at `now`. The registry changes
/// first; the steps then bring the page and the `published` link in line with it.
/// `short_name` is the name under which the technique was installed in the workspace.
pub fn publish_public_at(
    db: &mut Database,
    root: &str,
    proj: &ProjectInfo,
    uuid: &str,
    short_name: &str,
    now: i64,
) -> (r: Result<Vec<Action>, Error>)
    requires
        old(db).wf(),
    ensures
        final(db).wf(),
        final(db)@ == old(db)@.publish_workspace_public(proj@, uuid@, now as int).0,
        steps_view(r) == published_publicly(old(db)@, root@, proj@, uuid@, short_name@, now as int),
{
    let found = db::technique_type(db, proj.id);
    match db::publish_workspace_public_at(db, proj, uuid, now) {
        Ok(()) => {},
        Err(e) => {
            return Err(e);
        },
    }
    let group = match found {
        Ok(group) => group,
        Err(_) => {
            return Err(Error::NotRegistered);
        },
    };
    proof {
        reveal(public_steps);
    }
    let public = public_page_path(root);
    let private = private_page_path(root, uuid);
    let dest = page_data_path(public.as_str(), group, short_name);
    let mut steps: Vec<Action> = Vec::new();
    steps.push(Action::Commit);
    steps.push(
        Action::ExportPage {
            page: public,
            workspace: Some((group, proj.id, String::from_str(uuid))),
        },
    );
    steps.push(
        Action::ReplaceLink {
            target: String::from_str(uuid),
            link: tech_published_wp_path(root, group, proj.id),
        },
    );
    steps.push(Action::RemoveDirAllIfPresent(dest.clone()));
    steps.push(
        move_path(page_data_path(private.as_str(), group, short_name).as_str(), dest.as_str()),
    );
    steps.push(Action::RemoveDirAll(private));
    assert(action_views(steps@) =~= public_steps(
        root@,
        group,
        proj.id as int,
        uuid@,
        short_name@,
    ));
    Ok(steps)
}

/// Publishes a finished workspace on the public page now.
///
/// The outcome is that of `publish_public_at` for the time that the clock gave.
pub fn publish_public(
    db: &mut Database,
    root: &str,
    proj: &ProjectInfo,
    uuid: &str,
    short_name: &str,
) -> (r: Result<Vec<Action>, Error>)
    requires
        old(db).wf(),
    ensures
        final(db).wf(),
        exists|now: int|
            {
                &&& final(db)@ == (#[trigger] old(db)@.publish_workspace_public(
                    proj@,
                    uuid@,
                    now,
                )).0
                &&& steps_view(r) == published_publicly(
                    old(db)@,
                    root@,
                    proj@,
                    uuid@,
                    short_name@,
                    now,
                )
            },
{
    let now = unix_now();
    let r = publish_public_at(db, root, proj, uuid, short_name, now);
    assert(db@ == old(db)@.publish_workspace_public(proj@, uuid@, now as int).0);
    r
}

/// The steps that follow the removal of a workspace from the registry: the state is
/// stored, and the workspace and its private page go.
#[verifier::opaque]
pub open spec fn delete_steps(root: Seq<char>, group: TechniqueType, id: int, uuid: Seq<char>)
    -> Seq<ActionView> {
    seq![
        ActionView::Commit,
        ActionView::RemoveDirAll(spec_tech_workspace_path(root, group, id, uuid)),
        ActionView::RemoveDirAll(spec_private_page_path(root, uuid)),
    ]
}

/// What deleting a workspace comes to: the outcome of the registry, and on success the
/// steps that follow.
pub open spec fn deleted(v: DatabaseView, root: Seq<char>, id: int, uuid: Seq<char>) -> Result<
    Seq<ActionView>,
    Error,
> {
    match v.remove_workspace(id, uuid).1 {
        Err(e) => Err(e),
        Ok(_) => Ok(delete_steps(root, group_of(v.techniques, id)->0, id, uuid)),
    }
}

/// Deletes a workspace of the technique, with its private page.
pub fn delete_unpublished_workspace(db: &mut Database, root: &str, id: i32, uuid: &str) -> (r:
    Result<Vec<Action>, Error>)
    requires
        old(db).wf(),
    ensures
        final(db).wf(),
        final(db)@ == old(db)@.remove_workspace(id as int, uuid@).0,
        steps_view(r) == deleted(old(db)@, root@, id as int, uuid@),
{
    let found = db::technique_type(db, id);
    match db::remove_workspace(db, id, uuid) {
        Ok(()) => {},
        Err(e) => {
            return Err(e);
        },
    }
    let group = match found {
        Ok(group) => group,
        Err(_) => {
            return Err(Error::NotRegistered);
        },
    };
    proof {
        reveal(delete_steps);
    }
    let mut steps: Vec<Action> = Vec::new();
    steps.push(Action::Commit);
    steps.push(Action::RemoveDirAll(tech_workspace_path(root, group, id, uuid)));
    steps.push(Action::RemoveDirAll(private_page_path(root, uuid)));
    assert(action_views(steps@) =~= delete_steps(root@, group, id as int, uuid@));
    Ok(steps)
}

/// Whether a technique may run: it holds fewer finished workspaces than the system
/// allows. `Unspecified` where the technique is unknown.
pub open spec fn may_run(v: DatabaseView, id: int, max: int) -> Result<bool, Error> {
    match v.get_unpublished(id) {
        Ok(uuids) => Ok(uuids.len() < max),
        Err(e) => Err(e),
    }
}

/// Whether the technique is allowed to run a benchmark.
pub fn can_run(db: &Database, info: &ProjectInfo, max_workspaces: i32) -> (r: Result<bool, Error>)
    ensures
        r == may_run(db@, info.id as int, max_workspaces as int),
{
    match db::get_unpublished(db, info.id) {
        Ok(uuids) => {
            assert(uuids@.len() == crate::db::text_views(uuids@).len());
            Ok(max_workspaces >= 0 && uuids.len() < max_workspaces as usize)
        },
        Err(e) => Err(e),
    }
}

/// The steps that set up the scratch workspace for the missing scenes of a workspace;
/// `NotRegistered` where the technique is unknown, `Unspecified` where the scratch
/// workspace cannot be laid out.
pub open spec fn missing_scenes_workspace(
    v: DatabaseView,
    root: Seq<char>,
    proj: ProjectInfoView,
    uuid: Seq<char>,
    tech: wp::TechniqueView,
    corpus: Seq<wp::RendererView>,
    spps: Seq<int>,
) -> Result<(bool, Seq<ActionView>), Error> {
    match group_of(v.techniques, proj.id) {
        None => Err(Error::NotRegistered),
        Some(group) => match tmp_technique_workspace(
            root,
            group,
            proj.id,
            uuid,
            tech,
            corpus,
            spps,
        ) {
            Ok(p) => Ok(p),
            Err(_) => Err(Error::Unspecified),
        },
    }
}

/// The content of an answer with steps.
pub open spec fn answer_view(r: Result<(bool, Vec<Action>), Error>) -> Result<
    (bool, Seq<ActionView>),
    Error,
> {
    match r {
        Ok(p) => Ok((p.0, action_views(p.1@))),
        Err(e) => Err(e),
    }
}

/// Creates a scratch workspace for a workspace of a technique, with the scenes of the
/// corpus that it has no results for yet. Gives `true` where there is such a scene.
/// `tech` is the technique as it was read from the workspace, with its results.
pub fn init_missing_scenes_workspace(
    db: &Database,
    root: &str,
    proj: &ProjectInfo,
    uuid: &str,
    tech: &wp::Technique,
    corpus: &Vec<wp::Renderer>,
    spps: &[i32],
) -> (r: Result<(bool, Vec<Action>), Error>)
    ensures
        answer_view(r) == missing_scenes_workspace(
            db@,
            root@,
            proj@,
            uuid@,
            tech@,
            wp::renderer_views(corpus@),
            ints(spps@),
        ),
{
    let group = match db::technique_type(db, proj.id) {
        Ok(group) => group,
        Err(_) => {
            return Err(Error::NotRegistered);
        },
    };
    match create_tmp_technique_workspace(root, group, proj.id, uuid, tech, corpus, spps) {
        Ok(p) => Ok(p),
        Err(_) => Err(Error::Unspecified),
    }
}

/// The steps that bring the results of the scratch workspace to a workspace and its
/// private page: the results are copied beside those that are there; the images are
/// copied to the page, again beside those that are there; and the public page is
/// handed to the web server.
pub open spec fn update_steps(
    root: Seq<char>,
    user: Seq<char>,
    owner_group: Seq<char>,
    group: TechniqueType,
    id: int,
    uuid: Seq<char>,
    tmp_name: Seq<char>,
    short_name: Seq<char>,
) -> Seq<ActionView> {
    save_technique_steps(
        root,
        PublishedView { group, id, uuid, short_name: tmp_name },
        false,
        false,
    ) + seq![
        image_step(
            joined(spec_tech_workspace_path(root, group, id, uuid), "results"@),
            spec_page_data_path(spec_private_page_path(root, uuid), group, short_name),
            true,
        ),
        permission_step(user, owner_group, root),
    ]
}

/// What updating the results of a workspace comes to; `NotRegistered` where the
/// technique is unknown.
pub open spec fn updated(
    v: DatabaseView,
    root: Seq<char>,
    user: Seq<char>,
    owner_group: Seq<char>,
    id: int,
    uuid: Seq<char>,
    tmp_name: Seq<char>,
    short_name: Seq<char>,
) -> Result<Seq<ActionView>, Error> {
    match group_of(v.techniques, id) {
        None => Err(Error::NotRegistered),
        Some(group) => Ok(
            update_steps(root, user, owner_group, group, id, uuid, tmp_name, short_name),
        ),
    }
}

/// Updates a workspace and its private page with the results that a run left in the
/// scratch workspace. Results and images that are there already stay as they are.
/// `tmp_name` is the name of the technique in the scratch workspace, `short_name` the
/// one under which it was installed in the workspace.
pub fn update_results(
    db: &Database,
    env: &Environment,
    proj: &ProjectInfo,
    uuid: &str,
    tmp_name: &str,
    short_name: &str,
) -> (r: Result<Vec<Action>, Error>)
    ensures
        steps_view(r) == updated(
            db@,
            env.data_root@,
            env.www_user@,
            env.www_group@,
            proj.id as int,
            uuid@,
            tmp_name@,
            short_name@,
        ),
{
    let root = env.data_root.as_str();
    let group = match db::technique_type(db, proj.id) {
        Ok(group) => group,
        Err(_) => {
            return Err(Error::NotRegistered);
        },
    };
    let staged = Published {
        group,
        id: proj.id,
        uuid: String::from_str(uuid),
        short_name: String::from_str(tmp_name),
    };
    let mut steps = save_technique_tmp_workspace(root, &staged, false, false);
    let ghost head = action_views(steps@);
    let images = export_technique_images(
        tech_results_path(root, group, proj.id, uuid).as_str(),
        page_data_path(private_page_path(root, uuid).as_str(), group, short_name).as_str(),
        true,
    );
    let own = set_public_page_permissions(env);
    steps.push(images);
    steps.push(own);
    assert(action_views(steps@) =~= head + seq![images@, own@]);
    Ok(steps)
}

/// The state after each of the workspaces named by `keys` was removed, one after the
/// other.
pub open spec fn remove_all(v: DatabaseView, keys: Seq<(int, Seq<char>)>) -> DatabaseView
    decreases keys.len(),
{
    if keys.len() == 0 {
        v
    } else {
        remove_all(v, keys.drop_last()).remove_workspace(keys.last().0, keys.last().1).0
    }
}

/// The steps that remove the files of one workspace: the workspace, then its private
/// page.
#[verifier::opaque]
pub open spec fn trim_one(root: Seq<char>, group: TechniqueType, key: (int, Seq<char>)) -> Seq<
    ActionView,
> {
    seq![
        ActionView::RemoveDirAll(spec_tech_workspace_path(root, group, key.0, key.1)),
        ActionView::RemoveDirAll(spec_private_page_path(root, key.1)),
    ]
}

/// The steps that remove the files of the first `count` workspaces named by `keys`.
pub open spec fn trim_steps(
    root: Seq<char>,
    group: TechniqueType,
    keys: Seq<(int, Seq<char>)>,
    count: int,
) -> Seq<ActionView>
    decreases count,
{
    if count <= 0 {
        Seq::empty()
    } else {
        trim_steps(root, group, keys, count - 1) + trim_one(root, group, keys[count - 1])
    }
}

/// The workspaces of a group that are trimmed at `now`: those that have been finished
/// for at least `days` days.
pub open spec fn stale(v: DatabaseView, group: TechniqueType, days: int, now: int) -> Seq<
    (int, Seq<char>),
> {
    v.get_unpub_older_than(group, days, now)
}

/// The state after the stale workspaces of the denoisers were removed.
pub open spec fn trimmed_denoisers(v: DatabaseView, days: int, now: int) -> DatabaseView {
    remove_all(v, stale(v, TechniqueType::DENOISER, days, now))
}

/// The state after the stale workspaces of both groups were removed, the denoisers
/// first.
pub open spec fn trimmed(v: DatabaseView, days: int, now: int) -> DatabaseView {
    let half = trimmed_denoisers(v, days, now);
    remove_all(half, stale(half, TechniqueType::SAMPLER, days, now))
}

/// The steps of a trim: the files of the stale workspaces go, the denoisers first, and
/// the state is stored.
pub open spec fn trim_plan(v: DatabaseView, root: Seq<char>, days: int, now: int) -> Seq<
    ActionView,
> {
    let first = stale(v, TechniqueType::DENOISER, days, now);
    let half = trimmed_denoisers(v, days, now);
    let second = stale(half, TechniqueType::SAMPLER, days, now);
    trim_steps(root, TechniqueType::DENOISER, first, first.len() as int) + trim_steps(
        root,
        TechniqueType::SAMPLER,
        second,
        second.len() as int,
    ) + seq![ActionView::Commit]
}

/// Removing workspaces keeps the state well-formed.
pub proof fn lemma_remove_all(v: DatabaseView, keys: Seq<(int, Seq<char>)>)
    requires
        v.wf(),
    ensures
        remove_all(v, keys).wf(),
        remove_all(v, keys).techniques == v.techniques,
    decreases keys.len(),
{
    if keys.len() > 0 {
        lemma_remove_all(v, keys.drop_last());
        lemma_remove_workspace(remove_all(v, keys.drop_last()), keys.last().0, keys.last().1);
    }
}

fn trim_group(
    db: &mut Database,
    root: &str,
    group: TechniqueType,
    days_limit: i32,
    now: i64,
    steps: &mut Vec<Action>,
)
    requires
        old(db).wf(),
    ensures
        final(db).wf(),
        final(db)@ == remove_all(
            old(db)@,
            stale(old(db)@, group, days_limit as int, now as int),
        ),
        action_views(final(steps)@) == action_views(old(steps)@) + trim_steps(
            root@,
            group,
            stale(old(db)@, group, days_limit as int, now as int),
            stale(old(db)@, group, days_limit as int, now as int).len() as int,
        ),
{
    let keys = db::get_unpub_older_than_at(db, group, days_limit, now);
    let ghost all = db::key_views(keys@);
    let ghost given = action_views(steps@);
    let mut i: usize = 0;
    assert(all.take(0) =~= Seq::<(int, Seq<char>)>::empty());
    assert(action_views(steps@) =~= given + trim_steps(root@, group, all, 0));
    while i < keys.len()
        invariant
            i <= keys.len(),
            all == db::key_views(keys@),
            db.wf(),
            db@ == remove_all(old(db)@, all.take(i as int)),
            action_views(steps@) == given + trim_steps(root@, group, all, i as int),
        decreases keys.len() - i,
    {
        proof {
            assert(all.take(i + 1).drop_last() =~= all.take(i as int));
            assert(all.take(i + 1).last() == all[i as int]);
            assert(all[i as int] == (keys@[i as int].0 as int, keys@[i as int].1@));
        }
        let id = keys[i].0;
        let uuid = keys[i].1.as_str();
        let _ = db::remove_workspace(db, id, uuid);
        let ghost before = action_views(steps@);
        let ghost listed = trim_steps(root@, group, all, i as int);
        steps.push(Action::RemoveDirAll(tech_workspace_path(root, group, id, uuid)));
        steps.push(Action::RemoveDirAll(private_page_path(root, uuid)));
        proof {
            reveal(trim_one);
            assert(action_views(steps@) =~= before + trim_one(root@, group, all[i as int]));
            assert(action_views(steps@) =~= given + (listed + trim_one(
                root@,
                group,
                all[i as int],
            )));
        }
        i += 1;
    }
    assert(all.take(i as int) =~= all);
}

/// Deletes all finished workspaces that at `now` have been finished for at least
/// `days_limit` days: removes them from the registry and plans the removal of their
/// files.
pub fn trim_unpublished_at(db: &mut Database, root: &str, days_limit: i32, now: i64) -> (steps:
    Vec<Action>)
    requires
        old(db).wf(),
    ensures
        final(db).wf(),
        final(db)@ == trimmed(old(db)@, days_limit as int, now as int),
        action_views(steps@) == trim_plan(old(db)@, root@, days_limit as int, now as int),
{
    let mut steps: Vec<Action> = Vec::new();
    assert(action_views(steps@) =~= Seq::<ActionView>::empty());
    trim_group(db, root, TechniqueType::DENOISER, days_limit, now, &mut steps);
    let ghost first = action_views(steps@);
    trim_group(db, root, TechniqueType::SAMPLER, days_limit, now, &mut steps);
    let ghost both = action_views(steps@);
    steps.push(Action::Commit);
    assert(action_views(steps@) =~= both + seq![ActionView::Commit]);
    assert(first =~= trim_steps(
        root@,
        TechniqueType::DENOISER,
        stale(old(db)@, TechniqueType::DENOISER, days_limit as int, now as int),
        stale(old(db)@, TechniqueType::DENOISER, days_limit as int, now as int).len() as int,
    ));
    steps
}

/// Deletes all finished workspaces that are older than the given number of days.
///
/// The outcome is that of `trim_unpublished_at` for the time that the clock gave.
pub fn trim_unpublished(db: &mut Database, root: &str, days_limit: i32) -> (steps: Vec<Action>)
    requires
        old(db).wf(),
    ensures
        final(db).wf(),
        exists|now: int|
            {
                &&& final(db)@ == #[trigger] trimmed(old(db)@, days_limit as int, now)
                &&& action_views(steps@) == trim_plan(old(db)@, root@, days_limit as int, now)
            },
{
    let now = unix_now();
    let steps = trim_unpublished_at(db, root, days_limit, now);
    assert(db@ == trimmed(old(db)@, days_limit as int, now as int));
    steps
}

} // verus!
