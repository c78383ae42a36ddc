//! The persisted state of the system and the operations on it.
//!
//! Every operation works on a `Database` value in memory and leaves it well-formed;
//! loading it before and storing it after, in one transaction, is the caller's part.

use crate::ci::ProjectInfo;
use crate::error::Error;
use crate::info::{TechniqueInfo, TechniqueType};
use crate::invariants::{
    lemma_add_workspace, lemma_enqueue, lemma_pop_next_message, lemma_pop_next_task,
    lemma_publish_workspace_private, lemma_publish_workspace_public, lemma_push_msg_task,
    lemma_register, lemma_remove_workspace, lemma_unpublish_workspace,
};
use crate::model::{
    finished_of, named_by_other, published_in, published_of, slot, stale_in, task_of,
    unpublished_of, with_id, with_uuid, DatabaseView,
};
use crate::schema::{
    message_views, task_views, technique_views, workspace_views, MessageTask, Task, TaskType,
    Technique, Workspace, WorkspaceStatus,
};
use crate::seqs::{
    count_where, first_index, lemma_count_step, lemma_first_index_is, lemma_first_index_none,
};
use crate::text::same;
use crate::wrappers::{fresh_uuid, unix_now};
use vstd::prelude::*;
use vstd::string::*;

verus! {

/// The persisted state: the registry of techniques and workspaces, the two task queues
/// and the mail queue.
pub struct Database {
    techniques: Vec<Technique>,
    workspaces: Vec<Workspace>,
    priority_tasks: Vec<Task>,
    normal_tasks: Vec<Task>,
    message_tasks: Vec<MessageTask>,
    next_priority_id: i32,
    next_normal_id: i32,
    next_message_id: i32,
}

impl View for Database {
    type V = DatabaseView;

    closed spec fn view(&self) -> DatabaseView {
        DatabaseView {
            techniques: technique_views(self.techniques@),
            workspaces: workspace_views(self.workspaces@),
            priority_tasks: task_views(self.priority_tasks@),
            normal_tasks: task_views(self.normal_tasks@),
            message_tasks: message_views(self.message_tasks@),
            next_priority_id: self.next_priority_id as int,
            next_normal_id: self.next_normal_id as int,
            next_message_id: self.next_message_id as int,
        }
    }
}

/// The text of a result, with an error left as it is.
pub open spec fn text_result(r: Result<String, Error>) -> Result<Seq<char>, Error> {
    match r {
        Ok(s) => Ok(s@),
        Err(e) => Err(e),
    }
}

/// Technique ids and uuids as mathematical values.
pub open spec fn key_views(keys: Seq<(i32, String)>) -> Seq<(int, Seq<char>)> {
    keys.map_values(|k: (i32, String)| (k.0 as int, k.1@))
}

/// Strings as sequences of characters.
pub open spec fn text_views(texts: Seq<String>) -> Seq<Seq<char>> {
    texts.map_values(|t: String| t@)
}

impl Database {
    /// The invariant of the state: see `DatabaseView::wf`.
    pub open spec fn wf(&self) -> bool {
        self@.wf()
    }

    /// A state with nothing registered and nothing queued.
    pub fn new() -> (db: Database)
        ensures
            db.wf(),
            db@ == DatabaseView::empty(),
    {
        let db = Database {
            techniques: Vec::new(),
            workspaces: Vec::new(),
            priority_tasks: Vec::new(),
            normal_tasks: Vec::new(),
            message_tasks: Vec::new(),
            next_priority_id: 1,
            next_normal_id: 1,
            next_message_id: 1,
        };
        assert(db@ =~= DatabaseView::empty()) by {
            assert(db@.techniques =~= Seq::empty());
            assert(db@.workspaces =~= Seq::empty());
            assert(db@.priority_tasks =~= Seq::empty());
            assert(db@.normal_tasks =~= Seq::empty());
            assert(db@.message_tasks =~= Seq::empty());
        }
        db
    }

    /// The rows of the `techniques` table.
    pub fn techniques(&self) -> (rows: &Vec<Technique>)
        ensures
            technique_views(rows@) == self@.techniques,
    {
        &self.techniques
    }

    /// The rows of the `workspaces` table.
    pub fn workspaces(&self) -> (rows: &Vec<Workspace>)
        ensures
            workspace_views(rows@) == self@.workspaces,
    {
        &self.workspaces
    }

    /// The rows of the table of high tasks.
    pub fn priority_tasks(&self) -> (rows: &Vec<Task>)
        ensures
            task_views(rows@) == self@.priority_tasks,
    {
        &self.priority_tasks
    }

    /// The rows of the table of normal tasks.
    pub fn normal_tasks(&self) -> (rows: &Vec<Task>)
        ensures
            task_views(rows@) == self@.normal_tasks,
    {
        &self.normal_tasks
    }

    /// The rows of the mail table.
    pub fn message_tasks(&self) -> (rows: &Vec<MessageTask>)
        ensures
            message_views(rows@) == self@.message_tasks,
    {
        &self.message_tasks
    }

    fn find_technique(&self, id: i32) -> (found: Option<usize>)
        ensures
            match found {
                Some(i) => i < self.techniques.len() && self@.technique_index(id as int) == Some(
                    i as int,
                ),
                None => self@.technique_index(id as int) is None,
            },
    {
        let mut i: usize = 0;
        while i < self.techniques.len()
            invariant
                i <= self.techniques.len(),
                forall|j: int| 0 <= j < i ==> !with_id(id as int)(#[trigger] self@.techniques[j]),
            decreases self.techniques.len() - i,
        {
            if self.techniques[i].id == id {
                proof {
                    lemma_first_index_is(self@.techniques, with_id(id as int), i as int);
                }
                return Some(i);
            }
            i += 1;
        }
        proof {
            lemma_first_index_none(self@.techniques, with_id(id as int));
        }
        None
    }

    fn name_taken_by_other(&self, name: &str, id: i32) -> (taken: bool)
        ensures
            taken == (first_index(self@.techniques, named_by_other(name@, id as int)) is Some),
    {
        let mut i: usize = 0;
        while i < self.techniques.len()
            invariant
                i <= self.techniques.len(),
                forall|j: int|
                    0 <= j < i ==> !named_by_other(name@, id as int)(
                        #[trigger] self@.techniques[j],
                    ),
            decreases self.techniques.len() - i,
        {
            if self.techniques[i].id != id && same(self.techniques[i].short_name.as_str(), name) {
                proof {
                    lemma_first_index_is(
                        self@.techniques,
                        named_by_other(name@, id as int),
                        i as int,
                    );
                }
                return true;
            }
            i += 1;
        }
        proof {
            lemma_first_index_none(self@.techniques, named_by_other(name@, id as int));
        }
        false
    }

    fn find_workspace(&self, id: i32, uuid: &str) -> (found: Option<usize>)
        ensures
            match found {
                Some(i) => i < self.workspaces.len() && self@.workspace_index(id as int, uuid@)
                    == Some(i as int),
                None => self@.workspace_index(id as int, uuid@) is None,
            },
    {
        let mut i: usize = 0;
        while i < self.workspaces.len()
            invariant
                i <= self.workspaces.len(),
                forall|j: int|
                    0 <= j < i ==> !slot(id as int, uuid@)(#[trigger] self@.workspaces[j]),
            decreases self.workspaces.len() - i,
        {
            if self.workspaces[i].technique_id == id && same(
                self.workspaces[i].uuid.as_str(),
                uuid,
            ) {
                proof {
                    lemma_first_index_is(self@.workspaces, slot(id as int, uuid@), i as int);
                }
                return Some(i);
            }
            i += 1;
        }
        proof {
            lemma_first_index_none(self@.workspaces, slot(id as int, uuid@));
        }
        None
    }

    fn uuid_in_use(&self, uuid: &str) -> (used: bool)
        ensures
            used == (first_index(self@.workspaces, with_uuid(uuid@)) is Some),
    {
        let mut i: usize = 0;
        while i < self.workspaces.len()
            invariant
                i <= self.workspaces.len(),
                forall|j: int| 0 <= j < i ==> !with_uuid(uuid@)(#[trigger] self@.workspaces[j]),
            decreases self.workspaces.len() - i,
        {
            if same(self.workspaces[i].uuid.as_str(), uuid) {
                proof {
                    lemma_first_index_is(self@.workspaces, with_uuid(uuid@), i as int);
                }
                return true;
            }
            i += 1;
        }
        proof {
            lemma_first_index_none(self@.workspaces, with_uuid(uuid@));
        }
        false
    }

    fn find_published(&self, id: i32) -> (found: Option<usize>)
        ensures
            match found {
                Some(i) => i < self.workspaces.len() && self@.published_index(id as int) == Some(
                    i as int,
                ),
                None => self@.published_index(id as int) is None,
            },
    {
        let mut i: usize = 0;
        while i < self.workspaces.len()
            invariant
                i <= self.workspaces.len(),
                forall|j: int|
                    0 <= j < i ==> !published_of(id as int)(#[trigger] self@.workspaces[j]),
            decreases self.workspaces.len() - i,
        {
            if self.workspaces[i].technique_id == id && self.workspaces[i].status
                == WorkspaceStatus::Published {
                proof {
                    lemma_first_index_is(self@.workspaces, published_of(id as int), i as int);
                }
                return Some(i);
            }
            i += 1;
        }
        proof {
            lemma_first_index_none(self@.workspaces, published_of(id as int));
        }
        None
    }

    /// Number of workspaces of the technique that are new or finished.
    pub fn count_unpublished(&self, id: i32) -> (count: usize)
        ensures
            count == self@.count_unpublished(id as int),
    {
        let mut count: usize = 0;
        let mut i: usize = 0;
        while i < self.workspaces.len()
            invariant
                i <= self.workspaces.len(),
                count == count_where(self@.workspaces.take(i as int), unpublished_of(id as int)),
                count <= i,
            decreases self.workspaces.len() - i,
        {
            proof {
                lemma_count_step(self@.workspaces, unpublished_of(id as int), i as int);
            }
            if self.workspaces[i].technique_id == id && self.workspaces[i].status
                != WorkspaceStatus::Published {
                count += 1;
            }
            i += 1;
        }
        assert(self@.workspaces.take(i as int) =~= self@.workspaces);
        count
    }

    /// Number of workspaces of the technique.
    pub fn num_workspaces(&self, id: i32) -> (count: usize)
        ensures
            count == self@.num_workspaces(id as int),
    {
        let mut count: usize = 0;
        let mut i: usize = 0;
        while i < self.workspaces.len()
            invariant
                i <= self.workspaces.len(),
                count == count_where(
                    self@.workspaces.take(i as int),
                    crate::model::owned_by(id as int),
                ),
                count <= i,
            decreases self.workspaces.len() - i,
        {
            proof {
                lemma_count_step(self@.workspaces, crate::model::owned_by(id as int), i as int);
            }
            if self.workspaces[i].technique_id == id {
                count += 1;
            }
            i += 1;
        }
        assert(self@.workspaces.take(i as int) =~= self@.workspaces);
        count
    }
}

/// Registers a technique, or updates the short name, full name, citation and comment
/// of a registered one; the group of a registered technique stays as it is.
///
/// Fails with `InvalidInfoFile` where the manifest lists a version other than the one
/// named `default`, and with `NameAlreadyExists` where another technique owns the
/// short name.
pub fn register(db: &mut Database, info: &ProjectInfo, tech: &TechniqueInfo) -> (r: Result<
    (),
    Error,
>)
    requires
        old(db).wf(),
    ensures
        final(db).wf(),
        final(db)@ == old(db)@.register(info@, tech@).0,
        r == old(db)@.register(info@, tech@).1,
{
    proof {
        lemma_register(db@, info@, tech@);
    }
    if !tech.versions_allowed() {
        return Err(Error::InvalidInfoFile);
    }
    if db.name_taken_by_other(tech.short_name.as_str(), info.id) {
        return Err(Error::NameAlreadyExists);
    }
    match db.find_technique(info.id) {
        Some(i) => {
            let row = Technique {
                id: db.techniques[i].id,
                technique_type: db.techniques[i].technique_type,
                short_name: tech.short_name.clone(),
                full_name: tech.full_name.clone(),
                citation: tech.citation.clone(),
                comment: tech.comment.clone(),
            };
            db.techniques.set(i, row);
            assert(db@.techniques =~= old(db)@.register(info@, tech@).0.techniques);
        },
        None => {
            let row = Technique {
                id: info.id,
                technique_type: tech.technique_type,
                short_name: tech.short_name.clone(),
                full_name: tech.full_name.clone(),
                citation: tech.citation.clone(),
                comment: tech.comment.clone(),
            };
            db.techniques.push(row);
            assert(db@.techniques =~= old(db)@.register(info@, tech@).0.techniques);
        },
    }
    Ok(())
}

/// The group of the technique with the given id, if one is registered.
fn group_of_technique(db: &Database, id: i32) -> (found: Option<TechniqueType>)
    ensures
        found == crate::model::group_of(db@.techniques, id as int),
{
    match db.find_technique(id) {
        Some(i) => Some(db.techniques[i].technique_type),
        None => None,
    }
}

/// The group of a technique; `NotRegistered` where the id is unknown.
pub fn technique_type(db: &Database, id: i32) -> (r: Result<TechniqueType, Error>)
    ensures
        r == db@.technique_type(id as int),
{
    match group_of_technique(db, id) {
        Some(g) => Ok(g),
        None => Err(Error::NotRegistered),
    }
}

/// Adds a new workspace under the given uuid, created at `now`.
///
/// Fails with `NotRegistered` where the technique is unknown, with
/// `MaxWorkspacesExceeded` where it already holds `max_workspaces` workspaces that are
/// not published, and with `Unspecified` where the uuid is already in use.
pub fn add_workspace_with(
    db: &mut Database,
    info: &ProjectInfo,
    max_workspaces: i32,
    uuid: String,
    now: i64,
) -> (r: Result<String, Error>)
    requires
        old(db).wf(),
    ensures
        final(db).wf(),
        final(db)@ == old(db)@.add_workspace(info@, max_workspaces as int, uuid@, now as int).0,
        text_result(r) == old(db)@.add_workspace(
            info@,
            max_workspaces as int,
            uuid@,
            now as int,
        ).1,
{
    proof {
        lemma_add_workspace(db@, info@, max_workspaces as int, uuid@, now as int);
    }
    if db.find_technique(info.id).is_none() {
        return Err(Error::NotRegistered);
    }
    let held = db.count_unpublished(info.id);
    if max_workspaces < 0 || held >= max_workspaces as usize {
        return Err(Error::MaxWorkspacesExceeded);
    }
    if db.uuid_in_use(uuid.as_str()) {
        return Err(Error::Unspecified);
    }
    let row = Workspace {
        technique_id: info.id,
        uuid: uuid.clone(),
        commit_sha: info.commit_sha.clone(),
        docker_image: info.docker_img.clone(),
        status: WorkspaceStatus::New,
        creation_time: now,
        finish_time: None,
        publication_time: None,
    };
    db.workspaces.push(row);
    assert(db@.workspaces =~= old(db)@.add_workspace(
        info@,
        max_workspaces as int,
        uuid@,
        now as int,
    ).0.workspaces);
    Ok(uuid)
}

/// Adds a new workspace under a freshly minted uuid, created now, and gives the uuid.
///
/// The outcome is that of `add_workspace_with` for the uuid that was minted and the
/// time that the clock gave.
pub fn add_workspace(db: &mut Database, info: &ProjectInfo, max_workspaces: i32) -> (r: Result<
    String,
    Error,
>)
    requires
        old(db).wf(),
    ensures
        final(db).wf(),
        exists|uuid: Seq<char>, now: int|
            {
                &&& crate::text::is_v4_uuid(uuid)
                &&& final(db)@ == (#[trigger] old(db)@.add_workspace(
                    info@,
                    max_workspaces as int,
                    uuid,
                    now,
                )).0
                &&& text_result(r) == old(db)@.add_workspace(
                    info@,
                    max_workspaces as int,
                    uuid,
                    now,
                ).1
            },
{
    let uuid = fresh_uuid();
    let now = unix_now();
    let ghost minted = uuid@;
    let r = add_workspace_with(db, info, max_workspaces, uuid, now);
    assert(db@ == old(db)@.add_workspace(info@, max_workspaces as int, minted, now as int).0);
    r
}

/// Deletes a workspace of the technique. Removing its files is the caller's part.
///
/// Fails with `NotRegistered` where the technique is unknown and with `Unspecified`
/// where it has no workspace with that uuid.
pub fn remove_workspace(db: &mut Database, id: i32, uuid: &str) -> (r: Result<(), Error>)
    requires
        old(db).wf(),
    ensures
        final(db).wf(),
        final(db)@ == old(db)@.remove_workspace(id as int, uuid@).0,
        r == old(db)@.remove_workspace(id as int, uuid@).1,
{
    proof {
        lemma_remove_workspace(db@, id as int, uuid@);
    }
    if db.find_technique(id).is_none() {
        return Err(Error::NotRegistered);
    }
    match db.find_workspace(id, uuid) {
        None => Err(Error::Unspecified),
        Some(i) => {
            let _ = db.workspaces.remove(i);
            assert(db@.workspaces =~= old(db)@.remove_workspace(id as int, uuid@).0.workspaces);
            Ok(())
        },
    }
}

/// Marks a new or finished workspace as finished at `now`.
///
/// Fails with `NotRegistered` where the technique is unknown, and with `Unspecified`
/// where it has no workspace with that uuid or that workspace is published.
pub fn publish_workspace_private_at(db: &mut Database, info: &ProjectInfo, uuid: &str, now: i64)
    -> (r: Result<(), Error>)
    requires
        old(db).wf(),
    ensures
        final(db).wf(),
        final(db)@ == old(db)@.publish_workspace_private(info@, uuid@, now as int).0,
        r == old(db)@.publish_workspace_private(info@, uuid@, now as int).1,
{
    proof {
        lemma_publish_workspace_private(db@, info@, uuid@, now as int);
    }
    if db.find_technique(info.id).is_none() {
        return Err(Error::NotRegistered);
    }
    match db.find_workspace(info.id, uuid) {
        None => Err(Error::Unspecified),
        Some(i) => {
            if db.workspaces[i].status == WorkspaceStatus::Published {
                return Err(Error::Unspecified);
            }
            let row = Workspace {
                technique_id: db.workspaces[i].technique_id,
                uuid: db.workspaces[i].uuid.clone(),
                commit_sha: db.workspaces[i].commit_sha.clone(),
                docker_image: db.workspaces[i].docker_image.clone(),
                status: WorkspaceStatus::Finished,
                creation_time: db.workspaces[i].creation_time,
                finish_time: Some(now),
                publication_time: db.workspaces[i].publication_time,
            };
            db.workspaces.set(i, row);
            assert(db@.workspaces =~= old(db)@.publish_workspace_private(
                info@,
                uuid@,
                now as int,
            ).0.workspaces);
            Ok(())
        },
    }
}

/// Marks a new or finished workspace as finished now.
///
/// The outcome is that of `publish_workspace_private_at` for the time that the clock
/// gave.
pub fn publish_workspace_private(db: &mut Database, info: &ProjectInfo, uuid: &str) -> (r: Result<
    (),
    Error,
>)
    requires
        old(db).wf(),
    ensures
        final(db).wf(),
        exists|now: int|
            {
                &&& final(db)@ == (#[trigger] old(db)@.publish_workspace_private(
                    info@,
                    uuid@,
                    now,
                )).0
                &&& r == old(db)@.publish_workspace_private(info@, uuid@, now).1
            },
{
    let now = unix_now();
    let r = publish_workspace_private_at(db, info, uuid, now);
    assert(db@ == old(db)@.publish_workspace_private(info@, uuid@, now as int).0);
    r
}

/// Takes the published workspace of the technique, if it has one, off the public page.
fn demote_published(db: &mut Database, id: i32)
    requires
        old(db).wf(),
    ensures
        final(db)@ == (DatabaseView { workspaces: old(db)@.demote_published(id as int), ..old(db)@ }),
{
    match db.find_published(id) {
        None => {
            assert(db@.workspaces =~= old(db)@.demote_published(id as int));
        },
        Some(j) => {
            let row = Workspace {
                technique_id: db.workspaces[j].technique_id,
                uuid: db.workspaces[j].uuid.clone(),
                commit_sha: db.workspaces[j].commit_sha.clone(),
                docker_image: db.workspaces[j].docker_image.clone(),
                status: WorkspaceStatus::Finished,
                creation_time: db.workspaces[j].creation_time,
                finish_time: db.workspaces[j].finish_time,
                publication_time: None,
            };
            db.workspaces.set(j, row);
            assert(db@.workspaces =~= old(db)@.demote_published(id as int));
        },
    }
}

/// Publishes a finished workspace at `now`. The workspace of the same technique that
/// was published before, if there was one, becomes finished again in the same step.
///
/// Fails with `NotRegistered` where the technique is unknown, with `AlreadyPublished`
/// where the workspace is the published one, and with `Unspecified` where the
/// technique has no workspace with that uuid or the workspace is still new.
pub fn publish_workspace_public_at(db: &mut Database, info: &ProjectInfo, uuid: &str, now: i64)
    -> (r: Result<(), Error>)
    requires
        old(db).wf(),
    ensures
        final(db).wf(),
        final(db)@ == old(db)@.publish_workspace_public(info@, uuid@, now as int).0,
        r == old(db)@.publish_workspace_public(info@, uuid@, now as int).1,
{
    proof {
        lemma_publish_workspace_public(db@, info@, uuid@, now as int);
        crate::invariants::lemma_demote_published(db@, info.id as int);
    }
    if db.find_technique(info.id).is_none() {
        return Err(Error::NotRegistered);
    }
    match db.find_workspace(info.id, uuid) {
        None => Err(Error::Unspecified),
        Some(i) => {
            match db.workspaces[i].status {
                WorkspaceStatus::Published => Err(Error::AlreadyPublished),
                WorkspaceStatus::New => Err(Error::Unspecified),
                WorkspaceStatus::Finished => {
                    demote_published(db, info.id);
                    assert(db@.workspaces[i as int] == old(db)@.workspaces[i as int]);
                    let row = Workspace {
                        technique_id: db.workspaces[i].technique_id,
                        uuid: db.workspaces[i].uuid.clone(),
                        commit_sha: db.workspaces[i].commit_sha.clone(),
                        docker_image: db.workspaces[i].docker_image.clone(),
                        status: WorkspaceStatus::Published,
                        creation_time: db.workspaces[i].creation_time,
                        finish_time: db.workspaces[i].finish_time,
                        publication_time: Some(now),
                    };
                    db.workspaces.set(i, row);
                    assert(db@.workspaces =~= old(db)@.publish_workspace_public(
                        info@,
                        uuid@,
                        now as int,
                    ).0.workspaces);
                    Ok(())
                },
            }
        },
    }
}

/// Publishes a finished workspace now.
///
/// The outcome is that of `publish_workspace_public_at` for the time that the clock
/// gave.
pub fn publish_workspace_public(db: &mut Database, info: &ProjectInfo, uuid: &str) -> (r: Result<
    (),
    Error,
>)
    requires
        old(db).wf(),
    ensures
        final(db).wf(),
        exists|now: int|
            {
                &&& final(db)@ == (#[trigger] old(db)@.publish_workspace_public(
                    info@,
                    uuid@,
                    now,
                )).0
                &&& r == old(db)@.publish_workspace_public(info@, uuid@, now).1
            },
{
    let now = unix_now();
    let r = publish_workspace_public_at(db, info, uuid, now);
    assert(db@ == old(db)@.publish_workspace_public(info@, uuid@, now as int).0);
    r
}

/// The group and the uuid of a result, with an error left as it is.
pub open spec fn unpublished_view(r: Result<(TechniqueType, String), Error>) -> Result<
    (TechniqueType, Seq<char>),
    Error,
> {
    match r {
        Ok(p) => Ok((p.0, p.1@)),
        Err(e) => Err(e),
    }
}

/// Takes the published workspace of the technique off the public page: it becomes
/// finished, its time of publication is cleared and its finish time kept. Gives the
/// group of the technique and the uuid of that workspace.
///
/// Fails with `NotRegistered` where the technique is unknown and with `Unspecified`
/// where it has no published workspace.
pub fn unpublish_workspace(db: &mut Database, id: i32) -> (r: Result<
    (TechniqueType, String),
    Error,
>)
    requires
        old(db).wf(),
    ensures
        final(db).wf(),
        final(db)@ == old(db)@.unpublish_workspace(id as int).0,
        unpublished_view(r) == old(db)@.unpublish_workspace(id as int).1,
{
    proof {
        lemma_unpublish_workspace(db@, id as int);
    }
    match db.find_technique(id) {
        None => Err(Error::NotRegistered),
        Some(t) => match db.find_published(id) {
            None => Err(Error::Unspecified),
            Some(j) => {
                let group = db.techniques[t].technique_type;
                let uuid = db.workspaces[j].uuid.clone();
                demote_published(db, id);
                Ok((group, uuid))
            },
        },
    }
}

/// Technique id and uuid of each published workspace of the group, in table order.
pub fn get_published(db: &Database, group: TechniqueType) -> (keys: Vec<(i32, String)>)
    ensures
        key_views(keys@) == db@.get_published(group),
{
    let ghost p = published_in(db@.techniques, group);
    let mut keys: Vec<(i32, String)> = Vec::new();
    let mut i: usize = 0;
    proof {
        crate::model::lemma_keys_take_all(db@.workspaces, p);
    }
    assert(key_views(keys@) =~= Seq::<(int, Seq<char>)>::empty());
    while i < db.workspaces.len()
        invariant
            i <= db.workspaces.len(),
            p == published_in(db@.techniques, group),
            key_views(keys@) == crate::model::keys_where(db@.workspaces.take(i as int), p),
        decreases db.workspaces.len() - i,
    {
        proof {
            crate::model::lemma_keys_step(db@.workspaces, p, i as int);
        }
        if db.workspaces[i].status == WorkspaceStatus::Published {
            let owner = group_of_technique(db, db.workspaces[i].technique_id);
            if owner.is_some() && owner.unwrap() == group {
                let ghost before = keys@;
                keys.push((db.workspaces[i].technique_id, db.workspaces[i].uuid.clone()));
                assert(key_views(keys@) =~= key_views(before).push(
                    crate::model::key_of(db@.workspaces[i as int]),
                ));
            }
        }
        i += 1;
    }
    assert(db@.workspaces.take(i as int) =~= db@.workspaces);
    keys
}

/// Uuid of each finished workspace of the technique, in table order; `Unspecified`
/// where the technique is unknown.
pub fn get_unpublished(db: &Database, id: i32) -> (r: Result<Vec<String>, Error>)
    ensures
        match r {
            Ok(uuids) => db@.get_unpublished(id as int) == Ok::<Seq<Seq<char>>, Error>(
                text_views(uuids@),
            ),
            Err(e) => db@.get_unpublished(id as int) == Err::<Seq<Seq<char>>, Error>(e),
        },
{
    if db.find_technique(id).is_none() {
        return Err(Error::Unspecified);
    }
    let ghost p = finished_of(id as int);
    let mut uuids: Vec<String> = Vec::new();
    let mut i: usize = 0;
    proof {
        crate::model::lemma_keys_take_all(db@.workspaces, p);
    }
    assert(text_views(uuids@) =~= Seq::<Seq<char>>::empty());
    while i < db.workspaces.len()
        invariant
            i <= db.workspaces.len(),
            p == finished_of(id as int),
            text_views(uuids@) == crate::model::uuids_where(db@.workspaces.take(i as int), p),
        decreases db.workspaces.len() - i,
    {
        proof {
            crate::model::lemma_uuids_step(db@.workspaces, p, i as int);
        }
        if db.workspaces[i].technique_id == id && db.workspaces[i].status
            == WorkspaceStatus::Finished {
            let ghost before = uuids@;
            uuids.push(db.workspaces[i].uuid.clone());
            assert(text_views(uuids@) =~= text_views(before).push(db@.workspaces[i as int].uuid));
        }
        i += 1;
    }
    assert(db@.workspaces.take(i as int) =~= db@.workspaces);
    Ok(uuids)
}

/// Technique id and uuid of each workspace of the group that at `now` has been finished
/// for at least `days_limit` days, in table order.
pub fn get_unpub_older_than_at(db: &Database, group: TechniqueType, days_limit: i32, now: i64) -> (keys:
    Vec<(i32, String)>)
    ensures
        key_views(keys@) == db@.get_unpub_older_than(group, days_limit as int, now as int),
{
    let ghost p = stale_in(db@.techniques, group, days_limit as int, now as int);
    let mut keys: Vec<(i32, String)> = Vec::new();
    let mut i: usize = 0;
    proof {
        crate::model::lemma_keys_take_all(db@.workspaces, p);
    }
    assert(key_views(keys@) =~= Seq::<(int, Seq<char>)>::empty());
    while i < db.workspaces.len()
        invariant
            i <= db.workspaces.len(),
            p == stale_in(db@.techniques, group, days_limit as int, now as int),
            key_views(keys@) == crate::model::keys_where(db@.workspaces.take(i as int), p),
        decreases db.workspaces.len() - i,
    {
        proof {
            crate::model::lemma_keys_step(db@.workspaces, p, i as int);
        }
        if db.workspaces[i].status == WorkspaceStatus::Finished {
            let owner = group_of_technique(db, db.workspaces[i].technique_id);
            let old_enough = match db.workspaces[i].finish_time {
                Some(finished) => (finished as i128) + (days_limit as i128) * 86400 <= (
                now as i128),
                None => false,
            };
            if old_enough && owner.is_some() && owner.unwrap() == group {
                let ghost before = keys@;
                keys.push((db.workspaces[i].technique_id, db.workspaces[i].uuid.clone()));
                assert(key_views(keys@) =~= key_views(before).push(
                    crate::model::key_of(db@.workspaces[i as int]),
                ));
            }
        }
        i += 1;
    }
    assert(db@.workspaces.take(i as int) =~= db@.workspaces);
    keys
}

/// Technique id and uuid of each workspace of the group that has by now been finished
/// for at least `days_limit` days.
///
/// The outcome is that of `get_unpub_older_than_at` for the time that the clock gave.
pub fn get_unpub_older_than(db: &Database, group: TechniqueType, days_limit: i32) -> (keys: Vec<
    (i32, String),
>)
    ensures
        exists|now: int|
            key_views(keys@) == #[trigger] db@.get_unpub_older_than(group, days_limit as int, now),
{
    let now = unix_now();
    let keys = get_unpub_older_than_at(db, group, days_limit, now);
    assert(key_views(keys@) == db@.get_unpub_older_than(group, days_limit as int, now as int));
    keys
}

fn technique_has_task(queue: &Vec<Task>, id: i32) -> (waiting: bool)
    ensures
        waiting == (first_index(task_views(queue@), task_of(id as int)) is Some),
{
    let mut i: usize = 0;
    while i < queue.len()
        invariant
            i <= queue.len(),
            forall|j: int| 0 <= j < i ==> !task_of(id as int)(#[trigger] task_views(queue@)[j]),
        decreases queue.len() - i,
    {
        if queue[i].technique_id == id {
            proof {
                lemma_first_index_is(task_views(queue@), task_of(id as int), i as int);
            }
            return true;
        }
        i += 1;
    }
    proof {
        lemma_first_index_none(task_views(queue@), task_of(id as int));
    }
    false
}

fn enqueue(db: &mut Database, kind: TaskType, info: &ProjectInfo, data: Option<String>) -> (r: Result<
    (),
    Error,
>)
    requires
        old(db).wf(),
    ensures
        final(db).wf(),
        final(db)@ == old(db)@.enqueue(kind, info@, crate::schema::text_view(data)).0,
        r == old(db)@.enqueue(kind, info@, crate::schema::text_view(data)).1,
{
    proof {
        lemma_enqueue(db@, kind, info@, crate::schema::text_view(data));
    }
    if db.find_technique(info.id).is_none() {
        return Err(Error::NotRegistered);
    }
    match kind {
        TaskType::Build => {
            if technique_has_task(&db.priority_tasks, info.id) {
                return Err(Error::Unspecified);
            }
            if db.next_priority_id >= i32::MAX {
                return Err(Error::Unspecified);
            }
            let row = Task {
                id: db.next_priority_id,
                technique_id: info.id,
                commit_sha: info.commit_sha.clone(),
                docker_img: info.docker_img.clone(),
                task_type: kind,
                task_data: data,
                user_email: info.user_email.clone(),
            };
            db.priority_tasks.push(row);
            db.next_priority_id = db.next_priority_id + 1;
            assert(db@.priority_tasks =~= old(db)@.enqueue(
                kind,
                info@,
                crate::schema::text_view(data),
            ).0.priority_tasks);
        },
        _ => {
            if technique_has_task(&db.normal_tasks, info.id) {
                return Err(Error::Unspecified);
            }
            if db.next_normal_id >= i32::MAX {
                return Err(Error::Unspecified);
            }
            let row = Task {
                id: db.next_normal_id,
                technique_id: info.id,
                commit_sha: info.commit_sha.clone(),
                docker_img: info.docker_img.clone(),
                task_type: kind,
                task_data: data,
                user_email: info.user_email.clone(),
            };
            db.normal_tasks.push(row);
            db.next_normal_id = db.next_normal_id + 1;
            assert(db@.normal_tasks =~= old(db)@.enqueue(
                kind,
                info@,
                crate::schema::text_view(data),
            ).0.normal_tasks);
        },
    }
    Ok(())
}

/// Queues a build of the technique among the high tasks.
///
/// Fails with `NotRegistered` where the technique is unknown, and with `Unspecified`
/// where a high task of the technique already waits or the table has no row id left.
pub fn push_build_task(db: &mut Database, info: &ProjectInfo) -> (r: Result<(), Error>)
    requires
        old(db).wf(),
    ensures
        final(db).wf(),
        final(db)@ == old(db)@.push_build_task(info@).0,
        r == old(db)@.push_build_task(info@).1,
{
    enqueue(db, TaskType::Build, info, None)
}

/// Queues a benchmark run of the technique among the normal tasks.
///
/// Fails with `NotRegistered` where the technique is unknown, and with `Unspecified`
/// where a normal task of the technique already waits or the table has no row id left.
pub fn push_run_task(db: &mut Database, info: &ProjectInfo) -> (r: Result<(), Error>)
    requires
        old(db).wf(),
    ensures
        final(db).wf(),
        final(db)@ == old(db)@.push_run_task(info@).0,
        r == old(db)@.push_run_task(info@).1,
{
    enqueue(db, TaskType::RunBenchmark, info, None)
}

/// Queues the publication of the workspace with the given uuid among the normal tasks.
///
/// Fails with `NotRegistered` where the technique is unknown, and with `Unspecified`
/// where a normal task of the technique already waits or the table has no row id left.
pub fn push_publish_task(db: &mut Database, info: &ProjectInfo, uuid: &String) -> (r: Result<
    (),
    Error,
>)
    requires
        old(db).wf(),
    ensures
        final(db).wf(),
        final(db)@ == old(db)@.push_publish_task(info@, uuid@).0,
        r == old(db)@.push_publish_task(info@, uuid@).1,
{
    enqueue(db, TaskType::PublishResults, info, Some(uuid.clone()))
}

/// The content of an optional task.
pub open spec fn task_option_view(t: Option<Task>) -> Option<crate::schema::TaskView> {
    match t {
        Some(task) => Some(task@),
        None => None,
    }
}

/// Takes the next task off the queue: the oldest high task, or where no high task
/// waits the oldest normal one. The task is gone from the queue once this returns.
pub fn pop_next_task(db: &mut Database) -> (task: Option<Task>)
    requires
        old(db).wf(),
    ensures
        final(db).wf(),
        final(db)@ == old(db)@.pop_next_task().0,
        task_option_view(task) == old(db)@.pop_next_task().1,
{
    proof {
        lemma_pop_next_task(db@);
    }
    if db.priority_tasks.len() > 0 {
        let task = db.priority_tasks.remove(0);
        assert(db@.priority_tasks =~= old(db)@.priority_tasks.drop_first());
        Some(task)
    } else if db.normal_tasks.len() > 0 {
        let task = db.normal_tasks.remove(0);
        assert(db@.normal_tasks =~= old(db)@.normal_tasks.drop_first());
        Some(task)
    } else {
        None
    }
}

/// Queues an e-mail; `Unspecified` where the mail table has no row id left.
pub fn push_msg_task(db: &mut Database, to: &str, subject: &str, text: &str) -> (r: Result<
    (),
    Error,
>)
    requires
        old(db).wf(),
    ensures
        final(db).wf(),
        final(db)@ == old(db)@.push_msg_task(to@, subject@, text@).0,
        r == old(db)@.push_msg_task(to@, subject@, text@).1,
{
    proof {
        lemma_push_msg_task(db@, to@, subject@, text@);
    }
    if db.next_message_id >= i32::MAX {
        return Err(Error::Unspecified);
    }
    let row = MessageTask {
        id: db.next_message_id,
        to_address: String::from_str(to),
        subject: String::from_str(subject),
        text: String::from_str(text),
    };
    db.message_tasks.push(row);
    db.next_message_id = db.next_message_id + 1;
    assert(db@.message_tasks =~= old(db)@.push_msg_task(to@, subject@, text@).0.message_tasks);
    Ok(())
}

/// The content of an optional message.
pub open spec fn message_option_view(m: Option<MessageTask>) -> Option<
    crate::schema::MessageTaskView,
> {
    match m {
        Some(message) => Some(message@),
        None => None,
    }
}

/// The oldest e-mail that waits, if any. It stays in the queue.
pub fn read_next_message(db: &Database) -> (message: Option<MessageTask>)
    ensures
        message_option_view(message) == db@.read_next_message(),
{
    if db.message_tasks.len() > 0 {
        Some(db.message_tasks[0].clone())
    } else {
        None
    }
}

/// Drops the oldest e-mail that waits; `Unspecified` where none waits.
pub fn pop_next_message(db: &mut Database) -> (r: Result<(), Error>)
    requires
        old(db).wf(),
    ensures
        final(db).wf(),
        final(db)@ == old(db)@.pop_next_message().0,
        r == old(db)@.pop_next_message().1,
{
    proof {
        lemma_pop_next_message(db@);
    }
    if db.message_tasks.len() > 0 {
        let _ = db.message_tasks.remove(0);
        assert(db@.message_tasks =~= old(db)@.message_tasks.drop_first());
        Ok(())
    } else {
        Err(Error::Unspecified)
    }
}

fn ids_unique(db: &Database) -> (ok: bool)
    ensures
        ok == db@.ids_unique(),
{
    let n = db.techniques.len();
    let mut i: usize = 0;
    while i < n
        invariant
            n == db.techniques.len(),
            i <= n,
            forall|a: int, b: int|
                0 <= a < b < n && a < i ==> (#[trigger] db@.techniques[a]).id != (
                #[trigger] db@.techniques[b]).id,
        decreases n - i,
    {
        let mut j: usize = i + 1;
        while j < n
            invariant
                n == db.techniques.len(),
                i < j <= n,
                forall|b: int|
                    i < b < j ==> db@.techniques[i as int].id != (#[trigger] db@.techniques[b]).id,
            decreases n - j,
        {
            if db.techniques[i].id == db.techniques[j].id {
                assert(db@.techniques[i as int].id == db@.techniques[j as int].id);
                return false;
            }
            j += 1;
        }
        i += 1;
    }
    true
}

fn names_unique(db: &Database) -> (ok: bool)
    ensures
        ok == db@.names_unique(),
{
    let n = db.techniques.len();
    let mut i: usize = 0;
    while i < n
        invariant
            n == db.techniques.len(),
            i <= n,
            forall|a: int, b: int|
                0 <= a < b < n && a < i ==> (#[trigger] db@.techniques[a]).short_name != (
                #[trigger] db@.techniques[b]).short_name,
        decreases n - i,
    {
        let mut j: usize = i + 1;
        while j < n
            invariant
                n == db.techniques.len(),
                i < j <= n,
                forall|b: int|
                    i < b < j ==> db@.techniques[i as int].short_name != (
                    #[trigger] db@.techniques[b]).short_name,
            decreases n - j,
        {
            if same(db.techniques[i].short_name.as_str(), db.techniques[j].short_name.as_str()) {
                assert(db@.techniques[i as int].short_name == db@.techniques[j as int].short_name);
                return false;
            }
            j += 1;
        }
        i += 1;
    }
    true
}

fn uuids_unique(db: &Database) -> (ok: bool)
    ensures
        ok == db@.uuids_unique(),
{
    let n = db.workspaces.len();
    let mut i: usize = 0;
    while i < n
        invariant
            n == db.workspaces.len(),
            i <= n,
            forall|a: int, b: int|
                0 <= a < b < n && a < i ==> (#[trigger] db@.workspaces[a]).uuid != (
                #[trigger] db@.workspaces[b]).uuid,
        decreases n - i,
    {
        let mut j: usize = i + 1;
        while j < n
            invariant
                n == db.workspaces.len(),
                i < j <= n,
                forall|b: int|
                    i < b < j ==> db@.workspaces[i as int].uuid != (
                    #[trigger] db@.workspaces[b]).uuid,
            decreases n - j,
        {
            if same(db.workspaces[i].uuid.as_str(), db.workspaces[j].uuid.as_str()) {
                assert(db@.workspaces[i as int].uuid == db@.workspaces[j as int].uuid);
                return false;
            }
            j += 1;
        }
        i += 1;
    }
    true
}

fn published_once(db: &Database) -> (ok: bool)
    ensures
        ok == db@.published_at_most_once(),
{
    let n = db.workspaces.len();
    let mut i: usize = 0;
    while i < n
        invariant
            n == db.workspaces.len(),
            i <= n,
            forall|a: int, b: int|
                0 <= a < b < n && a < i && (#[trigger] db@.workspaces[a]).technique_id == (
                #[trigger] db@.workspaces[b]).technique_id ==> !(db@.workspaces[a].status
                    == WorkspaceStatus::Published && db@.workspaces[b].status
                    == WorkspaceStatus::Published),
        decreases n - i,
    {
        let mut j: usize = i + 1;
        while j < n
            invariant
                n == db.workspaces.len(),
                i < j <= n,
                forall|b: int|
                    i < b < j && db@.workspaces[i as int].technique_id == (
                    #[trigger] db@.workspaces[b]).technique_id ==> !(
                    db@.workspaces[i as int].status == WorkspaceStatus::Published
                        && db@.workspaces[b].status == WorkspaceStatus::Published),
            decreases n - j,
        {
            if db.workspaces[i].technique_id == db.workspaces[j].technique_id
                && db.workspaces[i].status == WorkspaceStatus::Published && db.workspaces[j].status
                == WorkspaceStatus::Published {
                assert(db@.workspaces[i as int].technique_id == db@.workspaces[j as int].technique_id);
                return false;
            }
            j += 1;
        }
        i += 1;
    }
    true
}

fn workspaces_sound(db: &Database) -> (ok: bool)
    ensures
        ok == (db@.workspaces_owned() && db@.times_match_status()),
{
    let n = db.workspaces.len();
    let mut i: usize = 0;
    while i < n
        invariant
            n == db.workspaces.len(),
            i <= n,
            forall|a: int|
                0 <= a < i ==> db@.registered((#[trigger] db@.workspaces[a]).technique_id),
            forall|a: int|
                0 <= a < i ==> {
                    let w = #[trigger] db@.workspaces[a];
                    &&& w.finish_time is Some <==> w.status != WorkspaceStatus::New
                    &&& w.publication_time is Some <==> w.status == WorkspaceStatus::Published
                },
        decreases n - i,
    {
        let w = &db.workspaces[i];
        if db.find_technique(w.technique_id).is_none() {
            assert(!db@.registered(db@.workspaces[i as int].technique_id));
            return false;
        }
        let finished = w.status != WorkspaceStatus::New;
        let published = w.status == WorkspaceStatus::Published;
        if w.finish_time.is_some() != finished || w.publication_time.is_some() != published {
            let ghost v = db@.workspaces[i as int];
            assert(!((v.finish_time is Some <==> v.status != WorkspaceStatus::New) && (
            v.publication_time is Some <==> v.status == WorkspaceStatus::Published)));
            return false;
        }
        i += 1;
    }
    true
}

fn queue_sound(queue: &Vec<Task>, next: i32, high: bool) -> (ok: bool)
    ensures
        ok == (crate::model::tasks_ordered(task_views(queue@), next as int)
            && crate::model::one_task_per_technique(task_views(queue@))
            && crate::model::tasks_of_class(
            task_views(queue@),
            if high {
                crate::schema::Priority::High
            } else {
                crate::schema::Priority::Normal
            },
        )),
{
    let ghost q = task_views(queue@);
    let ghost class = if high {
        crate::schema::Priority::High
    } else {
        crate::schema::Priority::Normal
    };
    let n = queue.len();
    let mut i: usize = 0;
    while i < n
        invariant
            n == queue.len(),
            q == task_views(queue@),
            class == if high {
                crate::schema::Priority::High
            } else {
                crate::schema::Priority::Normal
            },
            i <= n,
            forall|a: int, b: int|
                0 <= a < b < n && a < i ==> (#[trigger] q[a]).id < (#[trigger] q[b]).id
                    && q[a].technique_id != q[b].technique_id,
            forall|a: int|
                0 <= a < i ==> 1 <= (#[trigger] q[a]).id < next
                    && q[a].task_type.spec_priority() == class,
        decreases n - i,
    {
        let t = &queue[i];
        let is_high = match t.task_type {
            TaskType::Build => true,
            _ => false,
        };
        if t.id < 1 || t.id >= next || is_high != high {
            assert(!(1 <= q[i as int].id < next && q[i as int].task_type.spec_priority() == class));
            return false;
        }
        let mut j: usize = i + 1;
        while j < n
            invariant
                n == queue.len(),
                q == task_views(queue@),
                i < j <= n,
                forall|b: int|
                    i < b < j ==> q[i as int].id < (#[trigger] q[b]).id && q[i as int].technique_id
                        != q[b].technique_id,
            decreases n - j,
        {
            if queue[i].id >= queue[j].id || queue[i].technique_id == queue[j].technique_id {
                assert(!(q[i as int].id < q[j as int].id && q[i as int].technique_id
                    != q[j as int].technique_id));
                return false;
            }
            j += 1;
        }
        i += 1;
    }
    true
}

fn messages_sound(queue: &Vec<MessageTask>, next: i32) -> (ok: bool)
    ensures
        ok == crate::model::messages_ordered(message_views(queue@), next as int),
{
    let ghost q = message_views(queue@);
    let n = queue.len();
    let mut i: usize = 0;
    while i < n
        invariant
            n == queue.len(),
            q == message_views(queue@),
            i <= n,
            forall|a: int, b: int|
                0 <= a < b < n && a < i ==> (#[trigger] q[a]).id < (#[trigger] q[b]).id,
            forall|a: int| 0 <= a < i ==> 1 <= (#[trigger] q[a]).id < next,
        decreases n - i,
    {
        if queue[i].id < 1 || queue[i].id >= next {
            assert(!(1 <= q[i as int].id < next));
            return false;
        }
        let mut j: usize = i + 1;
        while j < n
            invariant
                n == queue.len(),
                q == message_views(queue@),
                i < j <= n,
                forall|b: int| i < b < j ==> q[i as int].id < (#[trigger] q[b]).id,
            decreases n - j,
        {
            if queue[i].id >= queue[j].id {
                assert(!(q[i as int].id < q[j as int].id));
                return false;
            }
            j += 1;
        }
        i += 1;
    }
    true
}

/// The row ids that the tables hand out next, as they were stored.
#[derive(Clone, Copy, Debug)]
pub struct NextIds {
    pub priority: i32,
    pub normal: i32,
    pub message: i32,
}

impl Database {
    /// Whether the rows of a state meet the invariant.
    fn check(&self) -> (ok: bool)
        ensures
            ok == self.wf(),
    {
        ids_unique(self) && names_unique(self) && uuids_unique(self) && workspaces_sound(self)
            && published_once(self) && queue_sound(
            &self.priority_tasks,
            self.next_priority_id,
            true,
        ) && queue_sound(&self.normal_tasks, self.next_normal_id, false) && messages_sound(
            &self.message_tasks,
            self.next_message_id,
        ) && self.next_priority_id >= 1 && self.next_normal_id >= 1 && self.next_message_id >= 1
    }

    /// The state made of the rows of the five tables, as they were stored, and of the
    /// row ids that the tables hand out next. There is no state where the rows break
    /// the invariant.
    pub fn load(
        techniques: Vec<Technique>,
        workspaces: Vec<Workspace>,
        priority_tasks: Vec<Task>,
        normal_tasks: Vec<Task>,
        message_tasks: Vec<MessageTask>,
        next: NextIds,
    ) -> (db: Option<Database>)
        ensures
            match db {
                Some(db) => db.wf() && db@ == loaded(
                    techniques,
                    workspaces,
                    priority_tasks,
                    normal_tasks,
                    message_tasks,
                    next,
                ),
                None => !loaded(
                    techniques,
                    workspaces,
                    priority_tasks,
                    normal_tasks,
                    message_tasks,
                    next,
                ).wf(),
            },
    {
        let db = Database {
            techniques,
            workspaces,
            priority_tasks,
            normal_tasks,
            message_tasks,
            next_priority_id: next.priority,
            next_normal_id: next.normal,
            next_message_id: next.message,
        };
        if db.check() {
            Some(db)
        } else {
            None
        }
    }

    /// The row ids that the tables hand out next.
    pub fn next_ids(&self) -> (next: NextIds)
        ensures
            next.priority == self@.next_priority_id,
            next.normal == self@.next_normal_id,
            next.message == self@.next_message_id,
    {
        NextIds {
            priority: self.next_priority_id,
            normal: self.next_normal_id,
            message: self.next_message_id,
        }
    }
}

/// The content of a state that is made of the given rows.
pub open spec fn loaded(
    techniques: Vec<Technique>,
    workspaces: Vec<Workspace>,
    priority_tasks: Vec<Task>,
    normal_tasks: Vec<Task>,
    message_tasks: Vec<MessageTask>,
    next: NextIds,
) -> DatabaseView {
    DatabaseView {
        techniques: technique_views(techniques@),
        workspaces: workspace_views(workspaces@),
        priority_tasks: task_views(priority_tasks@),
        normal_tasks: task_views(normal_tasks@),
        message_tasks: message_views(message_tasks@),
        next_priority_id: next.priority as int,
        next_normal_id: next.normal as int,
        next_message_id: next.message as int,
    }
}

} // verus!
