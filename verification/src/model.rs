//! The state of the system as mathematics: the rows of the tables as sequences, the
//! invariant that they meet, and what each operation makes of them.

use crate::ci::ProjectInfoView;
use crate::error::Error;
use crate::info::{TechniqueInfoView, TechniqueType};
use crate::schema::{
    MessageTaskView, Priority, TaskType, TaskView, TechniqueView, WorkspaceStatus, WorkspaceView,
};
use crate::seqs::{count_where, first_index, keep};
use vstd::prelude::*;

verus! {

/// The technique has the given id.
pub open spec fn with_id(id: int) -> spec_fn(TechniqueView) -> bool {
    |t: TechniqueView| t.id == id
}

/// The technique has the given short name and another id.
pub open spec fn named_by_other(name: Seq<char>, id: int) -> spec_fn(TechniqueView) -> bool {
    |t: TechniqueView| t.short_name == name && t.id != id
}

/// The workspace has the given uuid.
pub open spec fn with_uuid(uuid: Seq<char>) -> spec_fn(WorkspaceView) -> bool {
    |w: WorkspaceView| w.uuid == uuid
}

/// The workspace belongs to the technique.
pub open spec fn owned_by(id: int) -> spec_fn(WorkspaceView) -> bool {
    |w: WorkspaceView| w.technique_id == id
}

/// The workspace belongs to the technique and has the given uuid.
pub open spec fn slot(id: int, uuid: Seq<char>) -> spec_fn(WorkspaceView) -> bool {
    |w: WorkspaceView| w.technique_id == id && w.uuid == uuid
}

/// The workspace belongs to the technique and is published.
pub open spec fn published_of(id: int) -> spec_fn(WorkspaceView) -> bool {
    |w: WorkspaceView| w.technique_id == id && w.status == WorkspaceStatus::Published
}

/// The workspace belongs to the technique and is not published.
pub open spec fn unpublished_of(id: int) -> spec_fn(WorkspaceView) -> bool {
    |w: WorkspaceView| w.technique_id == id && w.status != WorkspaceStatus::Published
}

/// The workspace belongs to the technique and is finished.
pub open spec fn finished_of(id: int) -> spec_fn(WorkspaceView) -> bool {
    |w: WorkspaceView| w.technique_id == id && w.status == WorkspaceStatus::Finished
}

/// The task is for the technique.
pub open spec fn task_of(id: int) -> spec_fn(TaskView) -> bool {
    |t: TaskView| t.technique_id == id
}

/// The group of the technique with the given id, if it is among `techniques`.
pub open spec fn group_of(techniques: Seq<TechniqueView>, id: int) -> Option<TechniqueType> {
    match first_index(techniques, with_id(id)) {
        Some(i) => Some(techniques[i].technique_type),
        None => None,
    }
}

/// The workspace is published and its technique is of the group.
pub open spec fn published_in(techniques: Seq<TechniqueView>, group: TechniqueType) -> spec_fn(
    WorkspaceView,
) -> bool {
    |w: WorkspaceView|
        w.status == WorkspaceStatus::Published && group_of(techniques, w.technique_id) == Some(
            group,
        )
}

/// Seconds in a day.
pub open spec fn day_seconds() -> int {
    86400
}

/// The workspace is finished, its technique is of the group, and at time `now` it has been
/// finished for at least `days` days.
pub open spec fn stale_in(
    techniques: Seq<TechniqueView>,
    group: TechniqueType,
    days: int,
    now: int,
) -> spec_fn(WorkspaceView) -> bool {
    |w: WorkspaceView|
        w.status == WorkspaceStatus::Finished && group_of(techniques, w.technique_id) == Some(group)
            && w.finish_time is Some && w.finish_time->0 + days * day_seconds() <= now
}

/// The technique id and the uuid of a workspace.
pub open spec fn key_of(w: WorkspaceView) -> (int, Seq<char>) {
    (w.technique_id, w.uuid)
}

/// Technique id and uuid of each workspace that satisfies `p`, in table order.
pub open spec fn keys_where(workspaces: Seq<WorkspaceView>, p: spec_fn(WorkspaceView) -> bool)
    -> Seq<(int, Seq<char>)> {
    keep(workspaces, p).map_values(|w: WorkspaceView| key_of(w))
}

/// Uuid of each workspace that satisfies `p`, in table order.
pub open spec fn uuids_where(workspaces: Seq<WorkspaceView>, p: spec_fn(WorkspaceView) -> bool)
    -> Seq<Seq<char>> {
    keep(workspaces, p).map_values(|w: WorkspaceView| w.uuid)
}

/// A workspace as `publish_workspace_private` leaves it.
pub open spec fn finished_at(w: WorkspaceView, now: int) -> WorkspaceView {
    WorkspaceView { status: WorkspaceStatus::Finished, finish_time: Some(now), ..w }
}

/// A finished workspace as `publish_workspace_public` leaves it.
pub open spec fn published_at(w: WorkspaceView, now: int) -> WorkspaceView {
    WorkspaceView { status: WorkspaceStatus::Published, publication_time: Some(now), ..w }
}

/// A published workspace after it was taken off the public page: finished again, with
/// its time of publication cleared and its finish time kept.
pub open spec fn demoted(w: WorkspaceView) -> WorkspaceView {
    WorkspaceView { status: WorkspaceStatus::Finished, publication_time: None, ..w }
}

/// The row ids grow with the position, and all lie in `1..next`.
pub open spec fn tasks_ordered(queue: Seq<TaskView>, next: int) -> bool {
    &&& forall|i: int, j: int|
        #![trigger queue[i], queue[j]]
        0 <= i < j < queue.len() ==> queue[i].id < queue[j].id
    &&& forall|i: int| #![trigger queue[i]] 0 <= i < queue.len() ==> 1 <= queue[i].id < next
}

/// No technique has two tasks in the queue.
pub open spec fn one_task_per_technique(queue: Seq<TaskView>) -> bool {
    forall|i: int, j: int|
        #![trigger queue[i], queue[j]]
        0 <= i < j < queue.len() ==> queue[i].technique_id != queue[j].technique_id
}

/// Every task of the queue waits in the class of its kind.
pub open spec fn tasks_of_class(queue: Seq<TaskView>, class: Priority) -> bool {
    forall|i: int|
        #![trigger queue[i]]
        0 <= i < queue.len() ==> queue[i].task_type.spec_priority() == class
}

/// The row ids grow with the position, and all lie in `1..next`.
pub open spec fn messages_ordered(queue: Seq<MessageTaskView>, next: int) -> bool {
    &&& forall|i: int, j: int|
        #![trigger queue[i], queue[j]]
        0 <= i < j < queue.len() ==> queue[i].id < queue[j].id
    &&& forall|i: int| #![trigger queue[i]] 0 <= i < queue.len() ==> 1 <= queue[i].id < next
}

/// The largest row id that a table can hold.
pub open spec fn max_row_id() -> int {
    i32::MAX as int
}

/// The whole persisted state: the registry of techniques and workspaces, the two task
/// queues and the mail queue. Each sequence holds the rows of a table in the order
/// in which they were inserted.
pub ghost struct DatabaseView {
    pub techniques: Seq<TechniqueView>,
    pub workspaces: Seq<WorkspaceView>,
    pub priority_tasks: Seq<TaskView>,
    pub normal_tasks: Seq<TaskView>,
    pub message_tasks: Seq<MessageTaskView>,
    /// The row id that the next high task gets.
    pub next_priority_id: int,
    /// The row id that the next normal task gets.
    pub next_normal_id: int,
    /// The row id that the next message gets.
    pub next_message_id: int,
}

impl DatabaseView {
    /// The state before anything was registered or queued.
    pub open spec fn empty() -> DatabaseView {
        DatabaseView {
            techniques: Seq::empty(),
            workspaces: Seq::empty(),
            priority_tasks: Seq::empty(),
            normal_tasks: Seq::empty(),
            message_tasks: Seq::empty(),
            next_priority_id: 1,
            next_normal_id: 1,
            next_message_id: 1,
        }
    }

    /// No two techniques share an id.
    pub open spec fn ids_unique(self) -> bool {
        forall|i: int, j: int|
            #![trigger self.techniques[i], self.techniques[j]]
            0 <= i < j < self.techniques.len() ==> self.techniques[i].id != self.techniques[j].id
    }

    /// No two techniques share a short name.
    pub open spec fn names_unique(self) -> bool {
        forall|i: int, j: int|
            #![trigger self.techniques[i], self.techniques[j]]
            0 <= i < j < self.techniques.len() ==> self.techniques[i].short_name
                != self.techniques[j].short_name
    }

    /// No two workspaces share a uuid.
    pub open spec fn uuids_unique(self) -> bool {
        forall|i: int, j: int|
            #![trigger self.workspaces[i], self.workspaces[j]]
            0 <= i < j < self.workspaces.len() ==> self.workspaces[i].uuid
                != self.workspaces[j].uuid
    }

    /// Every workspace belongs to a registered technique.
    pub open spec fn workspaces_owned(self) -> bool {
        forall|i: int|
            #![trigger self.workspaces[i]]
            0 <= i < self.workspaces.len() ==> self.registered(self.workspaces[i].technique_id)
    }

    /// No technique has two published workspaces.
    pub open spec fn published_at_most_once(self) -> bool {
        forall|i: int, j: int|
            #![trigger self.workspaces[i], self.workspaces[j]]
            0 <= i < j < self.workspaces.len() && self.workspaces[i].technique_id
                == self.workspaces[j].technique_id ==> !(self.workspaces[i].status
                == WorkspaceStatus::Published && self.workspaces[j].status
                == WorkspaceStatus::Published)
    }

    /// A workspace has a finish time exactly when it is finished or published, and a
    /// time of publication exactly when it is published.
    pub open spec fn times_match_status(self) -> bool {
        forall|i: int|
            #![trigger self.workspaces[i]]
            0 <= i < self.workspaces.len() ==> {
                let w = self.workspaces[i];
                &&& w.finish_time is Some <==> w.status != WorkspaceStatus::New
                &&& w.publication_time is Some <==> w.status == WorkspaceStatus::Published
            }
    }

    /// The invariant of the registry.
    pub open spec fn registry_wf(self) -> bool {
        &&& self.ids_unique()
        &&& self.names_unique()
        &&& self.uuids_unique()
        &&& self.workspaces_owned()
        &&& self.published_at_most_once()
        &&& self.times_match_status()
    }

    /// The invariant of the task queues and of the mail queue.
    pub open spec fn queues_wf(self) -> bool {
        &&& tasks_ordered(self.priority_tasks, self.next_priority_id)
        &&& tasks_ordered(self.normal_tasks, self.next_normal_id)
        &&& one_task_per_technique(self.priority_tasks)
        &&& one_task_per_technique(self.normal_tasks)
        &&& tasks_of_class(self.priority_tasks, Priority::High)
        &&& tasks_of_class(self.normal_tasks, Priority::Normal)
        &&& messages_ordered(self.message_tasks, self.next_message_id)
        &&& 1 <= self.next_priority_id <= max_row_id()
        &&& 1 <= self.next_normal_id <= max_row_id()
        &&& 1 <= self.next_message_id <= max_row_id()
    }

    /// The invariant of the whole state.
    pub open spec fn wf(self) -> bool {
        self.registry_wf() && self.queues_wf()
    }

    /// No technique holds more than `max` unpublished workspaces.
    pub open spec fn within_capacity(self, max: int) -> bool {
        forall|id: int| #[trigger] self.count_unpublished(id) <= max
    }

    /// Position of the technique with the given id.
    pub open spec fn technique_index(self, id: int) -> Option<int> {
        first_index(self.techniques, with_id(id))
    }

    /// Whether a technique with the given id is registered.
    pub open spec fn registered(self, id: int) -> bool {
        self.technique_index(id) is Some
    }

    /// Position of the workspace of the technique with the given uuid.
    pub open spec fn workspace_index(self, id: int, uuid: Seq<char>) -> Option<int> {
        first_index(self.workspaces, slot(id, uuid))
    }

    /// Position of the published workspace of the technique.
    pub open spec fn published_index(self, id: int) -> Option<int> {
        first_index(self.workspaces, published_of(id))
    }

    /// Number of workspaces of the technique.
    pub open spec fn num_workspaces(self, id: int) -> nat {
        count_where(self.workspaces, owned_by(id))
    }

    /// Number of workspaces of the technique that are new or finished.
    pub open spec fn count_unpublished(self, id: int) -> nat {
        count_where(self.workspaces, unpublished_of(id))
    }

    /// Number of published workspaces of the technique.
    pub open spec fn count_published(self, id: int) -> nat {
        count_where(self.workspaces, published_of(id))
    }

    /// Registers a technique, or updates the descriptive fields of a registered one. The
    /// group of a registered technique stays as it is.
    pub open spec fn register(self, info: ProjectInfoView, tech: TechniqueInfoView) -> (
        DatabaseView,
        Result<(), Error>,
    ) {
        if !tech.versions_allowed() {
            (self, Err(Error::InvalidInfoFile))
        } else if first_index(self.techniques, named_by_other(tech.short_name, info.id))
            is Some {
            (self, Err(Error::NameAlreadyExists))
        } else {
            match self.technique_index(info.id) {
                Some(i) => (
                    DatabaseView {
                        techniques: self.techniques.update(
                            i,
                            TechniqueView {
                                short_name: tech.short_name,
                                full_name: tech.full_name,
                                citation: tech.citation,
                                comment: tech.comment,
                                ..self.techniques[i]
                            },
                        ),
                        ..self
                    },
                    Ok(()),
                ),
                None => (
                    DatabaseView {
                        techniques: self.techniques.push(
                            TechniqueView {
                                id: info.id,
                                technique_type: tech.technique_type,
                                short_name: tech.short_name,
                                full_name: tech.full_name,
                                citation: tech.citation,
                                comment: tech.comment,
                            },
                        ),
                        ..self
                    },
                    Ok(()),
                ),
            }
        }
    }

    /// The group of a technique.
    pub open spec fn technique_type(self, id: int) -> Result<TechniqueType, Error> {
        match group_of(self.techniques, id) {
            Some(group) => Ok(group),
            None => Err(Error::NotRegistered),
        }
    }

    /// Adds a new workspace with the given uuid, created at `now`, unless the technique
    /// already holds `max` unpublished ones.
    pub open spec fn add_workspace(
        self,
        info: ProjectInfoView,
        max: int,
        uuid: Seq<char>,
        now: int,
    ) -> (DatabaseView, Result<Seq<char>, Error>) {
        if !self.registered(info.id) {
            (self, Err(Error::NotRegistered))
        } else if self.count_unpublished(info.id) >= max {
            (self, Err(Error::MaxWorkspacesExceeded))
        } else if first_index(self.workspaces, with_uuid(uuid)) is Some {
            (self, Err(Error::Unspecified))
        } else {
            (
                DatabaseView {
                    workspaces: self.workspaces.push(
                        WorkspaceView {
                            technique_id: info.id,
                            uuid,
                            commit_sha: info.commit_sha,
                            docker_image: info.docker_img,
                            status: WorkspaceStatus::New,
                            creation_time: now,
                            finish_time: None,
                            publication_time: None,
                        },
                    ),
                    ..self
                },
                Ok(uuid),
            )
        }
    }

    /// Deletes a workspace of the technique.
    pub open spec fn remove_workspace(self, id: int, uuid: Seq<char>) -> (
        DatabaseView,
        Result<(), Error>,
    ) {
        if !self.registered(id) {
            (self, Err(Error::NotRegistered))
        } else {
            match self.workspace_index(id, uuid) {
                None => (self, Err(Error::Unspecified)),
                Some(i) => (DatabaseView { workspaces: self.workspaces.remove(i), ..self }, Ok(())),
            }
        }
    }

    /// Marks a new or finished workspace as finished at `now`.
    pub open spec fn publish_workspace_private(
        self,
        info: ProjectInfoView,
        uuid: Seq<char>,
        now: int,
    ) -> (DatabaseView, Result<(), Error>) {
        if !self.registered(info.id) {
            (self, Err(Error::NotRegistered))
        } else {
            match self.workspace_index(info.id, uuid) {
                None => (self, Err(Error::Unspecified)),
                Some(i) => if self.workspaces[i].status == WorkspaceStatus::Published {
                    (self, Err(Error::Unspecified))
                } else {
                    (
                        DatabaseView {
                            workspaces: self.workspaces.update(
                                i,
                                finished_at(self.workspaces[i], now),
                            ),
                            ..self
                        },
                        Ok(()),
                    )
                },
            }
        }
    }

    /// The workspaces after the published one of the technique, if there is one, was
    /// taken off the public page.
    pub open spec fn demote_published(self, id: int) -> Seq<WorkspaceView> {
        match self.published_index(id) {
            Some(j) => self.workspaces.update(j, demoted(self.workspaces[j])),
            None => self.workspaces,
        }
    }

    /// Publishes a finished workspace at `now`, in place of the workspace of the same
    /// technique that was published before, if there was one.
    pub open spec fn publish_workspace_public(
        self,
        info: ProjectInfoView,
        uuid: Seq<char>,
        now: int,
    ) -> (DatabaseView, Result<(), Error>) {
        if !self.registered(info.id) {
            (self, Err(Error::NotRegistered))
        } else {
            match self.workspace_index(info.id, uuid) {
                None => (self, Err(Error::Unspecified)),
                Some(i) => match self.workspaces[i].status {
                    WorkspaceStatus::Published => (self, Err(Error::AlreadyPublished)),
                    WorkspaceStatus::New => (self, Err(Error::Unspecified)),
                    WorkspaceStatus::Finished => (
                        DatabaseView {
                            workspaces: self.demote_published(info.id).update(
                                i,
                                published_at(self.workspaces[i], now),
                            ),
                            ..self
                        },
                        Ok(()),
                    ),
                },
            }
        }
    }

    /// Takes the published workspace of the technique off the public page, and gives
    /// the group of the technique and the uuid of that workspace.
    pub open spec fn unpublish_workspace(self, id: int) -> (
        DatabaseView,
        Result<(TechniqueType, Seq<char>), Error>,
    ) {
        match self.technique_index(id) {
            None => (self, Err(Error::NotRegistered)),
            Some(t) => match self.published_index(id) {
                None => (self, Err(Error::Unspecified)),
                Some(j) => (
                    DatabaseView { workspaces: self.demote_published(id), ..self },
                    Ok((self.techniques[t].technique_type, self.workspaces[j].uuid)),
                ),
            },
        }
    }

    /// Technique id and uuid of each published workspace of the group, in table order.
    pub open spec fn get_published(self, group: TechniqueType) -> Seq<(int, Seq<char>)> {
        keys_where(self.workspaces, published_in(self.techniques, group))
    }

    /// Uuid of each finished workspace of the technique, in table order.
    pub open spec fn get_unpublished(self, id: int) -> Result<Seq<Seq<char>>, Error> {
        if !self.registered(id) {
            Err(Error::Unspecified)
        } else {
            Ok(uuids_where(self.workspaces, finished_of(id)))
        }
    }

    /// Technique id and uuid of each workspace of the group that at `now` has been
    /// finished for at least `days` days, in table order.
    pub open spec fn get_unpub_older_than(self, group: TechniqueType, days: int, now: int) -> Seq<
        (int, Seq<char>),
    > {
        keys_where(self.workspaces, stale_in(self.techniques, group, days, now))
    }

    /// Queues a task of the given kind for the technique, in the class of that kind,
    /// unless the technique already has a task waiting in that class. The task keeps
    /// the address of the user of the job.
    pub open spec fn enqueue(self, kind: TaskType, info: ProjectInfoView, data: Option<Seq<char>>)
        -> (DatabaseView, Result<(), Error>) {
        let high = kind.spec_priority() == Priority::High;
        let queue = if high {
            self.priority_tasks
        } else {
            self.normal_tasks
        };
        let next = if high {
            self.next_priority_id
        } else {
            self.next_normal_id
        };
        if !self.registered(info.id) {
            (self, Err(Error::NotRegistered))
        } else if first_index(queue, task_of(info.id)) is Some {
            (self, Err(Error::Unspecified))
        } else if next >= max_row_id() {
            (self, Err(Error::Unspecified))
        } else {
            let task = TaskView {
                id: next,
                technique_id: info.id,
                commit_sha: info.commit_sha,
                docker_img: info.docker_img,
                task_type: kind,
                task_data: data,
                user_email: info.user_email,
            };
            if high {
                (
                    DatabaseView {
                        priority_tasks: queue.push(task),
                        next_priority_id: next + 1,
                        ..self
                    },
                    Ok(()),
                )
            } else {
                (
                    DatabaseView { normal_tasks: queue.push(task), next_normal_id: next + 1, ..self },
                    Ok(()),
                )
            }
        }
    }

    /// Queues a build of the technique.
    pub open spec fn push_build_task(self, info: ProjectInfoView) -> (
        DatabaseView,
        Result<(), Error>,
    ) {
        self.enqueue(TaskType::Build, info, None)
    }

    /// Queues a benchmark run of the technique.
    pub open spec fn push_run_task(self, info: ProjectInfoView) -> (
        DatabaseView,
        Result<(), Error>,
    ) {
        self.enqueue(TaskType::RunBenchmark, info, None)
    }

    /// Queues the publication of the workspace with the given uuid.
    pub open spec fn push_publish_task(self, info: ProjectInfoView, uuid: Seq<char>) -> (
        DatabaseView,
        Result<(), Error>,
    ) {
        self.enqueue(TaskType::PublishResults, info, Some(uuid))
    }

    /// Takes the oldest high task, or where there is none the oldest normal task.
    pub open spec fn pop_next_task(self) -> (DatabaseView, Option<TaskView>) {
        if self.priority_tasks.len() > 0 {
            (
                DatabaseView { priority_tasks: self.priority_tasks.drop_first(), ..self },
                Some(self.priority_tasks[0]),
            )
        } else if self.normal_tasks.len() > 0 {
            (
                DatabaseView { normal_tasks: self.normal_tasks.drop_first(), ..self },
                Some(self.normal_tasks[0]),
            )
        } else {
            (self, None)
        }
    }

    /// Queues an e-mail.
    pub open spec fn push_msg_task(self, to: Seq<char>, subject: Seq<char>, text: Seq<char>) -> (
        DatabaseView,
        Result<(), Error>,
    ) {
        if self.next_message_id >= max_row_id() {
            (self, Err(Error::Unspecified))
        } else {
            (
                DatabaseView {
                    message_tasks: self.message_tasks.push(
                        MessageTaskView {
                            id: self.next_message_id,
                            to_address: to,
                            subject,
                            text,
                        },
                    ),
                    next_message_id: self.next_message_id + 1,
                    ..self
                },
                Ok(()),
            )
        }
    }

    /// The oldest e-mail that waits, if any.
    pub open spec fn read_next_message(self) -> Option<MessageTaskView> {
        if self.message_tasks.len() > 0 {
            Some(self.message_tasks[0])
        } else {
            None
        }
    }

    /// Drops the oldest e-mail that waits.
    pub open spec fn pop_next_message(self) -> (DatabaseView, Result<(), Error>) {
        if self.message_tasks.len() > 0 {
            (DatabaseView { message_tasks: self.message_tasks.drop_first(), ..self }, Ok(()))
        } else {
            (self, Err(Error::Unspecified))
        }
    }
}

/// The keys over a prefix that grows by one row.
pub proof fn lemma_keys_step(
    workspaces: Seq<WorkspaceView>,
    p: spec_fn(WorkspaceView) -> bool,
    i: int,
)
    requires
        0 <= i < workspaces.len(),
    ensures
        keys_where(workspaces.take(i + 1), p) == if p(workspaces[i]) {
            keys_where(workspaces.take(i), p).push(key_of(workspaces[i]))
        } else {
            keys_where(workspaces.take(i), p)
        },
        keys_where(workspaces.take(0), p) == Seq::<(int, Seq<char>)>::empty(),
{
    crate::seqs::lemma_keep_step(workspaces, p, i);
    if p(workspaces[i]) {
        assert(keys_where(workspaces.take(i + 1), p) =~= keys_where(workspaces.take(i), p).push(
            key_of(workspaces[i]),
        ));
    }
    assert(keys_where(workspaces.take(0), p) =~= Seq::<(int, Seq<char>)>::empty());
}

/// The uuids over a prefix that grows by one row.
pub proof fn lemma_uuids_step(
    workspaces: Seq<WorkspaceView>,
    p: spec_fn(WorkspaceView) -> bool,
    i: int,
)
    requires
        0 <= i < workspaces.len(),
    ensures
        uuids_where(workspaces.take(i + 1), p) == if p(workspaces[i]) {
            uuids_where(workspaces.take(i), p).push(workspaces[i].uuid)
        } else {
            uuids_where(workspaces.take(i), p)
        },
        uuids_where(workspaces.take(0), p) == Seq::<Seq<char>>::empty(),
{
    crate::seqs::lemma_keep_step(workspaces, p, i);
    if p(workspaces[i]) {
        assert(uuids_where(workspaces.take(i + 1), p) =~= uuids_where(workspaces.take(i), p).push(
            workspaces[i].uuid,
        ));
    }
    assert(uuids_where(workspaces.take(0), p) =~= Seq::<Seq<char>>::empty());
}

/// Over no rows there are no keys and no uuids.
pub proof fn lemma_keys_take_all(workspaces: Seq<WorkspaceView>, p: spec_fn(WorkspaceView) -> bool)
    ensures
        keys_where(workspaces.take(0), p) == Seq::<(int, Seq<char>)>::empty(),
        uuids_where(workspaces.take(0), p) == Seq::<Seq<char>>::empty(),
{
    assert(keys_where(workspaces.take(0), p) =~= Seq::<(int, Seq<char>)>::empty());
    assert(uuids_where(workspaces.take(0), p) =~= Seq::<Seq<char>>::empty());
}

} // verus!
