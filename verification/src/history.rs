//! What holds of the state after any sequence of operations.

use crate::ci::ProjectInfoView;
use crate::info::TechniqueInfoView;
use crate::invariants::{
    lemma_add_workspace, lemma_at_most_one_published, lemma_empty_wf, lemma_enqueue,
    lemma_one_pending_per_class, lemma_pop_next_message, lemma_pop_next_task,
    lemma_publish_workspace_private, lemma_publish_workspace_public, lemma_push_msg_task,
    lemma_register, lemma_remove_workspace, lemma_short_name_identifies,
    lemma_unpublish_workspace,
};
use crate::model::{group_of, task_of, DatabaseView};
use crate::schema::TaskType;
use crate::seqs::count_where;
use vstd::prelude::*;

verus! {

/// One operation on the state, with its arguments. Where an operation reads the clock
/// or mints a uuid, the time and the uuid count among its arguments.
pub ghost enum Operation {
    Register { info: ProjectInfoView, tech: TechniqueInfoView },
    AddWorkspace { info: ProjectInfoView, uuid: Seq<char>, now: int },
    RemoveWorkspace { id: int, uuid: Seq<char> },
    PublishPrivate { info: ProjectInfoView, uuid: Seq<char>, now: int },
    PublishPublic { info: ProjectInfoView, uuid: Seq<char>, now: int },
    Unpublish { id: int },
    PushBuild { info: ProjectInfoView },
    PushRun { info: ProjectInfoView },
    PushPublish { info: ProjectInfoView, uuid: Seq<char> },
    PopTask,
    PushMessage { to: Seq<char>, subject: Seq<char>, text: Seq<char> },
    PopMessage,
}

/// The state after one operation, where `max` is the number of unpublished workspaces
/// that the system allows a technique.
pub open spec fn apply(v: DatabaseView, max: int, op: Operation) -> DatabaseView {
    match op {
        Operation::Register { info, tech } => v.register(info, tech).0,
        Operation::AddWorkspace { info, uuid, now } => v.add_workspace(info, max, uuid, now).0,
        Operation::RemoveWorkspace { id, uuid } => v.remove_workspace(id, uuid).0,
        Operation::PublishPrivate { info, uuid, now } => v.publish_workspace_private(
            info,
            uuid,
            now,
        ).0,
        Operation::PublishPublic { info, uuid, now } => v.publish_workspace_public(
            info,
            uuid,
            now,
        ).0,
        Operation::Unpublish { id } => v.unpublish_workspace(id).0,
        Operation::PushBuild { info } => v.push_build_task(info).0,
        Operation::PushRun { info } => v.push_run_task(info).0,
        Operation::PushPublish { info, uuid } => v.push_publish_task(info, uuid).0,
        Operation::PopTask => v.pop_next_task().0,
        Operation::PushMessage { to, subject, text } => v.push_msg_task(to, subject, text).0,
        Operation::PopMessage => v.pop_next_message().0,
    }
}

/// The state after a sequence of operations, carried out one after the other.
pub open spec fn run(v: DatabaseView, max: int, ops: Seq<Operation>) -> DatabaseView
    decreases ops.len(),
{
    if ops.len() == 0 {
        v
    } else {
        apply(run(v, max, ops.drop_last()), max, ops.last())
    }
}

/// Whether an operation keeps a technique within its capacity. Every operation does
/// but one: taking a technique off the public page gives it one more unpublished
/// workspace, whatever it holds already.
pub open spec fn keeps_capacity(v: DatabaseView, max: int, op: Operation) -> bool {
    match op {
        Operation::Unpublish { id } => v.unpublish_workspace(id).1 is Err || v.count_unpublished(
            id,
        ) < max,
        _ => true,
    }
}

/// One operation keeps the state well-formed, and keeps the group of each technique.
pub proof fn lemma_apply(v: DatabaseView, max: int, op: Operation)
    requires
        v.wf(),
    ensures
        apply(v, max, op).wf(),
        forall|id: int| #[trigger]
            v.registered(id) ==> apply(v, max, op).registered(id) && group_of(
                apply(v, max, op).techniques,
                id,
            ) == group_of(v.techniques, id),
        v.within_capacity(max) && keeps_capacity(v, max, op) ==> apply(
            v,
            max,
            op,
        ).within_capacity(max),
{
    match op {
        Operation::Register { info, tech } => {
            lemma_register(v, info, tech);
        },
        Operation::AddWorkspace { info, uuid, now } => {
            lemma_add_workspace(v, info, max, uuid, now);
        },
        Operation::RemoveWorkspace { id, uuid } => {
            lemma_remove_workspace(v, id, uuid);
        },
        Operation::PublishPrivate { info, uuid, now } => {
            lemma_publish_workspace_private(v, info, uuid, now);
        },
        Operation::PublishPublic { info, uuid, now } => {
            lemma_publish_workspace_public(v, info, uuid, now);
        },
        Operation::Unpublish { id } => {
            lemma_unpublish_workspace(v, id);
        },
        Operation::PushBuild { info } => {
            lemma_enqueue(v, TaskType::Build, info, None);
            lemma_same_workspaces(v, apply(v, max, op), max);
        },
        Operation::PushRun { info } => {
            lemma_enqueue(v, TaskType::RunBenchmark, info, None);
            lemma_same_workspaces(v, apply(v, max, op), max);
        },
        Operation::PushPublish { info, uuid } => {
            lemma_enqueue(v, TaskType::PublishResults, info, Some(uuid));
            lemma_same_workspaces(v, apply(v, max, op), max);
        },
        Operation::PopTask => {
            lemma_pop_next_task(v);
            lemma_same_workspaces(v, apply(v, max, op), max);
        },
        Operation::PushMessage { to, subject, text } => {
            lemma_push_msg_task(v, to, subject, text);
            lemma_same_workspaces(v, apply(v, max, op), max);
        },
        Operation::PopMessage => {
            lemma_pop_next_message(v);
            lemma_same_workspaces(v, apply(v, max, op), max);
        },
    }
}

/// A state with the same workspaces is within the same capacity.
proof fn lemma_same_workspaces(v: DatabaseView, n: DatabaseView, max: int)
    requires
        v.workspaces == n.workspaces,
    ensures
        v.within_capacity(max) ==> n.within_capacity(max),
{
    if v.within_capacity(max) {
        assert forall|id: int| #[trigger] n.count_unpublished(id) <= max by {
            assert(v.count_unpublished(id) <= max);
        }
    }
}

/// After any sequence of operations on a well-formed state, the state is well-formed:
/// no technique has two published workspaces, no two techniques share an id or a
/// short name, no two workspaces share a uuid, and no technique has two tasks
/// waiting in one class.
pub proof fn lemma_run_wf(v: DatabaseView, max: int, ops: Seq<Operation>)
    requires
        v.wf(),
    ensures
        run(v, max, ops).wf(),
        forall|id: int| #[trigger] run(v, max, ops).count_published(id) <= 1,
        forall|id: int| #[trigger]
            count_where(run(v, max, ops).priority_tasks, task_of(id)) <= 1 && count_where(
                run(v, max, ops).normal_tasks,
                task_of(id),
            ) <= 1,
        forall|i: int, j: int|
            0 <= i < run(v, max, ops).techniques.len() && 0 <= j < run(
                v,
                max,
                ops,
            ).techniques.len() ==> ((#[trigger] run(v, max, ops).techniques[i]).short_name == (
            #[trigger] run(v, max, ops).techniques[j]).short_name <==> i == j),
    decreases ops.len(),
{
    if ops.len() > 0 {
        lemma_run_wf(v, max, ops.drop_last());
        lemma_apply(run(v, max, ops.drop_last()), max, ops.last());
    }
    let n = run(v, max, ops);
    assert forall|id: int| #[trigger] n.count_published(id) <= 1 by {
        lemma_at_most_one_published(n, id);
    }
    assert forall|id: int| #[trigger]
        count_where(n.priority_tasks, task_of(id)) <= 1 && count_where(
            n.normal_tasks,
            task_of(id),
        ) <= 1 by {
        lemma_one_pending_per_class(n, id);
    }
    assert forall|i: int, j: int| 0 <= i < n.techniques.len() && 0 <= j < n.techniques.len() implies (
    (#[trigger] n.techniques[i]).short_name == (#[trigger] n.techniques[j]).short_name <==> i
        == j) by {
        lemma_short_name_identifies(n, i, j);
    }
}

/// After any sequence of operations from the empty state, the state is well-formed.
pub proof fn lemma_history_wf(max: int, ops: Seq<Operation>)
    ensures
        run(DatabaseView::empty(), max, ops).wf(),
        forall|id: int| #[trigger] run(DatabaseView::empty(), max, ops).count_published(id) <= 1,
{
    lemma_empty_wf(0);
    lemma_run_wf(DatabaseView::empty(), max, ops);
}

/// The group of a technique is fixed once it is registered: no sequence of operations
/// changes it, and none takes the technique out of the registry.
pub proof fn lemma_kind_fixed(v: DatabaseView, max: int, ops: Seq<Operation>, id: int)
    requires
        v.wf(),
        v.registered(id),
    ensures
        run(v, max, ops).registered(id),
        group_of(run(v, max, ops).techniques, id) == group_of(v.techniques, id),
    decreases ops.len(),
{
    if ops.len() > 0 {
        lemma_kind_fixed(v, max, ops.drop_last(), id);
        lemma_run_wf(v, max, ops.drop_last());
        lemma_apply(run(v, max, ops.drop_last()), max, ops.last());
    }
}

/// No technique ever holds more unpublished workspaces than the system allows, as long
/// as no technique is taken off the public page while it holds as many as allowed.
pub proof fn lemma_capacity(v: DatabaseView, max: int, ops: Seq<Operation>)
    requires
        v.wf(),
        v.within_capacity(max),
        forall|k: int|
            0 <= k < ops.len() ==> keeps_capacity(run(v, max, ops.take(k)), max, #[trigger] ops[k]),
    ensures
        run(v, max, ops).within_capacity(max),
        forall|id: int| #[trigger] run(v, max, ops).count_unpublished(id) <= max,
    decreases ops.len(),
{
    if ops.len() > 0 {
        let head = ops.drop_last();
        assert forall|k: int| 0 <= k < head.len() implies keeps_capacity(
            run(v, max, head.take(k)),
            max,
            #[trigger] head[k],
        ) by {
            assert(head.take(k) =~= ops.take(k));
            assert(head[k] == ops[k]);
        }
        lemma_capacity(v, max, head);
        lemma_run_wf(v, max, head);
        assert(ops.take(ops.len() - 1) =~= head);
        assert(keeps_capacity(run(v, max, head), max, ops[ops.len() - 1]));
        lemma_apply(run(v, max, head), max, ops.last());
    }
}

/// From the empty state on, no technique ever holds more unpublished workspaces than
/// the system allows, as long as no technique is taken off the public page while it
/// holds as many as allowed.
pub proof fn lemma_history_capacity(max: int, ops: Seq<Operation>)
    requires
        0 <= max,
        forall|k: int|
            0 <= k < ops.len() ==> keeps_capacity(
                run(DatabaseView::empty(), max, ops.take(k)),
                max,
                #[trigger] ops[k],
            ),
    ensures
        forall|id: int| #[trigger]
            run(DatabaseView::empty(), max, ops).count_unpublished(id) <= max,
{
    lemma_empty_wf(max);
    lemma_capacity(DatabaseView::empty(), max, ops);
}

} // verus!
