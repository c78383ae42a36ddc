//! What every operation keeps: the invariant of the state, the capacity of a
//! technique, and the group of a technique.

use crate::ci::ProjectInfoView;
use crate::info::{TechniqueInfoView, TechniqueType};
use crate::model::{
    demoted, finished_at, group_of, named_by_other, published_at, published_of, slot,
    unpublished_of, with_id, with_uuid, DatabaseView,
};
use crate::model::{max_row_id, task_of};
use crate::schema::{Priority, TaskType, WorkspaceStatus, WorkspaceView};
use crate::seqs::{
    count_where, first_index, lemma_count_at_most_one, lemma_count_push, lemma_count_remove,
    lemma_count_update, lemma_first_index,
};
use vstd::prelude::*;

verus! {

/// Two registered techniques with the same short name are the same technique: the
/// short name determines the id, as the id determines the short name.
pub proof fn lemma_short_name_identifies(v: DatabaseView, i: int, j: int)
    requires
        v.wf(),
        0 <= i < v.techniques.len(),
        0 <= j < v.techniques.len(),
    ensures
        v.techniques[i].short_name == v.techniques[j].short_name <==> i == j,
        v.techniques[i].id == v.techniques[j].id <==> i == j,
{
    if i < j {
        assert(v.techniques[i].id != v.techniques[j].id);
        assert(v.techniques[i].short_name != v.techniques[j].short_name);
    } else if j < i {
        assert(v.techniques[j].id != v.techniques[i].id);
        assert(v.techniques[j].short_name != v.techniques[i].short_name);
    }
}

/// In a well-formed registry every technique has at most one published workspace.
pub proof fn lemma_at_most_one_published(v: DatabaseView, id: int)
    requires
        v.wf(),
    ensures
        v.count_published(id) <= 1,
        v.count_published(id) == 1 <==> v.published_index(id) is Some,
{
    let p = published_of(id);
    assert forall|i: int, j: int| 0 <= i < j < v.workspaces.len() implies !(p(v.workspaces[i])
        && p(v.workspaces[j])) by {
        if p(v.workspaces[i]) && p(v.workspaces[j]) {
            assert(v.workspaces[i].technique_id == v.workspaces[j].technique_id);
        }
    }
    lemma_count_at_most_one(v.workspaces, p);
    lemma_first_index(v.workspaces, p);
}

/// The empty state is well-formed and within any capacity that is not negative.
pub proof fn lemma_empty_wf(max: int)
    requires
        0 <= max,
    ensures
        DatabaseView::empty().wf(),
        DatabaseView::empty().within_capacity(max),
{
    let v = DatabaseView::empty();
    assert forall|id: int| #[trigger] v.count_unpublished(id) <= max by {}
}

/// Registration keeps the state well-formed, leaves every workspace and queue as it
/// was, and never changes the group of a technique that was registered before.
pub proof fn lemma_register(v: DatabaseView, info: ProjectInfoView, tech: TechniqueInfoView)
    requires
        v.wf(),
    ensures
        v.register(info, tech).0.wf(),
        v.register(info, tech).1 is Err ==> v.register(info, tech).0 == v,
        v.register(info, tech).1 is Ok ==> v.register(info, tech).0.registered(info.id),
        forall|id: int| #[trigger]
            v.registered(id) ==> group_of(v.register(info, tech).0.techniques, id) == group_of(
                v.techniques,
                id,
            ),
        forall|id: int| #[trigger]
            v.registered(id) ==> v.register(info, tech).0.registered(id),
        forall|max: int| #[trigger]
            v.within_capacity(max) ==> v.register(info, tech).0.within_capacity(max),
{
    let n = v.register(info, tech).0;
    lemma_first_index(v.techniques, named_by_other(tech.short_name, info.id));
    lemma_first_index(v.techniques, with_id(info.id));
    assert forall|id: int| #[trigger] v.registered(id) implies group_of(n.techniques, id)
        == group_of(v.techniques, id) && n.registered(id) by {
        lemma_first_index(v.techniques, with_id(id));
        lemma_first_index(n.techniques, with_id(id));
        let k = v.technique_index(id)->0;
        assert(v.techniques[k].id == id);
        if n != v {
            assert(n.techniques[k].id == id);
            assert(n.techniques[k].technique_type == v.techniques[k].technique_type);
            let m = n.technique_index(id)->0;
            if m != k {
                assert(n.techniques[m].id == id);
                if m < v.techniques.len() {
                    assert(v.techniques[m].id == id);
                }
            }
        }
    }
    if v.register(info, tech).1 is Ok {
        lemma_first_index(n.techniques, with_id(info.id));
        match v.technique_index(info.id) {
            Some(i) => {
                assert(n.techniques[i].id == info.id);
            },
            None => {
                assert(n.techniques[n.techniques.len() - 1].id == info.id);
            },
        }
        assert(n.workspaces_owned()) by {
            assert forall|i: int| 0 <= i < n.workspaces.len() implies n.registered(
                #[trigger] n.workspaces[i].technique_id,
            ) by {
                assert(v.registered(v.workspaces[i].technique_id));
            }
        }
    }
    assert forall|max: int| #[trigger] v.within_capacity(max) implies n.within_capacity(max) by {
        assert forall|id: int| #[trigger] n.count_unpublished(id) <= max by {
            assert(v.count_unpublished(id) <= max);
        }
    }
}

/// Adding a workspace keeps the state well-formed and within the capacity that it was
/// added under, and on success gives the technique one more workspace, a new one.
pub proof fn lemma_add_workspace(
    v: DatabaseView,
    info: ProjectInfoView,
    max: int,
    uuid: Seq<char>,
    now: int,
)
    requires
        v.wf(),
    ensures
        v.add_workspace(info, max, uuid, now).0.wf(),
        v.within_capacity(max) ==> v.add_workspace(info, max, uuid, now).0.within_capacity(max),
        v.add_workspace(info, max, uuid, now).1 is Err ==> v.add_workspace(info, max, uuid, now).0
            == v,
        v.add_workspace(info, max, uuid, now).1 is Ok ==> {
            let n = v.add_workspace(info, max, uuid, now).0;
            &&& n.num_workspaces(info.id) == v.num_workspaces(info.id) + 1
            &&& n.count_unpublished(info.id) == v.count_unpublished(info.id) + 1
            &&& n.workspace_index(info.id, uuid) == Some(v.workspaces.len() as int)
            &&& n.workspaces.last().status == WorkspaceStatus::New
        },
{
    let n = v.add_workspace(info, max, uuid, now).0;
    if v.add_workspace(info, max, uuid, now).1 is Ok {
        let w = n.workspaces.last();
        lemma_first_index(v.workspaces, with_uuid(uuid));
        lemma_count_push(v.workspaces, crate::model::owned_by(info.id), w);
        lemma_count_push(v.workspaces, unpublished_of(info.id), w);
        lemma_first_index(n.workspaces, slot(info.id, uuid));
        assert(n.workspaces[v.workspaces.len() as int] == w);
        let k = n.workspace_index(info.id, uuid)->0;
        if k < v.workspaces.len() {
            assert(v.workspaces[k].uuid == uuid);
        }
        assert(n.uuids_unique());
        assert(n.published_at_most_once());
        if v.within_capacity(max) {
            assert forall|id: int| #[trigger] n.count_unpublished(id) <= max by {
                lemma_count_push(v.workspaces, unpublished_of(id), w);
                assert(v.count_unpublished(id) <= max);
            }
        }
    }
}

/// Removing a workspace keeps the state well-formed and within capacity, and on
/// success leaves the technique with one workspace fewer.
pub proof fn lemma_remove_workspace(v: DatabaseView, id: int, uuid: Seq<char>)
    requires
        v.wf(),
    ensures
        v.remove_workspace(id, uuid).0.wf(),
        forall|max: int| #[trigger]
            v.within_capacity(max) ==> v.remove_workspace(id, uuid).0.within_capacity(max),
        v.remove_workspace(id, uuid).1 is Err ==> v.remove_workspace(id, uuid).0 == v,
        v.remove_workspace(id, uuid).1 is Ok ==> {
            let n = v.remove_workspace(id, uuid).0;
            &&& n.num_workspaces(id) + 1 == v.num_workspaces(id)
            &&& n.workspace_index(id, uuid) is None
        },
{
    let n = v.remove_workspace(id, uuid).0;
    if v.remove_workspace(id, uuid).1 is Ok {
        lemma_first_index(v.workspaces, slot(id, uuid));
        let i = v.workspace_index(id, uuid)->0;
        lemma_count_remove(v.workspaces, crate::model::owned_by(id), i);
        assert forall|a: int| 0 <= a < n.workspaces.len() implies #[trigger] n.workspaces[a] == (
        if a < i {
            v.workspaces[a]
        } else {
            v.workspaces[a + 1]
        }) by {}
        assert(n.uuids_unique()) by {
            assert forall|a: int, b: int| 0 <= a < b < n.workspaces.len() implies (
            #[trigger] n.workspaces[a]).uuid != (#[trigger] n.workspaces[b]).uuid by {
                let a0 = if a < i { a } else { a + 1 };
                let b0 = if b < i { b } else { b + 1 };
                assert(v.workspaces[a0].uuid != v.workspaces[b0].uuid);
            }
        }
        assert(n.workspaces_owned()) by {
            assert forall|a: int| 0 <= a < n.workspaces.len() implies n.registered(
                (#[trigger] n.workspaces[a]).technique_id,
            ) by {
                let a0 = if a < i { a } else { a + 1 };
                assert(v.registered(v.workspaces[a0].technique_id));
            }
        }
        assert(n.published_at_most_once()) by {
            assert forall|a: int, b: int|
                0 <= a < b < n.workspaces.len() && (#[trigger] n.workspaces[a]).technique_id == (
                #[trigger] n.workspaces[b]).technique_id implies !(n.workspaces[a].status
                == WorkspaceStatus::Published && n.workspaces[b].status
                == WorkspaceStatus::Published) by {
                let a0 = if a < i { a } else { a + 1 };
                let b0 = if b < i { b } else { b + 1 };
                assert(v.workspaces[a0].technique_id == v.workspaces[b0].technique_id);
            }
        }
        assert(n.times_match_status()) by {
            assert forall|a: int| 0 <= a < n.workspaces.len() implies {
                let w = #[trigger] n.workspaces[a];
                &&& w.finish_time is Some <==> w.status != WorkspaceStatus::New
                &&& w.publication_time is Some <==> w.status == WorkspaceStatus::Published
            } by {
                let a0 = if a < i { a } else { a + 1 };
                assert(n.workspaces[a] == v.workspaces[a0]);
            }
        }
        lemma_first_index(n.workspaces, slot(id, uuid));
        if n.workspace_index(id, uuid) is Some {
            let k = n.workspace_index(id, uuid)->0;
            let k0 = if k < i { k } else { k + 1 };
            assert(v.workspaces[k0].uuid == v.workspaces[i].uuid);
        }
        assert forall|max: int| #[trigger] v.within_capacity(max) implies n.within_capacity(
            max,
        ) by {
            assert forall|t: int| #[trigger] n.count_unpublished(t) <= max by {
                lemma_count_remove(v.workspaces, unpublished_of(t), i);
                assert(v.count_unpublished(t) <= max);
            }
        }
    }
}

/// Whether a row is what one of the changes of status makes of another: the row
/// itself; a published row, taken off the public page; a row that was not published,
/// finished at `now`; or a finished row, published at `now`.
pub open spec fn moved(old_row: WorkspaceView, new_row: WorkspaceView, now: int) -> bool {
    ||| new_row == old_row
    ||| old_row.status == WorkspaceStatus::Published && new_row == demoted(old_row)
    ||| old_row.status != WorkspaceStatus::Published && new_row == finished_at(old_row, now)
    ||| old_row.status == WorkspaceStatus::Finished && new_row == published_at(old_row, now)
}

/// Rows that change their status, each for itself, still belong to registered
/// techniques, still have uuids of their own, and still have the times that go with
/// their status.
proof fn lemma_rows_kept(v: DatabaseView, n: DatabaseView, now: int)
    requires
        v.wf(),
        n.techniques == v.techniques,
        n.workspaces.len() == v.workspaces.len(),
        forall|a: int|
            0 <= a < v.workspaces.len() ==> moved(v.workspaces[a], #[trigger] n.workspaces[a], now),
    ensures
        n.workspaces_owned(),
        n.uuids_unique(),
        n.times_match_status(),
        forall|a: int|
            0 <= a < v.workspaces.len() ==> (#[trigger] n.workspaces[a]).technique_id
                == v.workspaces[a].technique_id,
{
    assert forall|a: int| 0 <= a < n.workspaces.len() implies n.registered(
        (#[trigger] n.workspaces[a]).technique_id,
    ) by {
        assert(v.registered(v.workspaces[a].technique_id));
    }
    assert forall|a: int, b: int| 0 <= a < b < n.workspaces.len() implies (
    #[trigger] n.workspaces[a]).uuid != (#[trigger] n.workspaces[b]).uuid by {
        assert(v.workspaces[a].uuid != v.workspaces[b].uuid);
    }
    assert forall|a: int| 0 <= a < n.workspaces.len() implies {
        let x = #[trigger] n.workspaces[a];
        &&& x.finish_time is Some <==> x.status != WorkspaceStatus::New
        &&& x.publication_time is Some <==> x.status == WorkspaceStatus::Published
    } by {
        let y = v.workspaces[a];
        assert(moved(y, n.workspaces[a], now));
        assert(y.publication_time is Some <==> y.status == WorkspaceStatus::Published);
        assert(y.finish_time is Some <==> y.status != WorkspaceStatus::New);
    }
}

/// A queue without its first task is a queue still: in order, one task for each
/// technique, all of one class. The task that left had the smallest row id.
proof fn lemma_queue_drop_first(queue: Seq<crate::schema::TaskView>, next: int, class: Priority)
    requires
        queue.len() > 0,
        crate::model::tasks_ordered(queue, next),
        crate::model::one_task_per_technique(queue),
        crate::model::tasks_of_class(queue, class),
    ensures
        crate::model::tasks_ordered(queue.drop_first(), next),
        crate::model::one_task_per_technique(queue.drop_first()),
        crate::model::tasks_of_class(queue.drop_first(), class),
        queue == seq![queue[0]] + queue.drop_first(),
        forall|i: int|
            0 <= i < queue.drop_first().len() ==> queue[0].id < (
            #[trigger] queue.drop_first()[i]).id,
{
    let r = queue.drop_first();
    assert(queue =~= seq![queue[0]] + r);
    assert forall|i: int| 0 <= i < r.len() implies #[trigger] r[i] == queue[i + 1] by {}
    assert forall|i: int| 0 <= i < r.len() implies queue[0].id < (#[trigger] r[i]).id by {
        assert(queue[0].id < queue[i + 1].id);
    }
    assert forall|i: int, j: int| 0 <= i < j < r.len() implies (#[trigger] r[i]).id < (
    #[trigger] r[j]).id && r[i].technique_id != r[j].technique_id by {
        assert(queue[i + 1].id < queue[j + 1].id);
        assert(queue[i + 1].technique_id != queue[j + 1].technique_id);
    }
    assert forall|i: int| 0 <= i < r.len() implies 1 <= (#[trigger] r[i]).id < next
        && r[i].task_type.spec_priority() == class by {
        assert(1 <= queue[i + 1].id);
        assert(queue[i + 1].task_type.spec_priority() == class);
    }
}

/// Publishing privately keeps the state well-formed and within capacity, and on success
/// leaves the workspace finished at `now`.
pub proof fn lemma_publish_workspace_private(
    v: DatabaseView,
    info: ProjectInfoView,
    uuid: Seq<char>,
    now: int,
)
    requires
        v.wf(),
    ensures
        v.publish_workspace_private(info, uuid, now).0.wf(),
        forall|max: int| #[trigger]
            v.within_capacity(max) ==> v.publish_workspace_private(
                info,
                uuid,
                now,
            ).0.within_capacity(max),
        v.publish_workspace_private(info, uuid, now).1 is Err ==> v.publish_workspace_private(
            info,
            uuid,
            now,
        ).0 == v,
        v.publish_workspace_private(info, uuid, now).1 is Ok ==> {
            let n = v.publish_workspace_private(info, uuid, now).0;
            let i = v.workspace_index(info.id, uuid)->0;
            &&& n.workspace_index(info.id, uuid) == Some(i)
            &&& n.workspaces[i].status == WorkspaceStatus::Finished
            &&& n.workspaces[i].finish_time == Some(now)
        },
{
    let n = v.publish_workspace_private(info, uuid, now).0;
    if v.publish_workspace_private(info, uuid, now).1 is Ok {
        lemma_first_index(v.workspaces, slot(info.id, uuid));
        let i = v.workspace_index(info.id, uuid)->0;
        let w = finished_at(v.workspaces[i], now);
        assert forall|a: int| 0 <= a < n.workspaces.len() implies #[trigger] n.workspaces[a] == (
        if a == i {
            w
        } else {
            v.workspaces[a]
        }) by {}
        lemma_rows_kept(v, n, now);
        assert(n.published_at_most_once()) by {
            assert forall|a: int, b: int|
                0 <= a < b < n.workspaces.len() && (#[trigger] n.workspaces[a]).technique_id == (
                #[trigger] n.workspaces[b]).technique_id implies !(n.workspaces[a].status
                == WorkspaceStatus::Published && n.workspaces[b].status
                == WorkspaceStatus::Published) by {
                assert(v.workspaces[a].technique_id == v.workspaces[b].technique_id);
            }
        }
        lemma_first_index(n.workspaces, slot(info.id, uuid));
        let k = n.workspace_index(info.id, uuid)->0;
        assert(n.workspaces[i].uuid == uuid);
        if k < i {
            assert(v.workspaces[k].uuid == uuid);
        }
        assert forall|max: int| #[trigger] v.within_capacity(max) implies n.within_capacity(
            max,
        ) by {
            assert forall|t: int| #[trigger] n.count_unpublished(t) <= max by {
                lemma_count_update(v.workspaces, unpublished_of(t), i, w);
                assert(v.count_unpublished(t) <= max);
            }
        }
    }
}

/// What taking the published workspace of a technique off the public page does to
/// the table: the technique has no published workspace left, every other row stays.
pub proof fn lemma_demote_published(v: DatabaseView, id: int)
    requires
        v.wf(),
    ensures
        v.demote_published(id).len() == v.workspaces.len(),
        forall|a: int|
            0 <= a < v.workspaces.len() ==> #[trigger] v.demote_published(id)[a] == (if Some(a)
                == v.published_index(id) {
                demoted(v.workspaces[a])
            } else {
                v.workspaces[a]
            }),
        forall|a: int|
            0 <= a < v.workspaces.len() ==> !published_of(id)(#[trigger] v.demote_published(id)[a]),
        v.published_index(id) is Some ==> 0 <= v.published_index(id)->0 < v.workspaces.len()
            && published_of(id)(v.workspaces[v.published_index(id)->0]),
{
    lemma_first_index(v.workspaces, published_of(id));
    assert forall|a: int| 0 <= a < v.workspaces.len() implies !published_of(id)(
        #[trigger] v.demote_published(id)[a],
    ) by {
        if v.published_index(id) is Some {
            let j = v.published_index(id)->0;
            if a != j && published_of(id)(v.workspaces[a]) {
                assert(v.workspaces[a].technique_id == v.workspaces[j].technique_id);
                if a < j {
                    assert(!(v.workspaces[a].status == WorkspaceStatus::Published
                        && v.workspaces[j].status == WorkspaceStatus::Published));
                } else {
                    assert(!(v.workspaces[j].status == WorkspaceStatus::Published
                        && v.workspaces[a].status == WorkspaceStatus::Published));
                }
            }
        }
    }
}

/// Publishing keeps the state well-formed and within capacity. On success the
/// workspace is the only published one of its technique, published at `now`, and the
/// one that was published before is finished again.
pub proof fn lemma_publish_workspace_public(
    v: DatabaseView,
    info: ProjectInfoView,
    uuid: Seq<char>,
    now: int,
)
    requires
        v.wf(),
    ensures
        v.publish_workspace_public(info, uuid, now).0.wf(),
        forall|max: int| #[trigger]
            v.within_capacity(max) ==> v.publish_workspace_public(info, uuid, now).0.within_capacity(
                max,
            ),
        v.publish_workspace_public(info, uuid, now).1 is Err ==> v.publish_workspace_public(
            info,
            uuid,
            now,
        ).0 == v,
        v.publish_workspace_public(info, uuid, now).1 is Ok ==> {
            let n = v.publish_workspace_public(info, uuid, now).0;
            let i = v.workspace_index(info.id, uuid)->0;
            &&& v.workspaces[i].status == WorkspaceStatus::Finished
            &&& n.published_index(info.id) == Some(i)
            &&& n.workspaces[i] == published_at(v.workspaces[i], now)
            &&& n.count_published(info.id) == 1
            &&& forall|a: int|
                0 <= a < v.workspaces.len() && a != i ==> #[trigger] n.workspaces[a] == (if Some(a)
                    == v.published_index(info.id) {
                    demoted(v.workspaces[a])
                } else {
                    v.workspaces[a]
                })
        },
{
    let n = v.publish_workspace_public(info, uuid, now).0;
    if v.publish_workspace_public(info, uuid, now).1 is Ok {
        let id = info.id;
        lemma_first_index(v.workspaces, slot(id, uuid));
        let i = v.workspace_index(id, uuid)->0;
        let d = v.demote_published(id);
        lemma_demote_published(v, id);
        let w = published_at(v.workspaces[i], now);
        assert(n.workspaces == d.update(i, w));
        assert forall|a: int| 0 <= a < n.workspaces.len() implies #[trigger] n.workspaces[a] == (
        if a == i {
            w
        } else {
            d[a]
        }) by {}
        lemma_rows_kept(v, n, now);
        assert(n.published_at_most_once()) by {
            assert forall|a: int, b: int|
                0 <= a < b < n.workspaces.len() && (#[trigger] n.workspaces[a]).technique_id == (
                #[trigger] n.workspaces[b]).technique_id implies !(n.workspaces[a].status
                == WorkspaceStatus::Published && n.workspaces[b].status
                == WorkspaceStatus::Published) by {
                assert(d[a].technique_id == v.workspaces[a].technique_id);
                assert(d[b].technique_id == v.workspaces[b].technique_id);
                assert(v.workspaces[a].technique_id == v.workspaces[b].technique_id);
                assert(!published_of(id)(d[a]));
                assert(!published_of(id)(d[b]));
            }
        }
        lemma_first_index(n.workspaces, published_of(id));
        assert(published_of(id)(n.workspaces[i]));
        let k = n.published_index(id)->0;
        if k != i {
            assert(!published_of(id)(d[k]));
        }
        assert(n.wf());
        lemma_at_most_one_published(n, id);
        assert forall|max: int| #[trigger] v.within_capacity(max) implies n.within_capacity(
            max,
        ) by {
            assert forall|t: int| #[trigger] n.count_unpublished(t) <= max by {
                assert(v.count_unpublished(t) <= max);
                lemma_count_update(d, unpublished_of(t), i, w);
                if v.published_index(id) is Some {
                    let j = v.published_index(id)->0;
                    lemma_count_update(v.workspaces, unpublished_of(t), j, demoted(v.workspaces[j]));
                    assert(d[i] == v.workspaces[i]);
                }
            }
        }
    }
}

/// Taking a technique off the public page keeps the state well-formed. On success the
/// workspace that was published is finished, with its time of publication cleared and
/// its finish time kept, and the technique has no published workspace left.
pub proof fn lemma_unpublish_workspace(v: DatabaseView, id: int)
    requires
        v.wf(),
    ensures
        v.unpublish_workspace(id).0.wf(),
        v.unpublish_workspace(id).1 is Err ==> v.unpublish_workspace(id).0 == v,
        v.unpublish_workspace(id).1 is Ok ==> {
            let n = v.unpublish_workspace(id).0;
            let j = v.published_index(id)->0;
            &&& 0 <= j < v.workspaces.len()
            &&& v.technique_type(id) == Ok::<TechniqueType, crate::error::Error>(
                v.unpublish_workspace(id).1->Ok_0.0,
            )
            &&& v.unpublish_workspace(id).1->Ok_0.1 == v.workspaces[j].uuid
            &&& n.workspaces[j] == demoted(v.workspaces[j])
            &&& n.workspaces[j].finish_time == v.workspaces[j].finish_time
            &&& n.published_index(id) is None
            &&& n.count_published(id) == 0
            &&& n.count_unpublished(id) == v.count_unpublished(id) + 1
        },
        forall|max: int| #[trigger]
            v.within_capacity(max) && v.count_unpublished(id) < max ==> v.unpublish_workspace(
                id,
            ).0.within_capacity(max),
{
    let n = v.unpublish_workspace(id).0;
    if v.unpublish_workspace(id).1 is Ok {
        lemma_demote_published(v, id);
        let j = v.published_index(id)->0;
        let d = v.demote_published(id);
        assert(n.workspaces == d);
        lemma_rows_kept(v, n, 0);
        assert(n.published_at_most_once()) by {
            assert forall|a: int, b: int|
                0 <= a < b < n.workspaces.len() && (#[trigger] n.workspaces[a]).technique_id == (
                #[trigger] n.workspaces[b]).technique_id implies !(n.workspaces[a].status
                == WorkspaceStatus::Published && n.workspaces[b].status
                == WorkspaceStatus::Published) by {
                assert(d[a].technique_id == v.workspaces[a].technique_id);
                assert(d[b].technique_id == v.workspaces[b].technique_id);
                assert(v.workspaces[a].technique_id == v.workspaces[b].technique_id);
                assert(d[a] == v.workspaces[a] || d[a] == demoted(v.workspaces[a]));
                assert(d[b] == v.workspaces[b] || d[b] == demoted(v.workspaces[b]));
            }
        }
        lemma_first_index(n.workspaces, published_of(id));
        if n.published_index(id) is Some {
            let k = n.published_index(id)->0;
            assert(!published_of(id)(d[k]));
        }
        assert(n.wf());
        lemma_at_most_one_published(n, id);
        lemma_count_update(v.workspaces, unpublished_of(id), j, demoted(v.workspaces[j]));
        assert forall|max: int| #[trigger]
            v.within_capacity(max) && v.count_unpublished(id) < max implies n.within_capacity(
            max,
        ) by {
            assert forall|t: int| #[trigger] n.count_unpublished(t) <= max by {
                assert(v.count_unpublished(t) <= max);
                lemma_count_update(v.workspaces, unpublished_of(t), j, demoted(v.workspaces[j]));
            }
        }
    } else {
        assert forall|max: int| #[trigger]
            v.within_capacity(max) && v.count_unpublished(id) < max implies n.within_capacity(
            max,
        ) by {}
    }
}

/// Publishing a finished workspace and then taking the technique off the public page
/// gives the workspace back as it was: finished, with no time of publication and with
/// the finish time it had.
pub proof fn lemma_publish_then_unpublish(
    v: DatabaseView,
    info: ProjectInfoView,
    uuid: Seq<char>,
    now: int,
)
    requires
        v.wf(),
        v.publish_workspace_public(info, uuid, now).1 is Ok,
    ensures
        ({
            let i = v.workspace_index(info.id, uuid)->0;
            let published = v.publish_workspace_public(info, uuid, now).0;
            let after = published.unpublish_workspace(info.id);
            &&& after.1 is Ok
            &&& after.1->Ok_0.1 == uuid
            &&& after.0.workspaces.len() == v.workspaces.len()
            &&& after.0.workspaces[i] == v.workspaces[i]
            &&& after.0.workspaces[i].status == WorkspaceStatus::Finished
            &&& after.0.workspaces[i].publication_time is None
            &&& after.0.workspaces[i].finish_time == v.workspaces[i].finish_time
            &&& v.published_index(info.id) is None ==> after.0 == v
        }),
{
    let id = info.id;
    let i = v.workspace_index(id, uuid)->0;
    let p = v.publish_workspace_public(info, uuid, now).0;
    lemma_first_index(v.workspaces, slot(id, uuid));
    lemma_publish_workspace_public(v, info, uuid, now);
    lemma_register_kept(v, p, id);
    lemma_unpublish_workspace(p, id);
    lemma_demote_published(v, id);
    lemma_demote_published(p, id);
    let a = p.unpublish_workspace(id).0;
    assert(v.workspaces[i].publication_time is Some <==> v.workspaces[i].status
        == WorkspaceStatus::Published);
    assert(a.workspaces[i] == v.workspaces[i]);
    if v.published_index(id) is None {
        assert(a.workspaces =~= v.workspaces);
    }
}

/// Two states with the same techniques have the same techniques registered.
pub proof fn lemma_register_kept(v: DatabaseView, n: DatabaseView, id: int)
    requires
        v.techniques == n.techniques,
    ensures
        v.registered(id) == n.registered(id),
        v.technique_index(id) == n.technique_index(id),
{
}

/// Queuing a task keeps the state well-formed and leaves the registry as it was. On
/// success the task waits last in the class of its kind, under a row id larger than
/// any in that class, and the other class is as it was.
pub proof fn lemma_enqueue(
    v: DatabaseView,
    kind: TaskType,
    info: ProjectInfoView,
    data: Option<Seq<char>>,
)
    requires
        v.wf(),
    ensures
        v.enqueue(kind, info, data).0.wf(),
        v.enqueue(kind, info, data).0.techniques == v.techniques,
        v.enqueue(kind, info, data).0.workspaces == v.workspaces,
        v.enqueue(kind, info, data).0.message_tasks == v.message_tasks,
        v.enqueue(kind, info, data).1 is Err ==> v.enqueue(kind, info, data).0 == v,
        v.enqueue(kind, info, data).1 is Ok ==> {
            let n = v.enqueue(kind, info, data).0;
            if kind.spec_priority() == Priority::High {
                &&& n.normal_tasks == v.normal_tasks
                &&& n.priority_tasks.drop_last() == v.priority_tasks
                &&& n.priority_tasks.last().technique_id == info.id
                &&& n.priority_tasks.last().task_type == kind
                &&& first_index(v.priority_tasks, task_of(info.id)) is None
            } else {
                &&& n.priority_tasks == v.priority_tasks
                &&& n.normal_tasks.drop_last() == v.normal_tasks
                &&& n.normal_tasks.last().technique_id == info.id
                &&& n.normal_tasks.last().task_type == kind
                &&& first_index(v.normal_tasks, task_of(info.id)) is None
            }
        },
{
    let n = v.enqueue(kind, info, data).0;
    if v.enqueue(kind, info, data).1 is Ok {
        if kind.spec_priority() == Priority::High {
            lemma_first_index(v.priority_tasks, task_of(info.id));
            assert(n.priority_tasks.drop_last() =~= v.priority_tasks);
        } else {
            lemma_first_index(v.normal_tasks, task_of(info.id));
            assert(n.normal_tasks.drop_last() =~= v.normal_tasks);
        }
    }
}

/// Taking the next task keeps the state well-formed. The task taken is a high one
/// whenever a high one waits, and within its class it is the one with the smallest
/// row id; what stays in the queues keeps its order.
pub proof fn lemma_pop_next_task(v: DatabaseView)
    requires
        v.wf(),
    ensures
        v.pop_next_task().0.wf(),
        v.pop_next_task().0.techniques == v.techniques,
        v.pop_next_task().0.workspaces == v.workspaces,
        v.pop_next_task().0.message_tasks == v.message_tasks,
        v.pop_next_task().1 is None <==> v.priority_tasks.len() == 0 && v.normal_tasks.len() == 0,
        v.pop_next_task().1 is Some ==> {
            let n = v.pop_next_task().0;
            let task = v.pop_next_task().1->0;
            if v.priority_tasks.len() > 0 {
                &&& task.task_type.spec_priority() == Priority::High
                &&& v.priority_tasks == seq![task] + n.priority_tasks
                &&& n.normal_tasks == v.normal_tasks
                &&& forall|i: int|
                    0 <= i < n.priority_tasks.len() ==> task.id < (
                    #[trigger] n.priority_tasks[i]).id
            } else {
                &&& task.task_type.spec_priority() == Priority::Normal
                &&& v.normal_tasks == seq![task] + n.normal_tasks
                &&& n.priority_tasks == v.priority_tasks
                &&& forall|i: int|
                    0 <= i < n.normal_tasks.len() ==> task.id < (#[trigger] n.normal_tasks[i]).id
            }
        },
{
    let n = v.pop_next_task().0;
    if v.priority_tasks.len() > 0 {
        lemma_queue_drop_first(v.priority_tasks, v.next_priority_id, Priority::High);
    } else if v.normal_tasks.len() > 0 {
        lemma_queue_drop_first(v.normal_tasks, v.next_normal_id, Priority::Normal);
    }
}

/// In a well-formed state no technique has two tasks waiting in one class.
pub proof fn lemma_one_pending_per_class(v: DatabaseView, id: int)
    requires
        v.wf(),
    ensures
        count_where(v.priority_tasks, task_of(id)) <= 1,
        count_where(v.normal_tasks, task_of(id)) <= 1,
{
    let p = task_of(id);
    assert forall|i: int, j: int| 0 <= i < j < v.priority_tasks.len() implies !(p(
        v.priority_tasks[i],
    ) && p(v.priority_tasks[j])) by {
        assert(v.priority_tasks[i].technique_id != v.priority_tasks[j].technique_id);
    }
    lemma_count_at_most_one(v.priority_tasks, p);
    assert forall|i: int, j: int| 0 <= i < j < v.normal_tasks.len() implies !(p(
        v.normal_tasks[i],
    ) && p(v.normal_tasks[j])) by {
        assert(v.normal_tasks[i].technique_id != v.normal_tasks[j].technique_id);
    }
    lemma_count_at_most_one(v.normal_tasks, p);
}

/// Queuing an e-mail keeps the state well-formed; the e-mail waits last.
pub proof fn lemma_push_msg_task(v: DatabaseView, to: Seq<char>, subject: Seq<char>, text: Seq<char>)
    requires
        v.wf(),
    ensures
        v.push_msg_task(to, subject, text).0.wf(),
        v.push_msg_task(to, subject, text).1 is Err <==> v.next_message_id >= max_row_id(),
        v.push_msg_task(to, subject, text).1 is Err ==> v.push_msg_task(to, subject, text).0 == v,
        v.push_msg_task(to, subject, text).1 is Ok ==> v.push_msg_task(
            to,
            subject,
            text,
        ).0.message_tasks.drop_last() == v.message_tasks,
{
    let n = v.push_msg_task(to, subject, text).0;
    if v.push_msg_task(to, subject, text).1 is Ok {
        assert(n.message_tasks.drop_last() =~= v.message_tasks);
    }
}

/// Dropping the oldest e-mail keeps the state well-formed, and the e-mails that stay
/// keep their order.
pub proof fn lemma_pop_next_message(v: DatabaseView)
    requires
        v.wf(),
    ensures
        v.pop_next_message().0.wf(),
        v.pop_next_message().1 is Ok <==> v.read_next_message() is Some,
        v.pop_next_message().1 is Ok ==> v.message_tasks == seq![v.read_next_message()->0]
            + v.pop_next_message().0.message_tasks,
{
    let n = v.pop_next_message().0;
    if v.message_tasks.len() > 0 {
        let q = v.message_tasks;
        let r = n.message_tasks;
        assert(q =~= seq![q[0]] + r);
        assert forall|i: int| 0 <= i < r.len() implies #[trigger] r[i] == q[i + 1] by {}
        assert(crate::model::messages_ordered(r, n.next_message_id)) by {
            assert forall|i: int, j: int| 0 <= i < j < r.len() implies (#[trigger] r[i]).id < (
            #[trigger] r[j]).id by {
                assert(q[i + 1].id < q[j + 1].id);
            }
            assert forall|i: int| 0 <= i < r.len() implies 1 <= (#[trigger] r[i]).id
                < n.next_message_id by {
                assert(1 <= q[i + 1].id);
            }
        }
    }
}

/// Tasks leave the queue by class and by age: of two tasks taken one after the other,
/// the second is a high one only if the first was, and where both are of one class the
/// second has the larger row id. A task queued in between does not change that: it
/// gets a row id beyond all that wait.
pub proof fn lemma_pop_order(v: DatabaseView)
    requires
        v.wf(),
        v.pop_next_task().1 is Some,
        v.pop_next_task().0.pop_next_task().1 is Some,
    ensures
        ({
            let first = v.pop_next_task().1->0;
            let second = v.pop_next_task().0.pop_next_task().1->0;
            &&& second.task_type.spec_priority() == Priority::High
                ==> first.task_type.spec_priority() == Priority::High
            &&& first.task_type.spec_priority() == second.task_type.spec_priority() ==> first.id
                < second.id
        }),
{
    lemma_pop_next_task(v);
    let n = v.pop_next_task().0;
    lemma_pop_next_task(n);
    if v.priority_tasks.len() > 0 {
        if n.priority_tasks.len() > 0 {
            assert(n.priority_tasks[0] == v.priority_tasks[1]);
        } else {
            assert(n.normal_tasks[0].task_type.spec_priority() == Priority::Normal);
        }
    } else {
        assert(n.normal_tasks[0] == v.normal_tasks[1]);
    }
}

/// Freeing a workspace restores admission. A technique that holds as many unpublished
/// workspaces as allowed is refused another one; once one of its unpublished
/// workspaces was removed, the next one is admitted under any uuid that stands in no
/// row, and with it the technique is at capacity again.
pub proof fn lemma_removal_restores_admission(
    v: DatabaseView,
    info: ProjectInfoView,
    max: int,
    removed: Seq<char>,
    uuid: Seq<char>,
    now: int,
)
    requires
        v.wf(),
        v.registered(info.id),
        v.count_unpublished(info.id) == max,
        v.remove_workspace(info.id, removed).1 is Ok,
        v.workspaces[v.workspace_index(info.id, removed)->0].status != WorkspaceStatus::Published,
        first_index(v.remove_workspace(info.id, removed).0.workspaces, with_uuid(uuid)) is None,
    ensures
        forall|other: Seq<char>, then: int| #[trigger]
            v.add_workspace(info, max, other, then) == (
                v,
                Err::<Seq<char>, crate::error::Error>(crate::error::Error::MaxWorkspacesExceeded),
            ),
        ({
            let freed = v.remove_workspace(info.id, removed).0;
            let admitted = freed.add_workspace(info, max, uuid, now);
            &&& freed.count_unpublished(info.id) == max - 1
            &&& admitted.1 == Ok::<Seq<char>, crate::error::Error>(uuid)
            &&& admitted.0.wf()
            &&& admitted.0.count_unpublished(info.id) == max
            &&& forall|other: Seq<char>, then: int| #[trigger]
                admitted.0.add_workspace(info, max, other, then).1 == Err::<
                    Seq<char>,
                    crate::error::Error,
                >(crate::error::Error::MaxWorkspacesExceeded)
        }),
{
    let freed = v.remove_workspace(info.id, removed).0;
    lemma_first_index(v.workspaces, slot(info.id, removed));
    let i = v.workspace_index(info.id, removed)->0;
    lemma_remove_workspace(v, info.id, removed);
    lemma_count_remove(v.workspaces, unpublished_of(info.id), i);
    lemma_register_kept(v, freed, info.id);
    lemma_add_workspace(freed, info, max, uuid, now);
    let admitted = freed.add_workspace(info, max, uuid, now);
    lemma_register_kept(freed, admitted.0, info.id);
}

/// What the queue admits. A task for a registered technique is turned down, and
/// nothing changes, where a task of the technique already waits in the same class.
/// Where none waits and the table has a row id left, the task is queued: it waits
/// last in its class, under the next row id, with its kind, its payload and the
/// address of its user, and the other class stays as it is.
pub proof fn lemma_admission(
    v: DatabaseView,
    kind: TaskType,
    info: ProjectInfoView,
    data: Option<Seq<char>>,
)
    requires
        v.wf(),
        v.registered(info.id),
    ensures
        ({
            let high = kind.spec_priority() == Priority::High;
            let queue = if high {
                v.priority_tasks
            } else {
                v.normal_tasks
            };
            let next = if high {
                v.next_priority_id
            } else {
                v.next_normal_id
            };
            let after = v.enqueue(kind, info, data);
            let row = crate::schema::TaskView {
                id: next,
                technique_id: info.id,
                commit_sha: info.commit_sha,
                docker_img: info.docker_img,
                task_type: kind,
                task_data: data,
                user_email: info.user_email,
            };
            &&& count_where(queue, task_of(info.id)) >= 1 ==> after == (
                v,
                Err::<(), crate::error::Error>(crate::error::Error::Unspecified),
            )
            &&& count_where(queue, task_of(info.id)) == 0 && next < max_row_id() ==> {
                &&& after.1 is Ok
                &&& after.0.wf()
                &&& if high {
                    after.0.priority_tasks == queue.push(row) && after.0.normal_tasks
                        == v.normal_tasks
                } else {
                    after.0.normal_tasks == queue.push(row) && after.0.priority_tasks
                        == v.priority_tasks
                }
            }
        }),
{
    let queue = if kind.spec_priority() == Priority::High {
        v.priority_tasks
    } else {
        v.normal_tasks
    };
    lemma_first_index(queue, task_of(info.id));
    lemma_one_pending_per_class(v, info.id);
    lemma_enqueue(v, kind, info, data);
    let p = task_of(info.id);
    assert forall|i: int, j: int| 0 <= i < j < queue.len() implies !(p(queue[i]) && p(
        queue[j],
    )) by {
        assert(queue[i].technique_id != queue[j].technique_id);
    }
    lemma_count_at_most_one(queue, p);
}

/// Queuing a publication for a registered technique: it is turned down while a run
/// or a publication of the technique waits; else, where the table has a row id left,
/// a task of the kind `PublishResults` that carries the uuid joins the normal tasks.
pub proof fn lemma_push_publish_task(v: DatabaseView, info: ProjectInfoView, uuid: Seq<char>)
    requires
        v.wf(),
        v.registered(info.id),
    ensures
        count_where(v.normal_tasks, task_of(info.id)) >= 1 ==> v.push_publish_task(info, uuid) == (
            v,
            Err::<(), crate::error::Error>(crate::error::Error::Unspecified),
        ),
        count_where(v.normal_tasks, task_of(info.id)) == 0 && v.next_normal_id < max_row_id() ==> {
            let after = v.push_publish_task(info, uuid);
            &&& after.1 is Ok
            &&& after.0.priority_tasks == v.priority_tasks
            &&& after.0.normal_tasks.drop_last() == v.normal_tasks
            &&& after.0.normal_tasks.last().task_type == TaskType::PublishResults
            &&& after.0.normal_tasks.last().task_data == Some(uuid)
            &&& after.0.normal_tasks.last().technique_id == info.id
        },
{
    lemma_admission(v, TaskType::PublishResults, info, Some(uuid));
    lemma_enqueue(v, TaskType::PublishResults, info, Some(uuid));
}

} // verus!
