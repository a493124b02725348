//! Laws of the domain: what holds of every edit, every removal and every
//! count, proved from the model of the store.

use crate::fields::ClearableField;
use crate::ident::NIL;
use crate::model::{
    links_join, listed, member, member_with, mentions, ProjectStats, StoreState,
};
use crate::project::{project_creation, EditProjectPayloadView, ProjectView};
use crate::seqs::{
    lemma_filter_keeps_order, lemma_filter_members, lemma_filter_none, lemma_filter_one,
};
use crate::status::Status;
use crate::store::{lemma_joined_after_removal, lemma_project_at, lemma_task_at};
use crate::task::{
    after_creation_in_project, clearing_plan, creation_in_project, TaskPatchView, TaskProject,
    TaskView,
};
use vstd::prelude::*;

verus! {

/// Creating a project succeeds for every title that is not empty, as long
/// as the identifier is new and not nil and the clock has a stamp left. The
/// new row carries the store's stamp, and the store then holds it.
pub proof fn law_project_creation(s: StoreState, id: u128, title: Seq<char>)
    requires
        s.wf(),
        title.len() > 0,
        id != NIL,
        !s.has_project(id),
        s.clock < u64::MAX,
    ensures
        project_creation(s, id, title) == Ok::<ProjectView, crate::error::ErrorView>(
            s.new_project(id, title),
        ),
        s.new_project(id, title).created_at == s.clock,
        s.project_added(id, title).project(id) == Some(s.new_project(id, title)),
        s.project_added(id, title).clock > s.clock,
{
    let after = s.project_added(id, title);
    let i = s.projects.len() as int;
    assert(after.projects[i] == s.new_project(id, title));
    assert(after.has_project(id));
    let j = after.project_index(id);
    if j < i {
        assert(s.projects[j].id == id);
    }
}

/// An edit of a project changes the fields that the payload carries and no
/// other: a payload without a title leaves the title, one without a
/// description leaves the description. Identifier and stamp never change.
pub proof fn law_project_edit_is_partial(p: ProjectView, edit: EditProjectPayloadView)
    ensures
        p.patched(edit).id == p.id,
        p.patched(edit).created_at == p.created_at,
        edit.title is None ==> p.patched(edit).title == p.title,
        edit.description is None ==> p.patched(edit).description == p.description,
        edit.title matches Some(t) ==> p.patched(edit).title == t,
        edit.description matches Some(d) ==> p.patched(edit).description == Some(d),
{
}

/// Editing one field of a project twice in a row leaves the other field as
/// it was before the first edit.
pub proof fn law_project_edit_twice(
    p: ProjectView,
    first: EditProjectPayloadView,
    second: EditProjectPayloadView,
)
    ensures
        first.title is None && second.title is None ==> p.patched(first).patched(second).title
            == p.title,
        first.description is None && second.description is None ==> p.patched(first).patched(
            second,
        ).description == p.description,
{
}

/// A patch of a task changes the fields that it names and no other.
/// Identifier and stamp never change.
pub proof fn law_task_patch_is_partial(t: TaskView, patch: TaskPatchView)
    ensures
        t.patched(patch).id == t.id,
        t.patched(patch).created_at == t.created_at,
        patch.title is None ==> t.patched(patch).title == t.title,
        patch.status is None ==> t.patched(patch).status == t.status,
        patch.description is Keep ==> t.patched(patch).description == t.description,
        patch.due_date is Keep ==> t.patched(patch).due_date == t.due_date,
{
}

/// Patching one field of a task twice in a row leaves every field that
/// neither patch names as it was before the first.
pub proof fn law_task_patch_twice(t: TaskView, first: TaskPatchView, second: TaskPatchView)
    ensures
        first.title is None && second.title is None ==> t.patched(first).patched(second).title
            == t.title,
        first.status is None && second.status is None ==> t.patched(first).patched(second).status
            == t.status,
        first.description is Keep && second.description is Keep ==> t.patched(first).patched(
            second,
        ).description == t.description,
        first.due_date is Keep && second.due_date is Keep ==> t.patched(first).patched(
            second,
        ).due_date == t.due_date,
{
}

/// Clearing empties the fields that are named and leaves every other field
/// as it was: title and status always, description and due date where they
/// are not named.
pub proof fn law_clearing(t: TaskView, fields: Set<ClearableField>)
    ensures
        t.patched(clearing_plan(fields)).title == t.title,
        t.patched(clearing_plan(fields)).status == t.status,
        t.patched(clearing_plan(fields)).description == if fields.contains(
            ClearableField::Description,
        ) {
            None
        } else {
            t.description
        },
        t.patched(clearing_plan(fields)).due_date == if fields.contains(ClearableField::DueDate) {
            None
        } else {
            t.due_date
        },
{
}

/// An edit or a patch in the store touches the row that the identifier
/// names and no other row: every other task reads as before, and so does
/// every project and every link.
pub proof fn law_patch_touches_one_task(s: StoreState, id: u128, patch: TaskPatchView, other: u128)
    requires
        s.wf(),
    ensures
        s.task_patched(id, patch).projects == s.projects,
        s.task_patched(id, patch).links == s.links,
        s.task_patched(id, patch).has_task(other) == s.has_task(other),
        other != id ==> s.task_patched(id, patch).task(other) == s.task(other),
        s.task(id) matches Some(t) ==> s.task_patched(id, patch).task(id) == Some(t.patched(patch)),
{
    lemma_patch_keeps_places(s, id, patch, other);
    lemma_patch_keeps_places(s, id, patch, id);
}

/// A patch moves no row: every identifier is found where it was.
proof fn lemma_patch_keeps_places(s: StoreState, id: u128, patch: TaskPatchView, x: u128)
    requires
        s.wf(),
    ensures
        s.task_patched(id, patch).has_task(x) == s.has_task(x),
        s.has_task(x) ==> s.task_patched(id, patch).task_index(x) == s.task_index(x),
{
    let after = s.task_patched(id, patch);
    assert forall|i: int| 0 <= i < s.tasks.len() implies (#[trigger] after.tasks[i]).id
        == s.tasks[i].id by {}
    if s.has_task(x) {
        let i = s.task_index(x);
        lemma_task_at(s, i);
        assert(after.tasks[i].id == x);
        assert(after.has_task(x));
        let j = after.task_index(x);
        assert(s.tasks[j].id == x);
        lemma_task_at(s, j);
        assert(i == j);
    } else if after.has_task(x) {
        let j = after.task_index(x);
        assert(s.tasks[j].id == x);
    }
}

/// An edit of a project in the store touches the row that the identifier
/// names and no other row.
pub proof fn law_edit_touches_one_project(
    s: StoreState,
    id: u128,
    edit: EditProjectPayloadView,
    other: u128,
)
    requires
        s.wf(),
    ensures
        s.project_edited(id, edit).tasks == s.tasks,
        s.project_edited(id, edit).links == s.links,
        s.project_edited(id, edit).has_project(other) == s.has_project(other),
        other != id ==> s.project_edited(id, edit).project(other) == s.project(other),
        s.project(id) matches Some(p) ==> s.project_edited(id, edit).project(id) == Some(
            p.patched(edit),
        ),
{
    lemma_edit_keeps_places(s, id, edit, other);
    lemma_edit_keeps_places(s, id, edit, id);
}

/// An edit moves no row: every identifier is found where it was.
proof fn lemma_edit_keeps_places(s: StoreState, id: u128, edit: EditProjectPayloadView, x: u128)
    requires
        s.wf(),
    ensures
        s.project_edited(id, edit).has_project(x) == s.has_project(x),
        s.has_project(x) ==> s.project_edited(id, edit).project_index(x) == s.project_index(x),
{
    let after = s.project_edited(id, edit);
    assert forall|i: int| 0 <= i < s.projects.len() implies (#[trigger] after.projects[i]).id
        == s.projects[i].id by {}
    if s.has_project(x) {
        let i = s.project_index(x);
        lemma_project_at(s, i);
        assert(after.projects[i].id == x);
        assert(after.has_project(x));
        let j = after.project_index(x);
        assert(s.projects[j].id == x);
        lemma_project_at(s, j);
        assert(i == j);
    } else if after.has_project(x) {
        let j = after.project_index(x);
        assert(s.projects[j].id == x);
    }
}

/// Whether a task is in a project after it was put into one: it is in that
/// one, and in every project it was in before.
pub proof fn law_link_added(s: StoreState, project: u128, task: u128, p: u128, t: u128)
    ensures
        s.link_added(project, task).linked(p, t) == (s.linked(p, t) || (p == project && t
            == task)),
        s.link_added(project, task).projects == s.projects,
        s.link_added(project, task).tasks == s.tasks,
{
    let after = s.link_added(project, task);
    let n = s.links.len() as int;
    assert(after.links[n] == s.new_link(project, task));
    if s.linked(p, t) {
        let i = choose|i: int|
            0 <= i < s.links.len() && (#[trigger] s.links[i]).project_id == p && s.links[i].task_id
                == t;
        assert(after.links[i].project_id == p);
    }
    if after.linked(p, t) {
        let i = choose|i: int|
            0 <= i < after.links.len() && (#[trigger] after.links[i]).project_id == p
                && after.links[i].task_id == t;
        if i < n {
            assert(s.links[i].project_id == p);
        }
    }
}

/// Whether a task is in a project after it was taken out of one: it is in
/// every project it was in before, but for that one.
pub proof fn law_link_removed(s: StoreState, project: u128, task: u128, p: u128, t: u128)
    ensures
        s.link_removed(project, task).linked(p, t) == (s.linked(p, t) && !(p == project && t
            == task)),
        s.link_removed(project, task).projects == s.projects,
        s.link_removed(project, task).tasks == s.tasks,
{
    lemma_joined_after_removal(s.links, Some(project), Some(task), p, t);
}

/// Deleting a project takes its row and every link to it, and nothing
/// else: no task is deleted, every other project stays, and every link
/// between another project and a task stays.
pub proof fn law_project_removal_cascades(s: StoreState, id: u128, p: u128, t: u128)
    requires
        s.wf(),
    ensures
        !s.project_removed(id).has_project(id),
        !s.project_removed(id).linked(id, t),
        s.project_removed(id).tasks == s.tasks,
        p != id ==> s.project_removed(id).has_project(p) == s.has_project(p),
        p != id ==> s.project_removed(id).project(p) == s.project(p),
        p != id ==> s.project_removed(id).linked(p, t) == s.linked(p, t),
{
    let after = s.project_removed(id);
    if s.has_project(id) {
        let i = s.project_index(id);
        lemma_project_at(s, i);
        lemma_joined_after_removal(s.links, Some(id), None, id, t);
        lemma_joined_after_removal(s.links, Some(id), None, p, t);
        assert forall|a: int| 0 <= a < after.projects.len() implies (#[trigger] after.projects[a])
            == s.projects[if a < i {
            a
        } else {
            a + 1
        }] by {}
        if after.has_project(id) {
            let a = after.project_index(id);
            let a0 = if a < i { a } else { a + 1 };
            assert(s.projects[a0].id == id);
            lemma_project_at(s, a0);
        }
        if p != id {
            if s.has_project(p) {
                let k = s.project_index(p);
                lemma_project_at(s, k);
                let k1 = if k < i { k } else { k - 1 };
                assert(after.projects[k1] == s.projects[k]);
                assert(after.has_project(p));
                let a = after.project_index(p);
                let a0 = if a < i { a } else { a + 1 };
                assert(s.projects[a0].id == p);
                lemma_project_at(s, a0);
                assert(a0 == k);
            } else if after.has_project(p) {
                let a = after.project_index(p);
                let a0 = if a < i { a } else { a + 1 };
                assert(s.projects[a0].id == p);
            }
        }
    } else {
        if s.linked(id, t) {
            let k = choose|k: int|
                0 <= k < s.links.len() && (#[trigger] s.links[k]).project_id == id
                    && s.links[k].task_id == t;
            assert(s.has_project(s.links[k].project_id));
        }
    }
}

/// Deleting a task takes its row and every link to it, and nothing else:
/// no project is deleted, every other task stays, and every link between a
/// project and another task stays.
pub proof fn law_task_removal_cascades(s: StoreState, id: u128, p: u128, t: u128)
    requires
        s.wf(),
    ensures
        !s.task_removed(id).has_task(id),
        !s.task_removed(id).linked(p, id),
        s.task_removed(id).projects == s.projects,
        t != id ==> s.task_removed(id).has_task(t) == s.has_task(t),
        t != id ==> s.task_removed(id).task(t) == s.task(t),
        t != id ==> s.task_removed(id).linked(p, t) == s.linked(p, t),
{
    let after = s.task_removed(id);
    if s.has_task(id) {
        let i = s.task_index(id);
        lemma_task_at(s, i);
        lemma_joined_after_removal(s.links, None, Some(id), p, id);
        lemma_joined_after_removal(s.links, None, Some(id), p, t);
        assert forall|a: int| 0 <= a < after.tasks.len() implies (#[trigger] after.tasks[a])
            == s.tasks[if a < i {
            a
        } else {
            a + 1
        }] by {}
        if after.has_task(id) {
            let a = after.task_index(id);
            let a0 = if a < i { a } else { a + 1 };
            assert(s.tasks[a0].id == id);
            lemma_task_at(s, a0);
        }
        if t != id {
            if s.has_task(t) {
                let k = s.task_index(t);
                lemma_task_at(s, k);
                let k1 = if k < i { k } else { k - 1 };
                assert(after.tasks[k1] == s.tasks[k]);
                assert(after.has_task(t));
                let a = after.task_index(t);
                let a0 = if a < i { a } else { a + 1 };
                assert(s.tasks[a0].id == t);
                lemma_task_at(s, a0);
                assert(a0 == k);
            } else if after.has_task(t) {
                let a = after.task_index(t);
                let a0 = if a < i { a } else { a + 1 };
                assert(s.tasks[a0].id == t);
            }
        }
    } else {
        if s.linked(p, id) {
            let k = choose|k: int|
                0 <= k < s.links.len() && (#[trigger] s.links[k]).project_id == p
                    && s.links[k].task_id == id;
            assert(s.has_task(s.links[k].task_id));
        }
    }
}

/// A task is put into two projects and taken out of the first: it is then
/// in the second and not in the first, and in whatever other project it was
/// in before. The second project is then deleted: the task is in neither of
/// the two, and the task itself is still stored, unchanged.
pub proof fn law_attach_detach_delete(s: StoreState, a: u128, b: u128, t: u128, p: u128)
    requires
        s.wf(),
        a != b,
        s.has_project(b),
    ensures
        ({
            let attached = s.link_added(a, t).link_added(b, t);
            let detached = attached.link_removed(a, t);
            let deleted = detached.project_removed(b);
            &&& attached.linked(a, t) && attached.linked(b, t)
            &&& detached.linked(b, t) && !detached.linked(a, t)
            &&& p != a && p != b ==> detached.linked(p, t) == s.linked(p, t)
            &&& !deleted.linked(a, t) && !deleted.linked(b, t)
            &&& deleted.tasks == s.tasks
            &&& deleted.has_task(t) == s.has_task(t)
            &&& deleted.task(t) == s.task(t)
            &&& !deleted.has_project(b)
        }),
{
    let s1 = s.link_added(a, t);
    let attached = s1.link_added(b, t);
    let detached = attached.link_removed(a, t);
    let deleted = detached.project_removed(b);
    law_link_added(s, a, t, a, t);
    law_link_added(s, a, t, b, t);
    law_link_added(s, a, t, p, t);
    law_link_added(s1, b, t, a, t);
    law_link_added(s1, b, t, b, t);
    law_link_added(s1, b, t, p, t);
    law_link_removed(attached, a, t, a, t);
    law_link_removed(attached, a, t, b, t);
    law_link_removed(attached, a, t, p, t);
    assert(detached.projects == s.projects);
    assert(detached.tasks == s.tasks);
    assert(detached.has_project(b)) by {
        let k = choose|k: int| 0 <= k < s.projects.len() && (#[trigger] s.projects[k]).id == b;
        assert(detached.projects[k].id == b);
    }
    let i = detached.project_index(b);
    lemma_joined_after_removal(detached.links, Some(b), None, b, t);
    lemma_joined_after_removal(detached.links, Some(b), None, a, t);
    assert(deleted.tasks == s.tasks);
    assert(deleted.has_task(t) == s.has_task(t));
    assert(deleted.task_index(t) == s.task_index(t));
    assert forall|k: int| 0 <= k < deleted.projects.len() implies (#[trigger] deleted.projects[k])
        == s.projects[if k < i {
        k
    } else {
        k + 1
    }] by {}
    if deleted.has_project(b) {
        let k = deleted.project_index(b);
        let k0 = if k < i { k } else { k + 1 };
        assert(s.projects[k0].id == b);
        assert(s.projects[i].id == b);
        if k0 < i {
            assert(s.projects[k0].id != s.projects[i].id);
        } else {
            assert(s.projects[i].id != s.projects[k0].id);
        }
    }
}

/// Each task of a project has exactly one status, so the three counts of a
/// table of tasks add up to the number of its tasks that are in the project.
proof fn lemma_counts_add_up(rows: Seq<TaskView>, links: Seq<TaskProject>, project: u128)
    ensures
        rows.filter(member(links, project)).len() == rows.filter(
            member_with(links, project, Status::Todo),
        ).len() + rows.filter(member_with(links, project, Status::InProgress)).len() + rows.filter(
            member_with(links, project, Status::Complete),
        ).len(),
    decreases rows.len(),
{
    reveal(Seq::filter);
    if rows.len() > 0 {
        lemma_counts_add_up(rows.drop_last(), links, project);
    }
}

/// The total of a project's counts is the sum of the three counts by
/// status.
pub proof fn law_counts_add_up(s: StoreState, project: u128)
    ensures
        s.total(project) == s.count(project, Status::Todo) + s.count(project, Status::InProgress)
            + s.count(project, Status::Complete),
        s.count(project, Status::Todo) <= s.tasks.len(),
        s.count(project, Status::InProgress) <= s.tasks.len(),
        s.count(project, Status::Complete) <= s.tasks.len(),
        s.total(project) <= s.tasks.len(),
{
    lemma_counts_add_up(s.tasks, s.links, project);
    lemma_filter_members(s.tasks, member(s.links, project));
    lemma_filter_members(s.tasks, member_with(s.links, project, Status::Todo));
    lemma_filter_members(s.tasks, member_with(s.links, project, Status::InProgress));
    lemma_filter_members(s.tasks, member_with(s.links, project, Status::Complete));
}

/// A project with no task is counted with zeros throughout.
pub proof fn law_empty_project_counts_zero(s: StoreState, project: u128)
    requires
        forall|task: u128| !s.linked(project, task),
    ensures
        s.tally(project) == (ProjectStats {
            id: project,
            complete: 0,
            in_progress: 0,
            todo: 0,
            total: 0,
        }),
{
    assert forall|i: int| 0 <= i < s.tasks.len() implies !member(s.links, project)(
        #[trigger] s.tasks[i],
    ) by {
        assert(!s.linked(project, s.tasks[i].id));
    }
    lemma_filter_none(s.tasks, member(s.links, project));
    law_counts_add_up(s, project);
}

/// A status that no task of the project has is counted with zero.
pub proof fn law_untouched_status_counts_zero(s: StoreState, project: u128, status: Status)
    requires
        forall|i: int|
            0 <= i < s.tasks.len() && s.linked(project, (#[trigger] s.tasks[i]).id)
                ==> s.tasks[i].status != status,
    ensures
        s.count(project, status) == 0,
{
    assert forall|i: int| 0 <= i < s.tasks.len() implies !member_with(s.links, project, status)(
        #[trigger] s.tasks[i],
    ) by {
        if s.linked(project, s.tasks[i].id) {
            assert(s.tasks[i].status != status);
        }
    }
    lemma_filter_none(s.tasks, member_with(s.links, project, status));
}

/// The stored tasks of a project are counted, each once: the count of a
/// status is the number of stored tasks that are in the project and have
/// that status, and a task that is stored once is counted once however
/// many projects it is in.
pub proof fn law_counts_follow_the_tasks(s: StoreState, project: u128, status: Status, k: int)
    requires
        0 <= k < s.tasks.filter(member_with(s.links, project, status)).len(),
    ensures
        s.linked(project, s.tasks.filter(member_with(s.links, project, status))[k].id),
        s.tasks.filter(member_with(s.links, project, status))[k].status == status,
        s.tasks.contains(s.tasks.filter(member_with(s.links, project, status))[k]),
{
    lemma_filter_members(s.tasks, member_with(s.links, project, status));
}

/// The counts that are reported are those of stored projects that were
/// asked for, each project at most once and the oldest first; and every
/// stored project that was asked for is reported. In particular the nil
/// identifier, which stands for a malformed one, adds nothing.
pub proof fn law_stats_report_the_listed(s: StoreState, ids: Seq<u128>)
    requires
        s.wf(),
    ensures
        s.stats(ids).len() <= s.projects.len(),
        forall|k: int|
            0 <= k < s.stats(ids).len() ==> ids.contains((#[trigger] s.stats(ids)[k]).id)
                && s.has_project(s.stats(ids)[k].id) && s.stats(ids)[k].id != NIL && s.stats(
                ids,
            )[k] == s.tally(s.stats(ids)[k].id),
        forall|a: int, b: int|
            0 <= a < b < s.stats(ids).len() ==> (#[trigger] s.stats(ids)[a]).id != (
            #[trigger] s.stats(ids)[b]).id,
        forall|p: u128|
            ids.contains(p) && s.has_project(p) ==> s.stats(ids).contains(#[trigger] s.tally(p)),
{
    let kept = s.projects.filter(listed(ids));
    let out = s.stats(ids);
    lemma_filter_members(s.projects, listed(ids));
    let differ = |x: ProjectView, y: ProjectView| x.id != y.id;
    assert forall|i: int, j: int| 0 <= i < j < s.projects.len() implies differ(
        s.projects[i],
        s.projects[j],
    ) by {
        assert(s.projects[i].id != s.projects[j].id);
    }
    lemma_filter_keeps_order(s.projects, listed(ids), differ);
    assert forall|k: int| 0 <= k < out.len() implies ids.contains((#[trigger] out[k]).id)
        && s.has_project(out[k].id) && out[k].id != NIL && out[k] == s.tally(out[k].id) by {
        assert(listed(ids)(kept[k]) && s.projects.contains(kept[k]));
        let m = choose|m: int| 0 <= m < s.projects.len() && s.projects[m] == kept[k];
        assert(s.projects[m].id == kept[k].id);
    }
    assert forall|a: int, b: int| 0 <= a < b < out.len() implies (#[trigger] out[a]).id != (
    #[trigger] out[b]).id by {
        assert(differ(kept[a], kept[b]));
    }
    assert forall|p: u128| ids.contains(p) && s.has_project(p) implies out.contains(
        #[trigger] s.tally(p),
    ) by {
        let i = s.project_index(p);
        assert(listed(ids)(s.projects[i]));
        assert(kept.contains(s.projects[i]));
        let m = choose|m: int| 0 <= m < kept.len() && kept[m] == s.projects[i];
        assert(out[m] == s.tally(p));
    }
}

/// Asking for the counts of one stored project gives exactly its counts.
/// Asking for a project that is not stored gives nothing.
pub proof fn law_stats_of_one_project(s: StoreState, project: u128)
    requires
        s.wf(),
    ensures
        s.has_project(project) ==> s.stats(seq![project]) == seq![s.tally(project)],
        !s.has_project(project) ==> s.stats(seq![project]) == Seq::<ProjectStats>::empty(),
{
    let ids = seq![project];
    assert(ids[0] == project);
    if s.has_project(project) {
        let i = s.project_index(project);
        lemma_project_at(s, i);
        assert(ids.contains(project));
        assert forall|j: int| 0 <= j < s.projects.len() && j != i implies !listed(ids)(
            #[trigger] s.projects[j],
        ) by {
            if j < i {
                assert(s.projects[j].id != s.projects[i].id);
            } else {
                assert(s.projects[i].id != s.projects[j].id);
            }
        }
        lemma_filter_one(s.projects, listed(ids), i);
        assert(s.stats(ids) =~= seq![s.tally(project)]);
    } else {
        assert forall|j: int| 0 <= j < s.projects.len() implies !listed(ids)(
            #[trigger] s.projects[j],
        ) by {
            if ids.contains(s.projects[j].id) {
                assert(s.projects[j].id == project);
            }
        }
        lemma_filter_none(s.projects, listed(ids));
        assert(s.stats(ids) =~= Seq::<ProjectStats>::empty());
    }
}

/// A search returns the stored tasks whose title or description contains
/// the text, and no other; it returns them the newest first, and none
/// twice.
pub proof fn law_search_finds_what_mentions(s: StoreState, text: Seq<char>)
    requires
        s.wf(),
    ensures
        forall|k: int|
            0 <= k < s.tasks_matching(text).len() ==> mentions(text)(
                #[trigger] s.tasks_matching(text)[k],
            ) && s.tasks.contains(s.tasks_matching(text)[k]),
        forall|i: int|
            0 <= i < s.tasks.len() && mentions(text)(s.tasks[i]) ==> s.tasks_matching(
                text,
            ).contains(#[trigger] s.tasks[i]),
        forall|a: int, b: int|
            0 <= a < b < s.tasks_matching(text).len() ==> (#[trigger] s.tasks_matching(
                text,
            )[a]).created_at > (#[trigger] s.tasks_matching(text)[b]).created_at,
{
    let kept = s.tasks.filter(mentions(text));
    let found = s.tasks_matching(text);
    let n = kept.len() as int;
    lemma_filter_members(s.tasks, mentions(text));
    let older = |x: TaskView, y: TaskView| x.created_at < y.created_at;
    assert forall|i: int, j: int| 0 <= i < j < s.tasks.len() implies older(
        s.tasks[i],
        s.tasks[j],
    ) by {
        assert(s.tasks[i].created_at < s.tasks[j].created_at);
    }
    lemma_filter_keeps_order(s.tasks, mentions(text), older);
    assert(found.len() == n);
    assert forall|k: int| 0 <= k < found.len() implies mentions(text)(#[trigger] found[k])
        && s.tasks.contains(found[k]) by {
        assert(found[k] == kept[n - 1 - k]);
    }
    assert forall|i: int|
        0 <= i < s.tasks.len() && mentions(text)(s.tasks[i]) implies found.contains(
        #[trigger] s.tasks[i],
    ) by {
        assert(kept.contains(s.tasks[i]));
        let m = choose|m: int| 0 <= m < kept.len() && kept[m] == s.tasks[i];
        assert(found[n - 1 - m] == kept[m]);
    }
    assert forall|a: int, b: int| 0 <= a < b < found.len() implies (#[trigger] found[a]).created_at
        > (#[trigger] found[b]).created_at by {
        assert(found[a] == kept[n - 1 - a]);
        assert(found[b] == kept[n - 1 - b]);
        assert(older(kept[n - 1 - b], kept[n - 1 - a]));
    }
}

/// The projects are listed the newest first.
pub proof fn law_projects_newest_first(s: StoreState, a: int, b: int)
    requires
        s.wf(),
        0 <= a < b < s.projects.len(),
    ensures
        s.projects_newest_first().len() == s.projects.len(),
        s.projects_newest_first()[a].created_at > s.projects_newest_first()[b].created_at,
{
    let n = s.projects.len() as int;
    assert(s.projects_newest_first()[a] == s.projects[n - 1 - a]);
    assert(s.projects_newest_first()[b] == s.projects[n - 1 - b]);
    assert(s.projects[n - 1 - b].created_at < s.projects[n - 1 - a].created_at);
}

/// The tasks of a project are the stored tasks that are in it, the oldest
/// first.
pub proof fn law_tasks_of_project(s: StoreState, project: u128)
    requires
        s.wf(),
    ensures
        forall|k: int|
            0 <= k < s.tasks_of(project).len() ==> s.linked(
                project,
                (#[trigger] s.tasks_of(project)[k]).id,
            ) && s.tasks.contains(s.tasks_of(project)[k]),
        forall|i: int|
            0 <= i < s.tasks.len() && s.linked(project, s.tasks[i].id) ==> s.tasks_of(
                project,
            ).contains(#[trigger] s.tasks[i]),
        forall|a: int, b: int|
            0 <= a < b < s.tasks_of(project).len() ==> (#[trigger] s.tasks_of(
                project,
            )[a]).created_at < (#[trigger] s.tasks_of(project)[b]).created_at,
{
    let keep = member(s.links, project);
    let kept = s.tasks.filter(keep);
    lemma_filter_members(s.tasks, keep);
    let older = |x: TaskView, y: TaskView| x.created_at < y.created_at;
    assert forall|i: int, j: int| 0 <= i < j < s.tasks.len() implies older(
        s.tasks[i],
        s.tasks[j],
    ) by {
        assert(s.tasks[i].created_at < s.tasks[j].created_at);
    }
    lemma_filter_keeps_order(s.tasks, keep, older);
    assert forall|k: int| 0 <= k < kept.len() implies s.linked(project, (#[trigger] kept[k]).id)
        && s.tasks.contains(kept[k]) by {
        assert(keep(kept[k]));
    }
    assert forall|i: int|
        0 <= i < s.tasks.len() && s.linked(project, s.tasks[i].id) implies kept.contains(
        #[trigger] s.tasks[i],
    ) by {
        assert(keep(s.tasks[i]));
    }
    assert forall|a: int, b: int| 0 <= a < b < kept.len() implies (#[trigger] kept[a]).created_at
        < (#[trigger] kept[b]).created_at by {
        assert(older(kept[a], kept[b]));
    }
}

/// The first task that is created in a project is counted once, under its
/// status, and the project's other counts stay zero.
pub proof fn law_first_task_is_counted_once(
    s: StoreState,
    id: u128,
    title: Seq<char>,
    status: Status,
    project: u128,
)
    requires
        s.wf(),
        creation_in_project(s, id, title, status, project) is Ok,
        forall|task: u128| !s.linked(project, task),
    ensures
        ({
            let after = after_creation_in_project(s, id, title, status, project);
            &&& after.total(project) == 1
            &&& after.count(project, status) == 1
            &&& forall|other: Status| other != status ==> after.count(project, other) == 0
            &&& after.tasks_of(project) == seq![s.new_task(id, title, status)]
        }),
{
    let created = s.task_added(id, title, status);
    let after = after_creation_in_project(s, id, title, status, project);
    assert(after == created.link_added(project, id));
    let n = s.tasks.len() as int;
    let new = s.new_task(id, title, status);
    assert(after.tasks[n] == new);
    assert(after.links[s.links.len() as int] == created.new_link(project, id));
    assert(links_join(after.links, project, id));
    assert forall|j: int| 0 <= j < after.tasks.len() && j != n implies !member(
        after.links,
        project,
    )(#[trigger] after.tasks[j]) by {
        assert(after.tasks[j] == s.tasks[j]);
        law_link_added(created, project, id, project, s.tasks[j].id);
        assert(!s.linked(project, s.tasks[j].id));
        assert(s.tasks[j].id != id);
    }
    lemma_filter_one(after.tasks, member(after.links, project), n);
    assert forall|j: int| 0 <= j < after.tasks.len() && j != n implies !member_with(
        after.links,
        project,
        status,
    )(#[trigger] after.tasks[j]) by {
        assert(!member(after.links, project)(after.tasks[j]));
    }
    lemma_filter_one(after.tasks, member_with(after.links, project, status), n);
    assert forall|other: Status| other != status implies after.count(project, other) == 0 by {
        assert forall|j: int| 0 <= j < after.tasks.len() implies !member_with(
            after.links,
            project,
            other,
        )(#[trigger] after.tasks[j]) by {
            if j != n {
                assert(!member(after.links, project)(after.tasks[j]));
            }
        }
        lemma_filter_none(after.tasks, member_with(after.links, project, other));
    }
}

} // verus!
