//! The entity store, held in memory: the rows of the three tables and the
//! clock that stamps them. Every request is answered as the model of the
//! store says.

use crate::ident::NIL;
use crate::model::{
    links_join,
    edit_of, holder, listed, member, member_with, mentions, no_pair_twice, patch_of, spared,
    ProjectStats, StoreFault, StoreState,
};
use crate::project::{EditProjectPayload, Project, ProjectView};
use crate::seqs::{lemma_filter_keeps_order, lemma_filter_members};
use crate::status::Status;
use crate::task::{Task, TaskPatch, TaskProject, TaskView};
use crate::text::{contains_text, reversed};
use vstd::prelude::*;

verus! {

/// The rows of a project table, as mathematical values.
pub open spec fn project_views(rows: Seq<Project>) -> Seq<ProjectView> {
    rows.map_values(|p: Project| p@)
}

/// The rows of a task table, as mathematical values.
pub open spec fn task_views(rows: Seq<Task>) -> Seq<TaskView> {
    rows.map_values(|t: Task| t@)
}

/// The entity store.
#[derive(Debug)]
pub struct Store {
    projects: Vec<Project>,
    tasks: Vec<Task>,
    links: Vec<TaskProject>,
    clock: u64,
}

impl View for Store {
    type V = StoreState;

    closed spec fn view(&self) -> StoreState {
        StoreState {
            projects: project_views(self.projects@),
            tasks: task_views(self.tasks@),
            links: self.links@,
            clock: self.clock,
        }
    }
}

/// In a table without repeated identifiers, the row found at a position is
/// the row that the identifier names.
pub proof fn lemma_project_at(s: StoreState, i: int)
    requires
        s.projects_wf(),
        0 <= i < s.projects.len(),
    ensures
        s.has_project(s.projects[i].id),
        s.project_index(s.projects[i].id) == i,
        s.project(s.projects[i].id) == Some(s.projects[i]),
{
    let id = s.projects[i].id;
    let j = s.project_index(id);
    assert(0 <= j < s.projects.len() && s.projects[j].id == id);
    if j < i {
        assert(s.projects[j].id != s.projects[i].id);
    }
    if i < j {
        assert(s.projects[i].id != s.projects[j].id);
    }
}

/// In a table without repeated identifiers, the row found at a position is
/// the row that the identifier names.
pub proof fn lemma_task_at(s: StoreState, i: int)
    requires
        s.tasks_wf(),
        0 <= i < s.tasks.len(),
    ensures
        s.has_task(s.tasks[i].id),
        s.task_index(s.tasks[i].id) == i,
        s.task(s.tasks[i].id) == Some(s.tasks[i]),
{
    let id = s.tasks[i].id;
    let j = s.task_index(id);
    assert(0 <= j < s.tasks.len() && s.tasks[j].id == id);
    if j < i {
        assert(s.tasks[j].id != s.tasks[i].id);
    }
    if i < j {
        assert(s.tasks[i].id != s.tasks[j].id);
    }
}

/// Holds of two links that join different pairs.
pub open spec fn other_pair() -> spec_fn(TaskProject, TaskProject) -> bool {
    |x: TaskProject, y: TaskProject| !(x.project_id == y.project_id && x.task_id == y.task_id)
}

/// What filtering does to a table of links: every link that is kept was
/// there and passes the filter, every link that passes is kept, and no pair
/// is joined twice that was not before.
pub proof fn lemma_kept_links(links: Seq<TaskProject>, keep: spec_fn(TaskProject) -> bool)
    ensures
        forall|k: int|
            0 <= k < links.filter(keep).len() ==> keep(#[trigger] links.filter(keep)[k])
                && links.contains(links.filter(keep)[k]),
        forall|i: int|
            0 <= i < links.len() && keep(links[i]) ==> links.filter(keep).contains(
                #[trigger] links[i],
            ),
        no_pair_twice(links) ==> no_pair_twice(links.filter(keep)),
{
    lemma_filter_members(links, keep);
    if no_pair_twice(links) {
        assert forall|i: int, j: int| 0 <= i < j < links.len() implies other_pair()(
            links[i],
            links[j],
        ) by {
            assert(!(links[i].project_id == links[j].project_id && links[i].task_id
                == links[j].task_id));
        }
        lemma_filter_keeps_order(links, keep, other_pair());
        let kept = links.filter(keep);
        assert forall|a: int, b: int| 0 <= a < b < kept.len() implies !((
        #[trigger] kept[a]).project_id == (#[trigger] kept[b]).project_id && kept[a].task_id
            == kept[b].task_id) by {
            assert(other_pair()(kept[a], kept[b]));
        }
    }
}

/// Whether some link joins a project and a task after a removal: it did
/// before, and the removal spares such a link.
pub proof fn lemma_joined_after_removal(
    links: Seq<TaskProject>,
    gone_project: Option<u128>,
    gone_task: Option<u128>,
    project: u128,
    task: u128,
)
    ensures
        links_join(links.filter(spared(gone_project, gone_task)), project, task) == (links_join(
            links,
            project,
            task,
        ) && !((gone_project is None || gone_project == Some(project)) && (gone_task is None
            || gone_task == Some(task)))),
{
    let keep = spared(gone_project, gone_task);
    let kept = links.filter(keep);
    lemma_kept_links(links, keep);
    if links_join(kept, project, task) {
        let k = choose|k: int|
            0 <= k < kept.len() && (#[trigger] kept[k]).project_id == project && kept[k].task_id
                == task;
        assert(keep(kept[k]) && links.contains(kept[k]));
        let m = choose|m: int| 0 <= m < links.len() && links[m] == kept[k];
        assert(links[m].project_id == project);
    }
    if links_join(links, project, task) && keep(
        TaskProject { project_id: project, task_id: task, created_at: 0 },
    ) {
        let i = choose|i: int|
            0 <= i < links.len() && (#[trigger] links[i]).project_id == project && links[i].task_id
                == task;
        assert(keep(links[i]));
        assert(kept.contains(links[i]));
        let m = choose|m: int| 0 <= m < kept.len() && kept[m] == links[i];
        assert(kept[m].project_id == project);
    }
}

impl Store {
    /// Whether the store obeys its rules. Every store that this module hands
    /// out does.
    pub open spec fn wf(&self) -> bool {
        self@.wf()
    }

    /// A store that holds nothing.
    pub fn new() -> (db: Store)
        ensures
            db.wf(),
            db@ == StoreState::empty(),
    {
        let db = Store { projects: Vec::new(), tasks: Vec::new(), links: Vec::new(), clock: 0 };
        assert(db@.projects =~= Seq::empty());
        assert(db@.tasks =~= Seq::empty());
        assert(db@.links =~= Seq::empty());
        db
    }

    fn project_position(&self, id: u128) -> (r: Option<usize>)
        ensures
            match r {
                Some(i) => i < self.projects.len() && self@.projects[i as int].id == id,
                None => !self@.has_project(id),
            },
    {
        let n = self.projects.len();
        let mut i: usize = 0;
        while i < n
            invariant
                n == self.projects.len(),
                i <= n,
                forall|j: int| 0 <= j < i ==> (#[trigger] self@.projects[j]).id != id,
            decreases n - i,
        {
            if self.projects[i].id == id {
                return Some(i);
            }
            i += 1;
        }
        None
    }

    fn task_position(&self, id: u128) -> (r: Option<usize>)
        ensures
            match r {
                Some(i) => i < self.tasks.len() && self@.tasks[i as int].id == id,
                None => !self@.has_task(id),
            },
    {
        let n = self.tasks.len();
        let mut i: usize = 0;
        while i < n
            invariant
                n == self.tasks.len(),
                i <= n,
                forall|j: int| 0 <= j < i ==> (#[trigger] self@.tasks[j]).id != id,
            decreases n - i,
        {
            if self.tasks[i].id == id {
                return Some(i);
            }
            i += 1;
        }
        None
    }

    /// Whether the task is in the project.
    pub fn is_linked(&self, project: u128, task: u128) -> (b: bool)
        ensures
            b == self@.linked(project, task),
    {
        let n = self.links.len();
        let mut i: usize = 0;
        while i < n
            invariant
                n == self.links.len(),
                i <= n,
                forall|j: int|
                    0 <= j < i ==> !((#[trigger] self@.links[j]).project_id == project
                        && self@.links[j].task_id == task),
            decreases n - i,
        {
            if self.links[i].project_id == project && self.links[i].task_id == task {
                assert(self@.links[i as int].project_id == project);
                return true;
            }
            i += 1;
        }
        false
    }

    /// Whether a project with this identifier is stored.
    pub fn has_project(&self, id: u128) -> (b: bool)
        ensures
            b == self@.has_project(id),
    {
        self.project_position(id).is_some()
    }

    /// Whether a task with this identifier is stored.
    pub fn has_task(&self, id: u128) -> (b: bool)
        ensures
            b == self@.has_task(id),
    {
        self.task_position(id).is_some()
    }

    /// The project with this identifier, if it is stored.
    pub fn find_project(&self, id: u128) -> (r: Option<Project>)
        requires
            self.wf(),
        ensures
            match self@.project(id) {
                Some(p) => r is Some && r->0@ == p,
                None => r is None,
            },
    {
        match self.project_position(id) {
            Some(i) => {
                proof {
                    lemma_project_at(self@, i as int);
                }
                Some(self.projects[i].clone())
            },
            None => None,
        }
    }

    /// The task with this identifier, if it is stored.
    pub fn find_task(&self, id: u128) -> (r: Option<Task>)
        requires
            self.wf(),
        ensures
            match self@.task(id) {
                Some(t) => r is Some && r->0@ == t,
                None => r is None,
            },
    {
        match self.task_position(id) {
            Some(i) => {
                proof {
                    lemma_task_at(self@, i as int);
                }
                Some(self.tasks[i].clone())
            },
            None => None,
        }
    }

    /// Stores a new project under the given identifier, without a
    /// description, and stamps it with the clock. Nothing is stored where
    /// the identifier is nil or taken, or the clock exhausted.
    pub fn insert_project(&mut self, id: u128, title: String) -> (r: Result<Project, StoreFault>)
        requires
            old(self).wf(),
        ensures
            final(self).wf(),
            match old(self)@.project_fault(id) {
                Some(fault) => r == Err::<Project, StoreFault>(fault) && final(self)@ == old(self)@,
                None => r is Ok && r->Ok_0@ == old(self)@.new_project(id, title@) && final(self)@
                    == old(self)@.project_added(id, title@),
            },
    {
        if id == NIL {
            return Err(StoreFault::NilId);
        }
        if self.project_position(id).is_some() {
            return Err(StoreFault::IdTaken);
        }
        if self.clock == u64::MAX {
            return Err(StoreFault::Exhausted);
        }
        let row = Project { id, title, description: None, created_at: self.clock };
        let copy = row.clone();
        self.projects.push(row);
        self.clock = self.clock + 1;
        proof {
            let before = old(self)@;
            let after = self@;
            assert(after.projects =~= before.projects.push(before.new_project(id, title@)));
            assert(after.tasks =~= before.tasks);
            assert forall|i: int| 0 <= i < after.links.len() implies after.has_project(
                (#[trigger] after.links[i]).project_id,
            ) && after.has_task(after.links[i].task_id) by {
                let pid = before.links[i].project_id;
                assert(before.has_project(pid));
                let k = choose|k: int|
                    0 <= k < before.projects.len() && (#[trigger] before.projects[k]).id == pid;
                assert(after.projects[k].id == pid);
            }
            assert(after.projects_wf()) by {
                assert forall|i: int, j: int| 0 <= i < j < after.projects.len() implies (
                #[trigger] after.projects[i]).id != (#[trigger] after.projects[j]).id
                    && after.projects[i].created_at < after.projects[j].created_at by {
                    if j < before.projects.len() {
                        assert(before.projects[i].id != before.projects[j].id);
                    } else {
                        assert(before.projects[i].id != id);
                    }
                }
            }
            assert(after.tasks_wf());
        }
        Ok(copy)
    }

    /// Stores a new task under the given identifier, without description or
    /// due date, and stamps it with the clock. Nothing is stored where the
    /// identifier is nil or taken, or the clock exhausted.
    pub fn insert_task(&mut self, id: u128, title: String, status: Status) -> (r: Result<
        Task,
        StoreFault,
    >)
        requires
            old(self).wf(),
        ensures
            final(self).wf(),
            match old(self)@.task_fault(id) {
                Some(fault) => r == Err::<Task, StoreFault>(fault) && final(self)@ == old(self)@,
                None => r is Ok && r->Ok_0@ == old(self)@.new_task(id, title@, status)
                    && final(self)@ == old(self)@.task_added(id, title@, status),
            },
    {
        if id == NIL {
            return Err(StoreFault::NilId);
        }
        if self.task_position(id).is_some() {
            return Err(StoreFault::IdTaken);
        }
        if self.clock == u64::MAX {
            return Err(StoreFault::Exhausted);
        }
        let row = Task {
            id,
            title,
            status,
            description: None,
            due_date: None,
            created_at: self.clock,
        };
        let copy = row.clone();
        self.tasks.push(row);
        self.clock = self.clock + 1;
        proof {
            let before = old(self)@;
            let after = self@;
            assert(after.tasks =~= before.tasks.push(before.new_task(id, title@, status)));
            assert(after.projects =~= before.projects);
            assert forall|i: int| 0 <= i < after.links.len() implies after.has_project(
                (#[trigger] after.links[i]).project_id,
            ) && after.has_task(after.links[i].task_id) by {
                let tid = before.links[i].task_id;
                assert(before.has_task(tid));
                let k = choose|k: int|
                    0 <= k < before.tasks.len() && (#[trigger] before.tasks[k]).id == tid;
                assert(after.tasks[k].id == tid);
            }
            assert(after.tasks_wf()) by {
                assert forall|i: int, j: int| 0 <= i < j < after.tasks.len() implies (
                #[trigger] after.tasks[i]).id != (#[trigger] after.tasks[j]).id
                    && after.tasks[i].created_at < after.tasks[j].created_at by {
                    if j < before.tasks.len() {
                        assert(before.tasks[i].id != before.tasks[j].id);
                    } else {
                        assert(before.tasks[i].id != id);
                    }
                }
            }
            assert(after.projects_wf());
        }
        Ok(copy)
    }

    /// Puts a task into a project and stamps the link with the clock.
    /// Nothing is stored where the project or the task is not stored, the
    /// task is already in the project, or the clock is exhausted.
    pub fn insert_link(&mut self, project: u128, task: u128) -> (r: Result<
        TaskProject,
        StoreFault,
    >)
        requires
            old(self).wf(),
        ensures
            final(self).wf(),
            match old(self)@.link_fault(project, task) {
                Some(fault) => r == Err::<TaskProject, StoreFault>(fault) && final(self)@
                    == old(self)@,
                None => r == Ok::<TaskProject, StoreFault>(old(self)@.new_link(project, task))
                    && final(self)@ == old(self)@.link_added(project, task),
            },
    {
        if self.project_position(project).is_none() {
            return Err(StoreFault::NoProject);
        }
        if self.task_position(task).is_none() {
            return Err(StoreFault::NoTask);
        }
        if self.is_linked(project, task) {
            return Err(StoreFault::AlreadyLinked);
        }
        if self.clock == u64::MAX {
            return Err(StoreFault::Exhausted);
        }
        let link = TaskProject { project_id: project, task_id: task, created_at: self.clock };
        self.links.push(link);
        self.clock = self.clock + 1;
        proof {
            let before = old(self)@;
            let after = self@;
            assert(after.links =~= before.links.push(link));
            assert(after.projects =~= before.projects);
            assert(after.tasks =~= before.tasks);
            assert forall|i: int| 0 <= i < after.links.len() implies after.has_project(
                (#[trigger] after.links[i]).project_id,
            ) && after.has_task(after.links[i].task_id) by {
                if i < before.links.len() {
                    assert(before.has_project(before.links[i].project_id));
                    assert(before.has_task(before.links[i].task_id));
                }
            }
            assert(no_pair_twice(before.links));
            assert forall|i: int, j: int| 0 <= i < j < after.links.len() implies !((
            #[trigger] after.links[i]).project_id == (#[trigger] after.links[j]).project_id
                && after.links[i].task_id == after.links[j].task_id) by {
                if j < before.links.len() {
                    assert(!(before.links[i].project_id == before.links[j].project_id
                        && before.links[i].task_id == before.links[j].task_id));
                } else {
                    assert(!(before.links[i].project_id == project && before.links[i].task_id
                        == task));
                }
            }
        }
        Ok(link)
    }

    /// Edits the project with this identifier and returns the row as it is
    /// stored afterwards, or `None` where no such project is stored.
    pub fn update_project(&mut self, id: u128, edit: &EditProjectPayload) -> (r: Option<Project>)
        requires
            old(self).wf(),
        ensures
            final(self).wf(),
            final(self)@ == old(self)@.project_edited(id, edit@),
            match old(self)@.project(id) {
                Some(p) => r is Some && r->0@ == p.patched(edit@),
                None => r is None,
            },
    {
        match self.project_position(id) {
            Some(i) => {
                let row = self.projects[i].patched(edit);
                let copy = row.clone();
                self.projects.set(i, row);
                proof {
                    let before = old(self)@;
                    let after = self@;
                    lemma_project_at(before, i as int);
                    assert(after.projects =~= before.projects.update(
                        i as int,
                        before.projects[i as int].patched(edit@),
                    ));
                    assert forall|j: int| 0 <= j < before.projects.len() implies (
                    #[trigger] after.projects[j]) == edit_of(id, edit@)(before.projects[j]) by {
                        if j < i {
                            assert(before.projects[j].id != before.projects[i as int].id);
                        }
                        if i < j {
                            assert(before.projects[i as int].id != before.projects[j].id);
                        }
                    }
                    assert(after.projects =~= before.projects.map_values(edit_of(id, edit@)));
                    assert(after.tasks =~= before.tasks);
                    assert forall|j: int| 0 <= j < after.projects.len() implies (
                    #[trigger] after.projects[j]).id == before.projects[j].id
                        && after.projects[j].created_at == before.projects[j].created_at by {}
                    assert(after.projects_wf()) by {
                        assert forall|a: int, b: int| 0 <= a < b < after.projects.len() implies (
                        #[trigger] after.projects[a]).id != (#[trigger] after.projects[b]).id
                            && after.projects[a].created_at < after.projects[b].created_at by {
                            assert(before.projects[a].id != before.projects[b].id);
                        }
                    }
                    assert forall|k: int| 0 <= k < after.links.len() implies after.has_project(
                        (#[trigger] after.links[k]).project_id,
                    ) && after.has_task(after.links[k].task_id) by {
                        let pid = before.links[k].project_id;
                        assert(before.has_project(pid));
                        let w = choose|w: int|
                            0 <= w < before.projects.len() && (#[trigger] before.projects[w]).id
                                == pid;
                        assert(after.projects[w].id == pid);
                        assert(before.has_task(before.links[k].task_id));
                    }
                }
                Some(copy)
            },
            None => {
                proof {
                    let before = old(self)@;
                    assert forall|j: int| 0 <= j < before.projects.len() implies edit_of(id, edit@)(
                        #[trigger] before.projects[j],
                    ) == before.projects[j] by {}
                    assert(before.projects =~= before.projects.map_values(edit_of(id, edit@)));
                }
                None
            },
        }
    }

    /// Patches the task with this identifier and returns the row as it is
    /// stored afterwards, or `None` where no such task is stored.
    pub fn update_task(&mut self, id: u128, patch: &TaskPatch) -> (r: Option<Task>)
        requires
            old(self).wf(),
        ensures
            final(self).wf(),
            final(self)@ == old(self)@.task_patched(id, patch@),
            match old(self)@.task(id) {
                Some(t) => r is Some && r->0@ == t.patched(patch@),
                None => r is None,
            },
    {
        match self.task_position(id) {
            Some(i) => {
                let row = self.tasks[i].patched(patch);
                let copy = row.clone();
                self.tasks.set(i, row);
                proof {
                    let before = old(self)@;
                    let after = self@;
                    lemma_task_at(before, i as int);
                    assert(after.tasks =~= before.tasks.update(
                        i as int,
                        before.tasks[i as int].patched(patch@),
                    ));
                    assert forall|j: int| 0 <= j < before.tasks.len() implies (
                    #[trigger] after.tasks[j]) == patch_of(id, patch@)(before.tasks[j]) by {
                        if j < i {
                            assert(before.tasks[j].id != before.tasks[i as int].id);
                        }
                        if i < j {
                            assert(before.tasks[i as int].id != before.tasks[j].id);
                        }
                    }
                    assert(after.tasks =~= before.tasks.map_values(patch_of(id, patch@)));
                    assert(after.projects =~= before.projects);
                    assert forall|j: int| 0 <= j < after.tasks.len() implies (
                    #[trigger] after.tasks[j]).id == before.tasks[j].id
                        && after.tasks[j].created_at == before.tasks[j].created_at by {}
                    assert(after.tasks_wf()) by {
                        assert forall|a: int, b: int| 0 <= a < b < after.tasks.len() implies (
                        #[trigger] after.tasks[a]).id != (#[trigger] after.tasks[b]).id
                            && after.tasks[a].created_at < after.tasks[b].created_at by {
                            assert(before.tasks[a].id != before.tasks[b].id);
                        }
                    }
                    assert forall|k: int| 0 <= k < after.links.len() implies after.has_project(
                        (#[trigger] after.links[k]).project_id,
                    ) && after.has_task(after.links[k].task_id) by {
                        let tid = before.links[k].task_id;
                        assert(before.has_task(tid));
                        let w = choose|w: int|
                            0 <= w < before.tasks.len() && (#[trigger] before.tasks[w]).id == tid;
                        assert(after.tasks[w].id == tid);
                        assert(before.has_project(before.links[k].project_id));
                    }
                }
                Some(copy)
            },
            None => {
                proof {
                    let before = old(self)@;
                    assert forall|j: int| 0 <= j < before.tasks.len() implies patch_of(id, patch@)(
                        #[trigger] before.tasks[j],
                    ) == before.tasks[j] by {}
                    assert(before.tasks =~= before.tasks.map_values(patch_of(id, patch@)));
                }
                None
            },
        }
    }

    /// Takes out every link that matches each name given.
    fn drop_links(&mut self, project: Option<u128>, task: Option<u128>)
        ensures
            final(self)@.links == old(self)@.links.filter(spared(project, task)),
            final(self)@.projects == old(self)@.projects,
            final(self)@.tasks == old(self)@.tasks,
            final(self)@.clock == old(self)@.clock,
    {
        let mut kept: Vec<TaskProject> = Vec::new();
        let n = self.links.len();
        let mut i: usize = 0;
        proof {
            reveal(Seq::filter);
            assert(self.links@.take(0) =~= Seq::<TaskProject>::empty());
        }
        while i < n
            invariant
                n == self.links.len(),
                i <= n,
                kept@ == self.links@.take(i as int).filter(spared(project, task)),
            decreases n - i,
        {
            let l = self.links[i];
            proof {
                reveal(Seq::filter);
                assert(self.links@.take(i + 1).drop_last() =~= self.links@.take(i as int));
            }
            let matches_project = match project {
                Some(p) => p == l.project_id,
                None => true,
            };
            let matches_task = match task {
                Some(t) => t == l.task_id,
                None => true,
            };
            if !(matches_project && matches_task) {
                kept.push(l);
            }
            i += 1;
        }
        proof {
            assert(self.links@.take(n as int) =~= self.links@);
        }
        self.links = kept;
    }

    /// Takes a task out of a project. Returns whether it was in it.
    pub fn delete_link(&mut self, project: u128, task: u128) -> (removed: bool)
        requires
            old(self).wf(),
        ensures
            final(self).wf(),
            final(self)@ == old(self)@.link_removed(project, task),
            removed == old(self)@.linked(project, task),
    {
        let removed = self.is_linked(project, task);
        self.drop_links(Some(project), Some(task));
        proof {
            let before = old(self)@;
            let after = self@;
            lemma_kept_links(before.links, spared(Some(project), Some(task)));
            assert forall|i: int| 0 <= i < after.links.len() implies after.has_project(
                (#[trigger] after.links[i]).project_id,
            ) && after.has_task(after.links[i].task_id) by {
                assert(before.links.contains(after.links[i]));
                let m = choose|m: int| 0 <= m < before.links.len() && before.links[m]
                    == after.links[i];
                assert(before.has_project(before.links[m].project_id));
                assert(before.has_task(before.links[m].task_id));
            }
        }
        removed
    }

    /// Deletes the project with this identifier together with every link to
    /// it. Returns whether such a project was stored.
    pub fn delete_project(&mut self, id: u128) -> (removed: bool)
        requires
            old(self).wf(),
        ensures
            final(self).wf(),
            final(self)@ == old(self)@.project_removed(id),
            removed == old(self)@.has_project(id),
    {
        match self.project_position(id) {
            Some(i) => {
                proof {
                    lemma_project_at(self@, i as int);
                }
                let _ = self.projects.remove(i);
                self.drop_links(Some(id), None);
                proof {
                    let before = old(self)@;
                    let after = self@;
                    assert(after.projects =~= before.projects.remove(i as int));
                    assert(after.tasks =~= before.tasks);
                    lemma_kept_links(before.links, spared(Some(id), None));
                    assert forall|a: int| 0 <= a < after.projects.len() implies (
                    #[trigger] after.projects[a]) == before.projects[if a < i {
                        a
                    } else {
                        a + 1
                    }] by {}
                    assert(after.projects_wf()) by {
                        assert forall|a: int| 0 <= a < after.projects.len() implies (
                        #[trigger] after.projects[a]).id != NIL && after.projects[a].created_at
                            < after.clock by {
                            let a0 = if a < i { a } else { a + 1 };
                            assert(before.projects[a0].id != NIL);
                        }
                        assert forall|a: int, b: int| 0 <= a < b < after.projects.len() implies (
                        #[trigger] after.projects[a]).id != (#[trigger] after.projects[b]).id
                            && after.projects[a].created_at < after.projects[b].created_at by {
                            let a0 = if a < i { a } else { a + 1 };
                            let b0 = if b < i { b } else { b + 1 };
                            assert(before.projects[a0].id != before.projects[b0].id);
                        }
                    }
                    assert forall|k: int| 0 <= k < after.links.len() implies after.has_project(
                        (#[trigger] after.links[k]).project_id,
                    ) && after.has_task(after.links[k].task_id) by {
                        let l = after.links[k];
                        assert(before.links.contains(l));
                        let m = choose|m: int| 0 <= m < before.links.len() && before.links[m] == l;
                        assert(before.has_project(before.links[m].project_id));
                        assert(before.has_task(before.links[m].task_id));
                        let w = choose|w: int|
                            0 <= w < before.projects.len() && (#[trigger] before.projects[w]).id
                                == l.project_id;
                        assert(w != i);
                        let w1 = if w < i { w } else { w - 1 };
                        assert(after.projects[w1].id == l.project_id);
                    }
                }
                true
            },
            None => false,
        }
    }

    /// Deletes the task with this identifier together with every link to
    /// it. Returns whether such a task was stored.
    pub fn delete_task(&mut self, id: u128) -> (removed: bool)
        requires
            old(self).wf(),
        ensures
            final(self).wf(),
            final(self)@ == old(self)@.task_removed(id),
            removed == old(self)@.has_task(id),
    {
        match self.task_position(id) {
            Some(i) => {
                proof {
                    lemma_task_at(self@, i as int);
                }
                let _ = self.tasks.remove(i);
                self.drop_links(None, Some(id));
                proof {
                    let before = old(self)@;
                    let after = self@;
                    assert(after.tasks =~= before.tasks.remove(i as int));
                    assert(after.projects =~= before.projects);
                    lemma_kept_links(before.links, spared(None, Some(id)));
                    assert forall|a: int| 0 <= a < after.tasks.len() implies (
                    #[trigger] after.tasks[a]) == before.tasks[if a < i {
                        a
                    } else {
                        a + 1
                    }] by {}
                    assert(after.tasks_wf()) by {
                        assert forall|a: int| 0 <= a < after.tasks.len() implies (
                        #[trigger] after.tasks[a]).id != NIL && after.tasks[a].created_at
                            < after.clock by {
                            let a0 = if a < i { a } else { a + 1 };
                            assert(before.tasks[a0].id != NIL);
                        }
                        assert forall|a: int, b: int| 0 <= a < b < after.tasks.len() implies (
                        #[trigger] after.tasks[a]).id != (#[trigger] after.tasks[b]).id
                            && after.tasks[a].created_at < after.tasks[b].created_at by {
                            let a0 = if a < i { a } else { a + 1 };
                            let b0 = if b < i { b } else { b + 1 };
                            assert(before.tasks[a0].id != before.tasks[b0].id);
                        }
                    }
                    assert forall|k: int| 0 <= k < after.links.len() implies after.has_project(
                        (#[trigger] after.links[k]).project_id,
                    ) && after.has_task(after.links[k].task_id) by {
                        let l = after.links[k];
                        assert(before.links.contains(l));
                        let m = choose|m: int| 0 <= m < before.links.len() && before.links[m] == l;
                        assert(before.has_project(before.links[m].project_id));
                        assert(before.has_task(before.links[m].task_id));
                        let w = choose|w: int|
                            0 <= w < before.tasks.len() && (#[trigger] before.tasks[w]).id
                                == l.task_id;
                        assert(w != i);
                        let w1 = if w < i { w } else { w - 1 };
                        assert(after.tasks[w1].id == l.task_id);
                    }
                }
                true
            },
            None => false,
        }
    }

    /// All projects, the newest first.
    pub fn list_projects(&self) -> (r: Vec<Project>)
        ensures
            project_views(r@) == self@.projects_newest_first(),
    {
        let n = self.projects.len();
        let mut r: Vec<Project> = Vec::new();
        let mut i: usize = n;
        while i > 0
            invariant
                n == self.projects.len(),
                i <= n,
                r.len() == n - i,
                forall|k: int| 0 <= k < r.len() ==> r@[k]@ == self@.projects[n - 1 - k],
            decreases i,
        {
            i -= 1;
            r.push(self.projects[i].clone());
        }
        assert(project_views(r@) =~= self@.projects.reverse());
        r
    }

    /// Whether a task's title or description contains `text`.
    fn task_mentions(task: &Task, text: &str) -> (b: bool)
        ensures
            b == mentions(text@)(task@),
    {
        if contains_text(task.title.as_str(), text) {
            true
        } else {
            match &task.description {
                Some(d) => contains_text(d.as_str(), text),
                None => false,
            }
        }
    }

    /// The tasks whose title or description contains `text`, compared
    /// character by character, the newest first.
    pub fn search_tasks(&self, text: &str) -> (r: Vec<Task>)
        ensures
            task_views(r@) == self@.tasks_matching(text@),
    {
        let n = self.tasks.len();
        let mut found: Vec<Task> = Vec::new();
        let mut i: usize = 0;
        proof {
            reveal(Seq::filter);
            assert(self@.tasks.take(0) =~= Seq::<TaskView>::empty());
            assert(task_views(found@) =~= self@.tasks.take(0).filter(mentions(text@)));
        }
        while i < n
            invariant
                n == self.tasks.len(),
                i <= n,
                task_views(found@) == self@.tasks.take(i as int).filter(mentions(text@)),
            decreases n - i,
        {
            proof {
                reveal(Seq::filter);
                assert(self@.tasks.take(i + 1).drop_last() =~= self@.tasks.take(i as int));
            }
            if Self::task_mentions(&self.tasks[i], text) {
                let ghost before = found@;
                let copy = self.tasks[i].clone();
                found.push(copy);
                assert(task_views(found@) =~= task_views(before).push(copy@));
            }
            i += 1;
        }
        proof {
            assert(self@.tasks.take(n as int) =~= self@.tasks);
        }
        let ghost oldest_first = found@;
        let r = reversed(found);
        assert(task_views(r@) =~= task_views(oldest_first).reverse());
        r
    }

    /// The tasks of a project, the oldest first.
    pub fn tasks_of_project(&self, project: u128) -> (r: Vec<Task>)
        ensures
            task_views(r@) == self@.tasks_of(project),
    {
        let n = self.tasks.len();
        let mut r: Vec<Task> = Vec::new();
        let mut i: usize = 0;
        proof {
            reveal(Seq::filter);
            assert(self@.tasks.take(0) =~= Seq::<TaskView>::empty());
            assert(task_views(r@) =~= self@.tasks.take(0).filter(member(self@.links, project)));
        }
        while i < n
            invariant
                n == self.tasks.len(),
                i <= n,
                task_views(r@) == self@.tasks.take(i as int).filter(member(self@.links, project)),
            decreases n - i,
        {
            proof {
                reveal(Seq::filter);
                assert(self@.tasks.take(i + 1).drop_last() =~= self@.tasks.take(i as int));
            }
            if self.is_linked(project, self.tasks[i].id) {
                let ghost before = r@;
                let copy = self.tasks[i].clone();
                r.push(copy);
                assert(task_views(r@) =~= task_views(before).push(copy@));
            }
            i += 1;
        }
        proof {
            assert(self@.tasks.take(n as int) =~= self@.tasks);
        }
        r
    }

    /// The projects that a task is in, the oldest first.
    pub fn projects_of_task(&self, task: u128) -> (r: Vec<Project>)
        ensures
            project_views(r@) == self@.projects_of(task),
    {
        let n = self.projects.len();
        let mut r: Vec<Project> = Vec::new();
        let mut i: usize = 0;
        proof {
            reveal(Seq::filter);
            assert(self@.projects.take(0) =~= Seq::<ProjectView>::empty());
            assert(project_views(r@) =~= self@.projects.take(0).filter(holder(self@.links, task)));
        }
        while i < n
            invariant
                n == self.projects.len(),
                i <= n,
                project_views(r@) == self@.projects.take(i as int).filter(
                    holder(self@.links, task),
                ),
            decreases n - i,
        {
            proof {
                reveal(Seq::filter);
                assert(self@.projects.take(i + 1).drop_last() =~= self@.projects.take(i as int));
            }
            if self.is_linked(self.projects[i].id, task) {
                let ghost before = r@;
                let copy = self.projects[i].clone();
                r.push(copy);
                assert(project_views(r@) =~= project_views(before).push(copy@));
            }
            i += 1;
        }
        proof {
            assert(self@.projects.take(n as int) =~= self@.projects);
        }
        r
    }

    /// The task counts of a project.
    pub fn tally(&self, project: u128) -> (t: ProjectStats)
        ensures
            t == self@.tally(project),
    {
        let n = self.tasks.len();
        let mut complete: u64 = 0;
        let mut in_progress: u64 = 0;
        let mut todo: u64 = 0;
        let mut total: u64 = 0;
        let mut i: usize = 0;
        let ghost links = self@.links;
        proof {
            reveal(Seq::filter);
            assert(self@.tasks.take(0) =~= Seq::<TaskView>::empty());
        }
        while i < n
            invariant
                n == self.tasks.len(),
                i <= n,
                links == self@.links,
                complete == self@.tasks.take(i as int).filter(
                    member_with(links, project, Status::Complete),
                ).len(),
                in_progress == self@.tasks.take(i as int).filter(
                    member_with(links, project, Status::InProgress),
                ).len(),
                todo == self@.tasks.take(i as int).filter(
                    member_with(links, project, Status::Todo),
                ).len(),
                total == self@.tasks.take(i as int).filter(member(links, project)).len(),
                complete <= i,
                in_progress <= i,
                todo <= i,
                total <= i,
            decreases n - i,
        {
            proof {
                reveal(Seq::filter);
                assert(self@.tasks.take(i + 1).drop_last() =~= self@.tasks.take(i as int));
            }
            if self.is_linked(project, self.tasks[i].id) {
                total = total + 1;
                match self.tasks[i].status {
                    Status::Complete => {
                        complete = complete + 1;
                    },
                    Status::InProgress => {
                        in_progress = in_progress + 1;
                    },
                    Status::Todo => {
                        todo = todo + 1;
                    },
                }
            }
            i += 1;
        }
        proof {
            assert(self@.tasks.take(n as int) =~= self@.tasks);
        }
        ProjectStats { id: project, complete, in_progress, todo, total }
    }

    /// Whether an identifier is among those of a list.
    fn id_listed(ids: &Vec<u128>, id: u128) -> (b: bool)
        ensures
            b == ids@.contains(id),
    {
        let n = ids.len();
        let mut i: usize = 0;
        while i < n
            invariant
                n == ids.len(),
                i <= n,
                forall|j: int| 0 <= j < i ==> ids@[j] != id,
            decreases n - i,
        {
            if ids[i] == id {
                return true;
            }
            i += 1;
        }
        false
    }

    /// The task counts of the stored projects whose identifier is among
    /// `ids`, the oldest project first. A project with no task is counted
    /// with zeros; an identifier that names no stored project adds nothing.
    pub fn stats(&self, ids: &Vec<u128>) -> (r: Vec<ProjectStats>)
        ensures
            r@ == self@.stats(ids@),
    {
        let n = self.projects.len();
        let mut r: Vec<ProjectStats> = Vec::new();
        let mut i: usize = 0;
        proof {
            reveal(Seq::filter);
            assert(self@.projects.take(0) =~= Seq::<ProjectView>::empty());
            assert(r@ =~= self@.projects.take(0).filter(listed(ids@)).map_values(
                self@.tally_of(),
            ));
        }
        while i < n
            invariant
                n == self.projects.len(),
                i <= n,
                r@ == self@.projects.take(i as int).filter(listed(ids@)).map_values(
                    self@.tally_of(),
                ),
            decreases n - i,
        {
            proof {
                reveal(Seq::filter);
                assert(self@.projects.take(i + 1).drop_last() =~= self@.projects.take(i as int));
            }
            if Self::id_listed(ids, self.projects[i].id) {
                let ghost before = self@.projects.take(i as int).filter(listed(ids@));
                let t = self.tally(self.projects[i].id);
                r.push(t);
                assert(r@ =~= before.push(self@.projects[i as int]).map_values(self@.tally_of()));
            }
            i += 1;
        }
        proof {
            assert(self@.projects.take(n as int) =~= self@.projects);
        }
        r
    }
}

} // verus!
