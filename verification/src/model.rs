//! The entity store as a mathematical value: three tables and a clock, the
//! rules that every stored state obeys, and what each request makes of a
//! state.

use crate::error::{error_response, Error, ErrorKind, ErrorView};
use crate::ident::NIL;
use crate::project::{EditProjectPayloadView, ProjectView};
use crate::status::Status;
use crate::task::{TaskPatchView, TaskProject, TaskView};
use crate::text::occurs_in;
use vstd::prelude::*;

verus! {

/// Why the store turned a request down.
#[derive(Clone, Copy, Debug, PartialEq, Eq, Structural)]
pub enum StoreFault {
    /// The nil identifier names no row, so no row may carry it.
    NilId,
    /// A row with this identifier is already stored.
    IdTaken,
    /// The link names a project that is not stored.
    NoProject,
    /// The link names a task that is not stored.
    NoTask,
    /// The task is already in the project.
    AlreadyLinked,
    /// The clock has no stamp left to give.
    Exhausted,
}

impl StoreFault {
    /// What the fault says to a human reader.
    pub open spec fn message(self) -> Seq<char> {
        match self {
            StoreFault::NilId => "The nil identifier cannot be stored"@,
            StoreFault::IdTaken => "A row with this identifier is already stored"@,
            StoreFault::NoProject => "The link names a project that is not stored"@,
            StoreFault::NoTask => "The link names a task that is not stored"@,
            StoreFault::AlreadyLinked => "The task is already in the project"@,
            StoreFault::Exhausted => "The store has no timestamp left"@,
        }
    }

    /// The failure that reports the fault: a generic failure with the
    /// fault's message as its details.
    pub open spec fn error(self) -> ErrorView {
        ErrorView { kind: ErrorKind::Internal, message: self.message() }
    }

    /// The failure that reports the fault.
    pub fn into_error(self) -> (e: Error)
        ensures
            e@ == self.error(),
    {
        let text = match self {
            StoreFault::NilId => "The nil identifier cannot be stored",
            StoreFault::IdTaken => "A row with this identifier is already stored",
            StoreFault::NoProject => "The link names a project that is not stored",
            StoreFault::NoTask => "The link names a task that is not stored",
            StoreFault::AlreadyLinked => "The task is already in the project",
            StoreFault::Exhausted => "The store has no timestamp left",
        };
        error_response(String::from_str(text))
    }
}

/// The task counts of one project.
#[derive(Clone, Copy, Debug, PartialEq, Eq, Structural)]
pub struct ProjectStats {
    pub id: u128,
    pub complete: u64,
    pub in_progress: u64,
    pub todo: u64,
    pub total: u64,
}

/// A state of the store. Rows stand in the order in which they were stored.
pub struct StoreState {
    pub projects: Seq<ProjectView>,
    pub tasks: Seq<TaskView>,
    pub links: Seq<TaskProject>,
    /// The stamp that the next stored row gets.
    pub clock: u64,
}

/// Holds of the links that a removal spares. A removal names a project, a
/// task, or both, and takes every link that matches each name given.
pub open spec fn spared(project: Option<u128>, task: Option<u128>) -> spec_fn(TaskProject) -> bool {
    |l: TaskProject|
        !((project is None || project == Some(l.project_id)) && (task is None || task == Some(
            l.task_id,
        )))
}

/// Whether no two links join the same project with the same task.
pub open spec fn no_pair_twice(links: Seq<TaskProject>) -> bool {
    forall|i: int, j: int|
        0 <= i < j < links.len() ==> !((#[trigger] links[i]).project_id == (
        #[trigger] links[j]).project_id && links[i].task_id == links[j].task_id)
}

/// Holds of the tasks whose title or description contains `text`.
pub open spec fn mentions(text: Seq<char>) -> spec_fn(TaskView) -> bool {
    |t: TaskView|
        occurs_in(text, t.title) || (t.description is Some && occurs_in(text, t.description->0))
}

/// Holds of the projects whose identifier is among `ids`.
pub open spec fn listed(ids: Seq<u128>) -> spec_fn(ProjectView) -> bool {
    |p: ProjectView| ids.contains(p.id)
}

/// Whether some link joins `project` and `task`.
pub open spec fn links_join(links: Seq<TaskProject>, project: u128, task: u128) -> bool {
    exists|i: int|
        0 <= i < links.len() && (#[trigger] links[i]).project_id == project && links[i].task_id
            == task
}

/// Holds of the tasks that `links` put into `project`.
pub open spec fn member(links: Seq<TaskProject>, project: u128) -> spec_fn(TaskView) -> bool {
    |t: TaskView| links_join(links, project, t.id)
}

/// Holds of the tasks that `links` put into `project` and that have `status`.
pub open spec fn member_with(links: Seq<TaskProject>, project: u128, status: Status) -> spec_fn(
    TaskView,
) -> bool {
    |t: TaskView| links_join(links, project, t.id) && t.status == status
}

/// Holds of the projects that `links` join with `task`.
pub open spec fn holder(links: Seq<TaskProject>, task: u128) -> spec_fn(ProjectView) -> bool {
    |p: ProjectView| links_join(links, p.id, task)
}

/// The edit applied to the project `id` and to no other row.
pub open spec fn edit_of(id: u128, edit: EditProjectPayloadView) -> spec_fn(
    ProjectView,
) -> ProjectView {
    |p: ProjectView|
        if p.id == id {
            p.patched(edit)
        } else {
            p
        }
}

/// The patch applied to the task `id` and to no other row.
pub open spec fn patch_of(id: u128, patch: TaskPatchView) -> spec_fn(TaskView) -> TaskView {
    |t: TaskView|
        if t.id == id {
            t.patched(patch)
        } else {
            t
        }
}

impl StoreState {
    /// The store that holds nothing.
    pub open spec fn empty() -> StoreState {
        StoreState { projects: Seq::empty(), tasks: Seq::empty(), links: Seq::empty(), clock: 0 }
    }

    /// Whether a project with this identifier is stored.
    pub open spec fn has_project(self, id: u128) -> bool {
        exists|i: int| 0 <= i < self.projects.len() && (#[trigger] self.projects[i]).id == id
    }

    /// Whether a task with this identifier is stored.
    pub open spec fn has_task(self, id: u128) -> bool {
        exists|i: int| 0 <= i < self.tasks.len() && (#[trigger] self.tasks[i]).id == id
    }

    /// Whether the task is in the project.
    pub open spec fn linked(self, project: u128, task: u128) -> bool {
        links_join(self.links, project, task)
    }

    /// Where the project with this identifier stands, if it is stored.
    pub open spec fn project_index(self, id: u128) -> int {
        choose|i: int| 0 <= i < self.projects.len() && (#[trigger] self.projects[i]).id == id
    }

    /// Where the task with this identifier stands, if it is stored.
    pub open spec fn task_index(self, id: u128) -> int {
        choose|i: int| 0 <= i < self.tasks.len() && (#[trigger] self.tasks[i]).id == id
    }

    /// The project with this identifier.
    pub open spec fn project(self, id: u128) -> Option<ProjectView> {
        if self.has_project(id) {
            Some(self.projects[self.project_index(id)])
        } else {
            None
        }
    }

    /// The task with this identifier.
    pub open spec fn task(self, id: u128) -> Option<TaskView> {
        if self.has_task(id) {
            Some(self.tasks[self.task_index(id)])
        } else {
            None
        }
    }

    /// The rules of the project table: no nil identifier, no identifier
    /// twice, stamps that grow with the position and lie behind the clock.
    pub open spec fn projects_wf(self) -> bool {
        &&& forall|i: int|
            0 <= i < self.projects.len() ==> (#[trigger] self.projects[i]).id != NIL
                && self.projects[i].created_at < self.clock
        &&& forall|i: int, j: int|
            0 <= i < j < self.projects.len() ==> (#[trigger] self.projects[i]).id != (
            #[trigger] self.projects[j]).id && self.projects[i].created_at
                < self.projects[j].created_at
    }

    /// The rules of the task table, which are those of the project table.
    pub open spec fn tasks_wf(self) -> bool {
        &&& forall|i: int|
            0 <= i < self.tasks.len() ==> (#[trigger] self.tasks[i]).id != NIL
                && self.tasks[i].created_at < self.clock
        &&& forall|i: int, j: int|
            0 <= i < j < self.tasks.len() ==> (#[trigger] self.tasks[i]).id != (
            #[trigger] self.tasks[j]).id && self.tasks[i].created_at < self.tasks[j].created_at
    }

    /// The rules of the link table: every link joins a stored project with a
    /// stored task, and no pair is joined twice.
    pub open spec fn links_wf(self) -> bool {
        &&& forall|i: int|
            0 <= i < self.links.len() ==> self.has_project((#[trigger] self.links[i]).project_id)
                && self.has_task(self.links[i].task_id)
        &&& no_pair_twice(self.links)
    }

    /// The rules that every state of the store obeys.
    pub open spec fn wf(self) -> bool {
        self.projects_wf() && self.tasks_wf() && self.links_wf()
    }

    /// Why a project with this identifier cannot be stored, if it cannot.
    pub open spec fn project_fault(self, id: u128) -> Option<StoreFault> {
        if id == NIL {
            Some(StoreFault::NilId)
        } else if self.has_project(id) {
            Some(StoreFault::IdTaken)
        } else if self.clock == u64::MAX {
            Some(StoreFault::Exhausted)
        } else {
            None
        }
    }

    /// Why a task with this identifier cannot be stored, if it cannot.
    pub open spec fn task_fault(self, id: u128) -> Option<StoreFault> {
        if id == NIL {
            Some(StoreFault::NilId)
        } else if self.has_task(id) {
            Some(StoreFault::IdTaken)
        } else if self.clock == u64::MAX {
            Some(StoreFault::Exhausted)
        } else {
            None
        }
    }

    /// Why the task cannot be put into the project, if it cannot.
    pub open spec fn link_fault(self, project: u128, task: u128) -> Option<StoreFault> {
        if !self.has_project(project) {
            Some(StoreFault::NoProject)
        } else if !self.has_task(task) {
            Some(StoreFault::NoTask)
        } else if self.linked(project, task) {
            Some(StoreFault::AlreadyLinked)
        } else if self.clock == u64::MAX {
            Some(StoreFault::Exhausted)
        } else {
            None
        }
    }

    /// The project that a store in this state makes of an identifier and a
    /// title: no description yet, and the clock's stamp.
    pub open spec fn new_project(self, id: u128, title: Seq<char>) -> ProjectView {
        ProjectView { id, title, description: None, created_at: self.clock }
    }

    /// The task that a store in this state makes of an identifier, a title
    /// and a status: no description and no due date yet, and the clock's
    /// stamp.
    pub open spec fn new_task(self, id: u128, title: Seq<char>, status: Status) -> TaskView {
        TaskView { id, title, status, description: None, due_date: None, created_at: self.clock }
    }

    /// The link that a store in this state makes of a project and a task.
    pub open spec fn new_link(self, project: u128, task: u128) -> TaskProject {
        TaskProject { project_id: project, task_id: task, created_at: self.clock }
    }

    /// The state after a project was stored.
    pub open spec fn project_added(self, id: u128, title: Seq<char>) -> StoreState {
        StoreState {
            projects: self.projects.push(self.new_project(id, title)),
            clock: (self.clock + 1) as u64,
            ..self
        }
    }

    /// The state after a task was stored.
    pub open spec fn task_added(self, id: u128, title: Seq<char>, status: Status) -> StoreState {
        StoreState {
            tasks: self.tasks.push(self.new_task(id, title, status)),
            clock: (self.clock + 1) as u64,
            ..self
        }
    }

    /// The state after a task was put into a project.
    pub open spec fn link_added(self, project: u128, task: u128) -> StoreState {
        StoreState {
            links: self.links.push(self.new_link(project, task)),
            clock: (self.clock + 1) as u64,
            ..self
        }
    }

    /// The state after an edit of the project `id`. Where no such project is
    /// stored, this is the state before.
    pub open spec fn project_edited(self, id: u128, edit: EditProjectPayloadView) -> StoreState {
        StoreState { projects: self.projects.map_values(edit_of(id, edit)), ..self }
    }

    /// The state after a patch of the task `id`. Where no such task is
    /// stored, this is the state before.
    pub open spec fn task_patched(self, id: u128, patch: TaskPatchView) -> StoreState {
        StoreState { tasks: self.tasks.map_values(patch_of(id, patch)), ..self }
    }

    /// The state after the project `id` was deleted: its row is gone, and so
    /// is every link to it. Tasks are not touched.
    pub open spec fn project_removed(self, id: u128) -> StoreState {
        if self.has_project(id) {
            StoreState {
                projects: self.projects.remove(self.project_index(id)),
                links: self.links.filter(spared(Some(id), None)),
                ..self
            }
        } else {
            self
        }
    }

    /// The state after the task `id` was deleted: its row is gone, and so is
    /// every link to it. Projects are not touched.
    pub open spec fn task_removed(self, id: u128) -> StoreState {
        if self.has_task(id) {
            StoreState {
                tasks: self.tasks.remove(self.task_index(id)),
                links: self.links.filter(spared(None, Some(id))),
                ..self
            }
        } else {
            self
        }
    }

    /// The state after the task was taken out of the project.
    pub open spec fn link_removed(self, project: u128, task: u128) -> StoreState {
        StoreState { links: self.links.filter(spared(Some(project), Some(task))), ..self }
    }

    /// All projects, the newest first.
    pub open spec fn projects_newest_first(self) -> Seq<ProjectView> {
        self.projects.reverse()
    }

    /// The tasks whose title or description contains `text`, the newest
    /// first.
    pub open spec fn tasks_matching(self, text: Seq<char>) -> Seq<TaskView> {
        self.tasks.filter(mentions(text)).reverse()
    }

    /// The tasks of a project, the oldest first.
    pub open spec fn tasks_of(self, project: u128) -> Seq<TaskView> {
        self.tasks.filter(member(self.links, project))
    }

    /// The projects that a task is in, the oldest first.
    pub open spec fn projects_of(self, task: u128) -> Seq<ProjectView> {
        self.projects.filter(holder(self.links, task))
    }

    /// How many tasks of a project have a status.
    pub open spec fn count(self, project: u128, status: Status) -> nat {
        self.tasks.filter(member_with(self.links, project, status)).len()
    }

    /// How many tasks a project has.
    pub open spec fn total(self, project: u128) -> nat {
        self.tasks_of(project).len()
    }

    /// The task counts of a project.
    pub open spec fn tally(self, project: u128) -> ProjectStats {
        ProjectStats {
            id: project,
            complete: self.count(project, Status::Complete) as u64,
            in_progress: self.count(project, Status::InProgress) as u64,
            todo: self.count(project, Status::Todo) as u64,
            total: self.total(project) as u64,
        }
    }

    /// Gives each project its task counts.
    pub open spec fn tally_of(self) -> spec_fn(ProjectView) -> ProjectStats {
        |p: ProjectView| self.tally(p.id)
    }

    /// The task counts of the stored projects whose identifier is among
    /// `ids`, the oldest project first. An identifier that names no stored
    /// project adds nothing.
    pub open spec fn stats(self, ids: Seq<u128>) -> Seq<ProjectStats> {
        self.projects.filter(listed(ids)).map_values(self.tally_of())
    }
}

} // verus!
