//! Tasks: the stored row, the edit payload and the patch it turns into, and
//! the operations on tasks.

use crate::date::{date_or_invalid, parse_date, ymd_text_value, Date};
use crate::error::{Error, ErrorKind, ErrorView};
use crate::ident::{id_text, is_random_uuid, new_id, uuid_text};
use crate::model::StoreState;
use crate::store::Store;
use crate::fields::{ClearableField, FieldSet};
use crate::status::{invalid_status, Status};
use crate::text::{clone_opt_text, joined, opt_str, opt_text};
use vstd::prelude::*;

verus! {

/// A stored task.
#[derive(Debug, PartialEq, Eq)]
pub struct Task {
    /// Chosen when the task is created, and never changed.
    pub id: u128,
    pub title: String,
    pub status: Status,
    pub description: Option<String>,
    pub due_date: Option<Date>,
    /// Stamped by the store when the task is created, and never changed.
    pub created_at: u64,
}

/// What a [`Task`] holds, as mathematical values.
pub struct TaskView {
    pub id: u128,
    pub title: Seq<char>,
    pub status: Status,
    pub description: Option<Seq<char>>,
    pub due_date: Option<Date>,
    pub created_at: u64,
}

impl View for Task {
    type V = TaskView;

    open spec fn view(&self) -> TaskView {
        TaskView {
            id: self.id,
            title: self.title@,
            status: self.status,
            description: opt_text(self.description),
            due_date: self.due_date,
            created_at: self.created_at,
        }
    }
}

impl Clone for Task {
    fn clone(&self) -> (r: Self)
        ensures
            r@ == self@,
    {
        Task {
            id: self.id,
            title: self.title.clone(),
            status: self.status,
            description: clone_opt_text(&self.description),
            due_date: self.due_date,
            created_at: self.created_at,
        }
    }
}

/// The link that puts one task into one project.
#[derive(Clone, Copy, Debug, PartialEq, Eq, Structural)]
pub struct TaskProject {
    pub project_id: u128,
    pub task_id: u128,
    /// Stamped by the store when the link is made.
    pub created_at: u64,
}

/// What an edit does to an optional field.
#[derive(Debug, PartialEq, Eq)]
pub enum Change<T> {
    /// Leave the stored value as it is.
    Keep,
    /// Reset the field to empty.
    Clear,
    /// Store this value.
    Replace(T),
}

impl<T> Change<T> {
    /// The field's value after the change, given the value before.
    pub open spec fn applied(self, stored: Option<T>) -> Option<T> {
        match self {
            Change::Keep => stored,
            Change::Clear => None,
            Change::Replace(v) => Some(v),
        }
    }
}

/// The characters of a change to a text field.
pub open spec fn change_text(c: Change<String>) -> Change<Seq<char>> {
    match c {
        Change::Keep => Change::Keep,
        Change::Clear => Change::Clear,
        Change::Replace(s) => Change::Replace(s@),
    }
}

/// The fields of a task that an edit may carry, as the client wrote them. A
/// field that is absent is left as it is stored.
#[derive(Clone, Copy, Debug, PartialEq, Eq)]
pub struct EditTaskPayload<'r> {
    pub title: Option<&'r str>,
    pub description: Option<&'r str>,
    /// `todo`, `in_progress` or `complete`.
    pub status: Option<&'r str>,
    /// Year, month and day, as in `2025-12-01`.
    pub due_date: Option<&'r str>,
}

/// What an [`EditTaskPayload`] holds, as mathematical values.
pub struct EditTaskPayloadView {
    pub title: Option<Seq<char>>,
    pub description: Option<Seq<char>>,
    pub status: Option<Seq<char>>,
    pub due_date: Option<Seq<char>>,
}

impl<'r> View for EditTaskPayload<'r> {
    type V = EditTaskPayloadView;

    open spec fn view(&self) -> EditTaskPayloadView {
        EditTaskPayloadView {
            title: opt_str(self.title),
            description: opt_str(self.description),
            status: opt_str(self.status),
            due_date: opt_str(self.due_date),
        }
    }
}

/// A validated change to a task: what to do to each field.
#[derive(Debug, PartialEq, Eq)]
pub struct TaskPatch {
    pub title: Option<String>,
    pub description: Change<String>,
    pub status: Option<Status>,
    pub due_date: Change<Date>,
}

/// What a [`TaskPatch`] holds, as mathematical values.
pub struct TaskPatchView {
    pub title: Option<Seq<char>>,
    pub description: Change<Seq<char>>,
    pub status: Option<Status>,
    pub due_date: Change<Date>,
}

impl View for TaskPatch {
    type V = TaskPatchView;

    open spec fn view(&self) -> TaskPatchView {
        TaskPatchView {
            title: opt_text(self.title),
            description: change_text(self.description),
            status: self.status,
            due_date: self.due_date,
        }
    }
}

impl TaskView {
    /// The row after a patch: each field that the patch names changes as the
    /// patch says, every other field stays.
    pub open spec fn patched(self, patch: TaskPatchView) -> TaskView {
        TaskView {
            id: self.id,
            title: match patch.title {
                Some(title) => title,
                None => self.title,
            },
            status: match patch.status {
                Some(status) => status,
                None => self.status,
            },
            description: patch.description.applied(self.description),
            due_date: patch.due_date.applied(self.due_date),
            created_at: self.created_at,
        }
    }
}

impl Task {
    /// The row after a patch.
    pub fn patched(&self, patch: &TaskPatch) -> (r: Task)
        ensures
            r@ == self@.patched(patch@),
    {
        Task {
            id: self.id,
            title: match &patch.title {
                Some(title) => title.clone(),
                None => self.title.clone(),
            },
            status: match patch.status {
                Some(status) => status,
                None => self.status,
            },
            description: match &patch.description {
                Change::Keep => clone_opt_text(&self.description),
                Change::Clear => None,
                Change::Replace(text) => Some(text.clone()),
            },
            due_date: match patch.due_date {
                Change::Keep => self.due_date,
                Change::Clear => None,
                Change::Replace(date) => Some(date),
            },
            created_at: self.created_at,
        }
    }
}

/// The patch that an edit payload asks for, or the failure of its first
/// invalid field: the status is checked before the due date. `date_parts` is
/// what the date reader made of the due date's text.
pub open spec fn edit_plan(
    payload: EditTaskPayloadView,
    date_parts: Option<(i32, u32, u32)>,
) -> Result<TaskPatchView, ErrorView> {
    match payload.status {
        Some(s) if Status::named_by(s) is None => Err(invalid_status(s)),
        _ => match payload.due_date {
            Some(d) if date_or_invalid(d, date_parts) is Err => Err(
                date_or_invalid(d, date_parts)->Err_0,
            ),
            _ => Ok(
                TaskPatchView {
                    title: payload.title,
                    description: match payload.description {
                        Some(text) => Change::Replace(text),
                        None => Change::Keep,
                    },
                    status: match payload.status {
                        Some(s) => Status::named_by(s),
                        None => None,
                    },
                    due_date: match payload.due_date {
                        Some(d) => Change::Replace(date_or_invalid(d, date_parts)->Ok_0),
                        None => Change::Keep,
                    },
                },
            ),
        },
    }
}

/// What the date reader makes of a payload's due date, if it carries one.
pub open spec fn due_date_parts(payload: EditTaskPayloadView) -> Option<(i32, u32, u32)> {
    match payload.due_date {
        Some(d) => ymd_text_value(d),
        None => None,
    }
}

/// The patch that clears the given fields and keeps every other field.
pub open spec fn clearing_plan(fields: Set<ClearableField>) -> TaskPatchView {
    TaskPatchView {
        title: None,
        description: if fields.contains(ClearableField::Description) {
            Change::Clear
        } else {
            Change::Keep
        },
        status: None,
        due_date: if fields.contains(ClearableField::DueDate) {
            Change::Clear
        } else {
            Change::Keep
        },
    }
}

impl TaskPatch {
    /// Validates an edit payload and turns it into a patch. The status must
    /// be one of the three status names and the due date a date written as
    /// year, month and day; the first field that is not fails the edit, and
    /// the status is looked at first. Every field the payload carries is set,
    /// every other field is kept.
    pub fn from_payload(payload: &EditTaskPayload<'_>) -> (r: Result<TaskPatch, Error>)
        ensures
            match edit_plan(payload@, due_date_parts(payload@)) {
                Ok(patch) => r is Ok && r->Ok_0@ == patch,
                Err(e) => r is Err && r->Err_0@ == e,
            },
    {
        let status = match payload.status {
            Some(s) => match Status::parse(s) {
                Ok(status) => Some(status),
                Err(e) => {
                    return Err(e);
                },
            },
            None => None,
        };
        let due_date = match payload.due_date {
            Some(d) => match parse_date(d) {
                Ok(date) => Change::Replace(date),
                Err(e) => {
                    return Err(e);
                },
            },
            None => Change::Keep,
        };
        Ok(
            TaskPatch {
                title: match payload.title {
                    Some(title) => Some(title.to_owned()),
                    None => None,
                },
                description: match payload.description {
                    Some(text) => Change::Replace(text.to_owned()),
                    None => Change::Keep,
                },
                status,
                due_date,
            },
        )
    }

    /// The patch that clears the given fields and keeps every other field.
    pub fn clearing(fields: &FieldSet) -> (patch: TaskPatch)
        ensures
            patch@ == clearing_plan(fields@),
    {
        TaskPatch {
            title: None,
            description: if fields.contains(&ClearableField::Description) {
                Change::Clear
            } else {
                Change::Keep
            },
            status: None,
            due_date: if fields.contains(&ClearableField::DueDate) {
                Change::Clear
            } else {
                Change::Keep
            },
        }
    }
}

/// The failure reported where no task has the identifier.
pub open spec fn missing_task(id: u128) -> ErrorView {
    ErrorView {
        kind: ErrorKind::NotFound,
        message: "Task with id "@ + uuid_text(id) + " not found!"@,
    }
}

/// The not-found failure for a task.
pub fn task_not_found(id: u128) -> (e: Error)
    ensures
        e@ == missing_task(id),
{
    let mut message = joined("Task with id ", id_text(id).as_str());
    message.append(" not found!");
    Error::not_found(message)
}

/// The outcome of an operation that returns a task, as mathematical values.
pub open spec fn task_outcome(r: Result<Task, Error>) -> Result<TaskView, ErrorView> {
    match r {
        Ok(t) => Ok(t@),
        Err(e) => Err(e@),
    }
}

/// What creating a task under a given identifier comes to: the new row, or
/// the store's fault.
pub open spec fn task_creation(s: StoreState, id: u128, title: Seq<char>, status: Status) -> Result<
    TaskView,
    ErrorView,
> {
    match s.task_fault(id) {
        Some(fault) => Err(fault.error()),
        None => Ok(s.new_task(id, title, status)),
    }
}

/// Whether `result` and the state `after` are what creating a task under
/// `id` makes of the state `before`: on success the row is added, on failure
/// nothing changes.
pub open spec fn task_created_as(
    before: StoreState,
    after: StoreState,
    result: Result<TaskView, ErrorView>,
    id: u128,
    title: Seq<char>,
    status: Status,
) -> bool {
    result == task_creation(before, id, title, status) && after == if result is Ok {
        before.task_added(id, title, status)
    } else {
        before
    }
}

/// Creates a task under the given identifier, with no description and no
/// due date. Fails with the store's fault where the identifier is nil or
/// taken or the clock exhausted.
pub fn create_task_as(db: &mut Store, id: u128, title: String, status: Status) -> (r: Result<
    Task,
    Error,
>)
    requires
        old(db).wf(),
    ensures
        final(db).wf(),
        task_created_as(old(db)@, final(db)@, task_outcome(r), id, title@, status),
{
    match db.insert_task(id, title, status) {
        Ok(t) => Ok(t),
        Err(fault) => Err(fault.into_error()),
    }
}

/// Creates a task with a new random identifier. The task is stored unless
/// the store turns the drawn identifier down, which it does only where that
/// identifier is already in use or the clock is exhausted.
pub fn create_task(db: &mut Store, title: String, status: Status) -> (r: Result<Task, Error>)
    requires
        old(db).wf(),
    ensures
        final(db).wf(),
        exists|id: u128|
            is_random_uuid(id) && #[trigger] task_created_as(
                old(db)@,
                final(db)@,
                task_outcome(r),
                id,
                title@,
                status,
            ),
        r matches Ok(t) ==> is_random_uuid(t.id) && !old(db)@.has_task(t.id) && t.created_at
            == old(db)@.clock && t@.title == title@ && t.status == status,
{
    let id = new_id();
    let r = create_task_as(db, id, title, status);
    assert(task_created_as(old(db)@, db@, task_outcome(r), id, title@, status));
    r
}

/// What patching the task `id` comes to: the row after the patch, or the
/// not-found failure.
pub open spec fn patch_result(s: StoreState, id: u128, patch: TaskPatchView) -> Result<
    TaskView,
    ErrorView,
> {
    match s.task(id) {
        Some(t) => Ok(t.patched(patch)),
        None => Err(missing_task(id)),
    }
}

/// Edits a task. The payload is validated before the store is touched: an
/// unknown status or a malformed due date is a validation error and leaves
/// every row as it was. Otherwise each field that the payload carries
/// replaces the stored value and every other field stays; where no task has
/// the identifier, the edit fails with a not-found error.
pub fn edit_task(db: &mut Store, id: &u128, payload: &EditTaskPayload<'_>) -> (r: Result<
    Task,
    Error,
>)
    requires
        old(db).wf(),
    ensures
        final(db).wf(),
        match edit_plan(payload@, due_date_parts(payload@)) {
            Ok(patch) => final(db)@ == old(db)@.task_patched(*id, patch) && task_outcome(r)
                == patch_result(old(db)@, *id, patch),
            Err(e) => final(db)@ == old(db)@ && r is Err && r->Err_0@ == e,
        },
{
    let patch = match TaskPatch::from_payload(payload) {
        Ok(patch) => patch,
        Err(e) => {
            return Err(e);
        },
    };
    match db.update_task(*id, &patch) {
        Some(t) => Ok(t),
        None => Err(task_not_found(*id)),
    }
}

/// Resets the named fields of a task to empty and leaves every other field
/// as it is. Fails with a not-found error where no task has the identifier.
pub fn clear_fields(db: &mut Store, id: &u128, fields: FieldSet) -> (r: Result<Task, Error>)
    requires
        old(db).wf(),
    ensures
        final(db).wf(),
        final(db)@ == old(db)@.task_patched(*id, clearing_plan(fields@)),
        task_outcome(r) == patch_result(old(db)@, *id, clearing_plan(fields@)),
{
    let patch = TaskPatch::clearing(&fields);
    match db.update_task(*id, &patch) {
        Some(t) => Ok(t),
        None => Err(task_not_found(*id)),
    }
}

/// Puts a task into a project. Fails with the store's fault where the
/// project or the task is not stored, where the task is already in the
/// project, or where the clock is exhausted; nothing changes then.
pub fn add_to_project(db: &mut Store, task_id: &u128, project_id: &u128) -> (r: Result<
    TaskProject,
    Error,
>)
    requires
        old(db).wf(),
    ensures
        final(db).wf(),
        match old(db)@.link_fault(*project_id, *task_id) {
            Some(fault) => r is Err && r->Err_0@ == fault.error() && final(db)@ == old(db)@,
            None => r == Ok::<TaskProject, Error>(old(db)@.new_link(*project_id, *task_id))
                && final(db)@ == old(db)@.link_added(*project_id, *task_id),
        },
{
    match db.insert_link(*project_id, *task_id) {
        Ok(link) => Ok(link),
        Err(fault) => Err(fault.into_error()),
    }
}

/// Takes a task out of a project. Succeeds whether or not the task was in
/// it.
pub fn remove_from_project(db: &mut Store, task_id: &u128, project_id: &u128) -> (r: Result<
    (),
    Error,
>)
    requires
        old(db).wf(),
    ensures
        final(db).wf(),
        r is Ok,
        final(db)@ == old(db)@.link_removed(*project_id, *task_id),
{
    let _ = db.delete_link(*project_id, *task_id);
    Ok(())
}

/// The state after the creation step of creating a task in a project.
pub open spec fn after_creation(
    s: StoreState,
    id: u128,
    title: Seq<char>,
    status: Status,
) -> StoreState {
    if s.task_fault(id) is None {
        s.task_added(id, title, status)
    } else {
        s
    }
}

/// The state after creating a task in a project: both steps are tried, and
/// each takes effect where the store accepts it. A task that was created
/// stays stored where the store turns the link down.
pub open spec fn after_creation_in_project(
    s: StoreState,
    id: u128,
    title: Seq<char>,
    status: Status,
    project: u128,
) -> StoreState {
    let created = after_creation(s, id, title, status);
    if created.link_fault(project, id) is None {
        created.link_added(project, id)
    } else {
        created
    }
}

/// What creating a task in a project comes to: the new task where both
/// steps went through, else the failure of the first step that did not.
pub open spec fn creation_in_project(
    s: StoreState,
    id: u128,
    title: Seq<char>,
    status: Status,
    project: u128,
) -> Result<TaskView, ErrorView> {
    match s.task_fault(id) {
        Some(fault) => Err(fault.error()),
        None => match after_creation(s, id, title, status).link_fault(project, id) {
            Some(fault) => Err(fault.error()),
            None => Ok(s.new_task(id, title, status)),
        },
    }
}

/// Whether `result` and the state `after` are what creating a task under
/// `id` in a project makes of the state `before`.
pub open spec fn task_created_in_project_as(
    before: StoreState,
    after: StoreState,
    result: Result<TaskView, ErrorView>,
    id: u128,
    title: Seq<char>,
    status: Status,
    project: u128,
) -> bool {
    result == creation_in_project(before, id, title, status, project) && after
        == after_creation_in_project(before, id, title, status, project)
}

/// Creates a task under the given identifier and puts it into a project.
/// The two steps are not undone together: where the task is stored and the
/// link is turned down, the operation fails and the task stays stored.
pub fn create_task_in_project_as(
    db: &mut Store,
    id: u128,
    title: String,
    status: Status,
    project_id: &u128,
) -> (r: Result<Task, Error>)
    requires
        old(db).wf(),
    ensures
        final(db).wf(),
        task_created_in_project_as(
            old(db)@,
            final(db)@,
            task_outcome(r),
            id,
            title@,
            status,
            *project_id,
        ),
{
    let created = create_task_as(db, id, title, status);
    let attached = add_to_project(db, &id, project_id);
    match created {
        Ok(task) => match attached {
            Ok(_) => Ok(task),
            Err(e) => Err(e),
        },
        Err(e) => Err(e),
    }
}

/// Creates a task with a new random identifier and puts it into a project.
/// Where the project is not stored, the operation fails and the new task
/// stays stored, in no project.
pub fn create_task_in_project(
    db: &mut Store,
    title: String,
    status: Status,
    project_id: &u128,
) -> (r: Result<Task, Error>)
    requires
        old(db).wf(),
    ensures
        final(db).wf(),
        exists|id: u128|
            is_random_uuid(id) && #[trigger] task_created_in_project_as(
                old(db)@,
                final(db)@,
                task_outcome(r),
                id,
                title@,
                status,
                *project_id,
            ),
        r matches Ok(t) ==> is_random_uuid(t.id) && !old(db)@.has_task(t.id) && final(db)@.linked(
            *project_id,
            t.id,
        ) && t@.title == title@ && t.status == status,
{
    let id = new_id();
    let r = create_task_in_project_as(db, id, title, status, project_id);
    assert(task_created_in_project_as(
        old(db)@,
        db@,
        task_outcome(r),
        id,
        title@,
        status,
        *project_id,
    ));
    proof {
        if r is Ok {
            let created = after_creation(old(db)@, id, title@, status);
            let link = created.new_link(*project_id, id);
            assert(db@.links[db@.links.len() - 1] == link);
        }
    }
    r
}

} // verus!
