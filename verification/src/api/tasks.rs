//! Requests about tasks.

use crate::api::reply::Handled;
use crate::error::Error;
use crate::event::{announce, notices, FeedWriter, Mutation};
use crate::fields::{not_clearable, ClearableField};
use crate::ident::{invalid_uuid, parse_uuid, uuid_text_value};
use crate::project::Project;
use crate::store::{project_views, task_views, Store};
use crate::task::{
    clear_fields, clearing_plan, due_date_parts, edit_plan, missing_task, task_not_found,
    EditTaskPayload, Task,
};
use vstd::prelude::*;

verus! {

/// The task with the given identifier. A text that is no identifier is a
/// validation error; an identifier that names no task is a not-found error.
pub fn get_task(id: &str, db: &Store) -> (r: Result<Task, Error>)
    requires
        db.wf(),
    ensures
        match uuid_text_value(id@) {
            None => r is Err && r->Err_0@ == invalid_uuid(id@),
            Some(task) => match db@.task(task) {
                Some(t) => r is Ok && r->Ok_0@ == t,
                None => r is Err && r->Err_0@ == missing_task(task),
            },
        },
{
    let id = parse_uuid(id)?;
    match db.find_task(id) {
        Some(t) => Ok(t),
        None => Err(task_not_found(id)),
    }
}

/// The projects that the task with the given identifier is in, the oldest
/// first. A task that is not stored is in no project.
pub fn get_task_projects(id: &str, db: &Store) -> (r: Result<Vec<Project>, Error>)
    ensures
        match uuid_text_value(id@) {
            None => r is Err && r->Err_0@ == invalid_uuid(id@),
            Some(task) => r is Ok && project_views(r->Ok_0@) == db@.projects_of(task),
        },
{
    let id = parse_uuid(id)?;
    Ok(db.projects_of_task(id))
}

/// Deletes the task with the given identifier, and with it every link to
/// it, and announces that the task is destroyed. Deleting a task that is
/// not stored succeeds, changes nothing, and is announced all the same.
pub fn delete_task(id: &str, db: &mut Store, feed: &FeedWriter) -> (r: Result<Handled<()>, Error>)
    requires
        old(db).wf(),
    ensures
        final(db).wf(),
        match uuid_text_value(id@) {
            None => r is Err && r->Err_0@ == invalid_uuid(id@) && final(db)@ == old(db)@,
            Some(task) => r is Ok && r->Ok_0.published@ == notices(Mutation::TaskDeleted { task })
                && final(db)@ == old(db)@.task_removed(task),
        },
{
    let id = parse_uuid(id)?;
    let _ = db.delete_task(id);
    let published = announce(feed, Mutation::TaskDeleted { task: id });
    Ok(Handled { reply: (), published })
}

/// Edits the task with the given identifier and announces the update.
/// Nothing is changed and nothing announced where the identifier or a field
/// of the payload is invalid, or where no task has the identifier.
pub fn edit_task(id: &str, task: EditTaskPayload<'_>, db: &mut Store, feed: &FeedWriter) -> (r:
    Result<Handled<Task>, Error>)
    requires
        old(db).wf(),
    ensures
        final(db).wf(),
        match uuid_text_value(id@) {
            None => r is Err && r->Err_0@ == invalid_uuid(id@) && final(db)@ == old(db)@,
            Some(tid) => match edit_plan(task@, due_date_parts(task@)) {
                Err(e) => r is Err && r->Err_0@ == e && final(db)@ == old(db)@,
                Ok(patch) => final(db)@ == old(db)@.task_patched(tid, patch) && match old(
                    db
                )@.task(tid) {
                    Some(t) => r is Ok && r->Ok_0.reply@ == t.patched(patch)
                        && r->Ok_0.published@ == notices(Mutation::TaskEdited { task: tid }),
                    None => r is Err && r->Err_0@ == missing_task(tid),
                },
            },
        },
{
    let id = parse_uuid(id)?;
    let reply = crate::task::edit_task(db, &id, &task)?;
    let published = announce(feed, Mutation::TaskEdited { task: id });
    Ok(Handled { reply, published })
}

/// Resets the named fields of the task with the given identifier to empty
/// and announces the update. Nothing is changed and nothing announced where
/// the identifier is invalid, a name is no clearable field, or no task has
/// the identifier.
pub fn clear_task_fields(id: &str, fields: Vec<&str>, db: &mut Store, feed: &FeedWriter) -> (r:
    Result<Handled<Task>, Error>)
    requires
        old(db).wf(),
    ensures
        final(db).wf(),
        match uuid_text_value(id@) {
            None => r is Err && r->Err_0@ == invalid_uuid(id@) && final(db)@ == old(db)@,
            Some(tid) => if !ClearableField::all_named(fields@) {
                r is Err && r->Err_0@ == not_clearable(
                    fields@[ClearableField::first_unnamed(fields@)]@,
                ) && final(db)@ == old(db)@
            } else {
                let patch = clearing_plan(ClearableField::named_set(fields@));
                final(db)@ == old(db)@.task_patched(tid, patch) && match old(db)@.task(tid) {
                    Some(t) => r is Ok && r->Ok_0.reply@ == t.patched(patch)
                        && r->Ok_0.published@ == notices(Mutation::TaskFieldsCleared { task: tid }),
                    None => r is Err && r->Err_0@ == missing_task(tid),
                }
            },
        },
{
    let id = parse_uuid(id)?;
    let fields = ClearableField::from_field_strs(fields)?;
    let reply = clear_fields(db, &id, fields)?;
    let published = announce(feed, Mutation::TaskFieldsCleared { task: id });
    Ok(Handled { reply, published })
}

/// The tasks whose title or description contains the search text, compared
/// character by character, the newest first.
pub fn search_tasks(search: &str, db: &Store) -> (r: Result<Vec<Task>, Error>)
    ensures
        r is Ok,
        task_views(r->Ok_0@) == db@.tasks_matching(search@),
{
    Ok(db.search_tasks(search))
}

} // verus!
