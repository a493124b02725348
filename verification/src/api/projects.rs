//! Requests about projects.

use crate::api::reply::Handled;
use crate::error::{Error, ErrorView};
use crate::event::{announce, notices, FeedWriter, Mutation};
use crate::ident::{
    invalid_uuid, is_random_uuid, lenient_id, parse_uuid, parse_uuid_or_nil, uuid_text_value,
};
use crate::model::ProjectStats;
use crate::project::{
    empty_title, missing_project, project_created_as, project_not_found, project_outcome,
    EditProjectPayload, Project, ProjectView,
};
use crate::status::Status;
use crate::store::{project_views, task_views, Store};
use crate::task::{
    add_to_project, remove_from_project, task_created_in_project_as, Task, TaskProject, TaskView,
};
use vstd::prelude::*;

verus! {

/// The identifiers that a list of texts stands for in a lenient search: a
/// text that is no identifier stands for the nil identifier.
pub open spec fn lenient_ids(texts: Seq<&str>) -> Seq<u128> {
    texts.map_values(|s: &str| lenient_id(s@))
}

/// The outcome of a request that returns a task, as mathematical values.
pub open spec fn handled_task_outcome(r: Result<Handled<Task>, Error>) -> Result<
    TaskView,
    ErrorView,
> {
    match r {
        Ok(done) => Ok(done.reply@),
        Err(e) => Err(e@),
    }
}

/// The outcome of a request that returns a project, as mathematical values.
pub open spec fn handled_project_outcome(r: Result<Handled<Project>, Error>) -> Result<
    ProjectView,
    ErrorView,
> {
    match r {
        Ok(done) => Ok(done.reply@),
        Err(e) => Err(e@),
    }
}

/// All projects, the newest first.
pub fn projects(db: &Store) -> (r: Result<Vec<Project>, Error>)
    ensures
        r is Ok,
        project_views(r->Ok_0@) == db@.projects_newest_first(),
{
    Ok(db.list_projects())
}

/// The task counts of the projects named by `ids`, the oldest project
/// first. One bad identifier never fails the batch: a text that is no
/// identifier, like an identifier that names no project, adds nothing.
pub fn project_stats(ids: Vec<&str>, db: &Store) -> (r: Result<Vec<ProjectStats>, Error>)
    ensures
        r is Ok,
        r->Ok_0@ == db@.stats(lenient_ids(ids@)),
{
    let n = ids.len();
    let mut wanted: Vec<u128> = Vec::new();
    let mut i: usize = 0;
    while i < n
        invariant
            n == ids.len(),
            i <= n,
            wanted@ == lenient_ids(ids@.take(i as int)),
        decreases n - i,
    {
        wanted.push(parse_uuid_or_nil(ids[i]));
        assert(wanted@ =~= lenient_ids(ids@.take(i + 1)));
        i += 1;
    }
    assert(ids@.take(n as int) =~= ids@);
    Ok(db.stats(&wanted))
}

/// Creates a project with a new random identifier and announces it. An
/// empty title is a validation error. Nothing is announced where nothing
/// was stored.
pub fn create_project(title: &str, db: &mut Store, feed: &FeedWriter) -> (r: Result<
    Handled<Project>,
    Error,
>)
    requires
        old(db).wf(),
    ensures
        final(db).wf(),
        exists|id: u128|
            is_random_uuid(id) && #[trigger] project_created_as(
                old(db)@,
                final(db)@,
                handled_project_outcome(r),
                id,
                title@,
            ),
        title@.len() == 0 ==> r is Err && r->Err_0@ == empty_title(),
        r matches Ok(done) ==> is_random_uuid(done.reply.id) && !old(db)@.has_project(
            done.reply.id,
        ) && done.published@ == notices(Mutation::ProjectCreated { project: done.reply.id }),
{
    let created = crate::project::create_project(db, title.to_owned());
    let ghost id = choose|id: u128|
        is_random_uuid(id) && #[trigger] project_created_as(
            old(db)@,
            db@,
            project_outcome(created),
            id,
            title@,
        );
    let r = match created {
        Ok(reply) => {
            let published = announce(feed, Mutation::ProjectCreated { project: reply.id });
            Ok(Handled { reply, published })
        },
        Err(e) => Err(e),
    };
    assert(project_created_as(old(db)@, db@, handled_project_outcome(r), id, title@));
    r
}

/// The project with the given identifier. A text that is no identifier is a
/// validation error; an identifier that names no project is a not-found
/// error.
pub fn get_project(id: &str, db: &Store) -> (r: Result<Project, Error>)
    requires
        db.wf(),
    ensures
        match uuid_text_value(id@) {
            None => r is Err && r->Err_0@ == invalid_uuid(id@),
            Some(project) => match db@.project(project) {
                Some(p) => r is Ok && r->Ok_0@ == p,
                None => r is Err && r->Err_0@ == missing_project(project),
            },
        },
{
    let id = parse_uuid(id)?;
    match db.find_project(id) {
        Some(p) => Ok(p),
        None => Err(project_not_found(id)),
    }
}

/// Edits the project with the given identifier and announces the update.
/// Nothing is changed and nothing announced where the identifier is invalid
/// or names no project.
pub fn edit_project(id: &str, project: EditProjectPayload, db: &mut Store, feed: &FeedWriter) -> (r:
    Result<Handled<Project>, Error>)
    requires
        old(db).wf(),
    ensures
        final(db).wf(),
        match uuid_text_value(id@) {
            None => r is Err && r->Err_0@ == invalid_uuid(id@) && final(db)@ == old(db)@,
            Some(pid) => final(db)@ == old(db)@.project_edited(pid, project@) && match old(
                db
            )@.project(pid) {
                Some(p) => r is Ok && r->Ok_0.reply@ == p.patched(project@)
                    && r->Ok_0.published@ == notices(Mutation::ProjectEdited { project: pid }),
                None => r is Err && r->Err_0@ == missing_project(pid),
            },
        },
{
    let id = parse_uuid(id)?;
    let reply = crate::project::edit_project(db, &id, &project)?;
    let published = announce(feed, Mutation::ProjectEdited { project: id });
    Ok(Handled { reply, published })
}

/// Deletes the project with the given identifier, and with it every link to
/// it, and announces that the project is destroyed. No task is deleted.
/// Deleting a project that is not stored succeeds, changes nothing, and is
/// announced all the same.
pub fn delete_project(id: &str, db: &mut Store, feed: &FeedWriter) -> (r: Result<
    Handled<()>,
    Error,
>)
    requires
        old(db).wf(),
    ensures
        final(db).wf(),
        match uuid_text_value(id@) {
            None => r is Err && r->Err_0@ == invalid_uuid(id@) && final(db)@ == old(db)@,
            Some(project) => r is Ok && r->Ok_0.published@ == notices(
                Mutation::ProjectDeleted { project },
            ) && final(db)@ == old(db)@.project_removed(project),
        },
{
    let id = parse_uuid(id)?;
    let _ = db.delete_project(id);
    let published = announce(feed, Mutation::ProjectDeleted { project: id });
    Ok(Handled { reply: (), published })
}

/// The tasks of the project with the given identifier, the oldest first. A
/// project that is not stored has no tasks.
pub fn get_project_tasks(id: &str, db: &Store) -> (r: Result<Vec<Task>, Error>)
    ensures
        match uuid_text_value(id@) {
            None => r is Err && r->Err_0@ == invalid_uuid(id@),
            Some(project) => r is Ok && task_views(r->Ok_0@) == db@.tasks_of(project),
        },
{
    let id = parse_uuid(id)?;
    Ok(db.tasks_of_project(id))
}

/// Creates a task with status `todo` in the project with the given
/// identifier, and announces the new task and the update of the project.
/// Where the task is stored and the link is turned down, the request fails,
/// nothing is announced, and the task stays stored.
pub fn create_task_in_project(id: &str, title: &str, db: &mut Store, feed: &FeedWriter) -> (r:
    Result<Handled<Task>, Error>)
    requires
        old(db).wf(),
    ensures
        final(db).wf(),
        match uuid_text_value(id@) {
            None => r is Err && r->Err_0@ == invalid_uuid(id@) && final(db)@ == old(db)@,
            Some(project) => {
                &&& exists|task: u128|
                    is_random_uuid(task) && #[trigger] task_created_in_project_as(
                        old(db)@,
                        final(db)@,
                        handled_task_outcome(r),
                        task,
                        title@,
                        Status::Todo,
                        project,
                    )
                &&& r matches Ok(done) ==> done.published@ == notices(
                    Mutation::TaskCreatedInProject { task: done.reply.id, project },
                ) && final(db)@.linked(project, done.reply.id)
            },
        },
{
    let id = parse_uuid(id)?;
    let created = crate::task::create_task_in_project(db, title.to_owned(), Status::Todo, &id);
    match created {
        Ok(reply) => {
            let published = announce(
                feed,
                Mutation::TaskCreatedInProject { task: reply.id, project: id },
            );
            Ok(Handled { reply, published })
        },
        Err(e) => Err(e),
    }
}

/// Puts a task into a project and announces the update of both. The other
/// projects of the task are not touched. The project's identifier is read
/// first.
pub fn add_task_to_project(
    project_id: &str,
    task_id: &str,
    db: &mut Store,
    feed: &FeedWriter,
) -> (r: Result<Handled<TaskProject>, Error>)
    requires
        old(db).wf(),
    ensures
        final(db).wf(),
        match uuid_text_value(project_id@) {
            None => r is Err && r->Err_0@ == invalid_uuid(project_id@) && final(db)@ == old(db)@,
            Some(project) => match uuid_text_value(task_id@) {
                None => r is Err && r->Err_0@ == invalid_uuid(task_id@) && final(db)@ == old(db)@,
                Some(task) => match old(db)@.link_fault(project, task) {
                    Some(fault) => r is Err && r->Err_0@ == fault.error() && final(db)@ == old(db)@,
                    None => r is Ok && r->Ok_0.reply == old(db)@.new_link(project, task)
                        && r->Ok_0.published@ == notices(Mutation::TaskAttached { task, project })
                        && final(db)@ == old(db)@.link_added(project, task),
                },
            },
        },
{
    let project = parse_uuid(project_id)?;
    let task = parse_uuid(task_id)?;
    let reply = add_to_project(db, &task, &project)?;
    let published = announce(feed, Mutation::TaskAttached { task, project });
    Ok(Handled { reply, published })
}

/// Takes a task out of a project and announces the update of both. The
/// other projects of the task are not touched. Succeeds whether or not the
/// task was in the project.
pub fn remove_task_from_project(
    project_id: &str,
    task_id: &str,
    db: &mut Store,
    feed: &FeedWriter,
) -> (r: Result<Handled<()>, Error>)
    requires
        old(db).wf(),
    ensures
        final(db).wf(),
        match uuid_text_value(project_id@) {
            None => r is Err && r->Err_0@ == invalid_uuid(project_id@) && final(db)@ == old(db)@,
            Some(project) => match uuid_text_value(task_id@) {
                None => r is Err && r->Err_0@ == invalid_uuid(task_id@) && final(db)@ == old(db)@,
                Some(task) => r is Ok && r->Ok_0.published@ == notices(
                    Mutation::TaskDetached { task, project },
                ) && final(db)@ == old(db)@.link_removed(project, task),
            },
        },
{
    let project = parse_uuid(project_id)?;
    let task = parse_uuid(task_id)?;
    remove_from_project(db, &task, &project)?;
    let published = announce(feed, Mutation::TaskDetached { task, project });
    Ok(Handled { reply: (), published })
}

} // verus!
