//! Projects: the stored row, the edit payload, and the operations on them.

use crate::error::{Error, ErrorKind, ErrorView};
use crate::ident::{id_text, is_random_uuid, new_id, uuid_text};
use crate::model::StoreState;
use crate::store::Store;
use crate::text::{clone_opt_text, joined, opt_text};
use vstd::prelude::*;

verus! {

/// A stored project.
#[derive(Debug, PartialEq, Eq)]
pub struct Project {
    /// Chosen when the project is created, and never changed.
    pub id: u128,
    pub title: String,
    pub description: Option<String>,
    /// Stamped by the store when the project is created, and never changed.
    pub created_at: u64,
}

/// What a [`Project`] holds, as mathematical values.
pub struct ProjectView {
    pub id: u128,
    pub title: Seq<char>,
    pub description: Option<Seq<char>>,
    pub created_at: u64,
}

impl View for Project {
    type V = ProjectView;

    open spec fn view(&self) -> ProjectView {
        ProjectView {
            id: self.id,
            title: self.title@,
            description: opt_text(self.description),
            created_at: self.created_at,
        }
    }
}

impl Clone for Project {
    fn clone(&self) -> (r: Self)
        ensures
            r@ == self@,
    {
        Project {
            id: self.id,
            title: self.title.clone(),
            description: clone_opt_text(&self.description),
            created_at: self.created_at,
        }
    }
}

/// The fields of a project that an edit may carry. A field that is absent
/// is left as it is stored.
#[derive(Debug, PartialEq, Eq)]
pub struct EditProjectPayload {
    pub title: Option<String>,
    pub description: Option<String>,
}

/// What an [`EditProjectPayload`] holds, as mathematical values.
pub struct EditProjectPayloadView {
    pub title: Option<Seq<char>>,
    pub description: Option<Seq<char>>,
}

impl View for EditProjectPayload {
    type V = EditProjectPayloadView;

    open spec fn view(&self) -> EditProjectPayloadView {
        EditProjectPayloadView {
            title: opt_text(self.title),
            description: opt_text(self.description),
        }
    }
}

impl ProjectView {
    /// The row after an edit: each field that the payload carries replaces
    /// the stored value, every other field stays.
    pub open spec fn patched(self, edit: EditProjectPayloadView) -> ProjectView {
        ProjectView {
            id: self.id,
            title: match edit.title {
                Some(title) => title,
                None => self.title,
            },
            description: match edit.description {
                Some(description) => Some(description),
                None => self.description,
            },
            created_at: self.created_at,
        }
    }
}

impl Project {
    /// The row after an edit.
    pub fn patched(&self, edit: &EditProjectPayload) -> (r: Project)
        ensures
            r@ == self@.patched(edit@),
    {
        Project {
            id: self.id,
            title: match &edit.title {
                Some(title) => title.clone(),
                None => self.title.clone(),
            },
            description: match &edit.description {
                Some(description) => Some(description.clone()),
                None => clone_opt_text(&self.description),
            },
            created_at: self.created_at,
        }
    }
}

/// The failure reported for a project without a title.
pub open spec fn empty_title() -> ErrorView {
    ErrorView { kind: ErrorKind::Validation, message: "Project title must not be empty"@ }
}

/// The failure reported where no project has the identifier.
pub open spec fn missing_project(id: u128) -> ErrorView {
    ErrorView {
        kind: ErrorKind::NotFound,
        message: "Project with id "@ + uuid_text(id) + " not found!"@,
    }
}

/// The not-found failure for a project.
pub fn project_not_found(id: u128) -> (e: Error)
    ensures
        e@ == missing_project(id),
{
    let mut message = joined("Project with id ", id_text(id).as_str());
    message.append(" not found!");
    Error::not_found(message)
}

/// What creating a project under a given identifier comes to: the new row,
/// or the failure. The title is checked before the store is asked.
pub open spec fn project_creation(s: StoreState, id: u128, title: Seq<char>) -> Result<
    ProjectView,
    ErrorView,
> {
    if title.len() == 0 {
        Err(empty_title())
    } else {
        match s.project_fault(id) {
            Some(fault) => Err(fault.error()),
            None => Ok(s.new_project(id, title)),
        }
    }
}

/// Whether `result` and the state `after` are what creating a project under
/// `id` makes of the state `before`: on success the row is added, on failure
/// nothing changes.
pub open spec fn project_created_as(
    before: StoreState,
    after: StoreState,
    result: Result<ProjectView, ErrorView>,
    id: u128,
    title: Seq<char>,
) -> bool {
    result == project_creation(before, id, title) && after == if result is Ok {
        before.project_added(id, title)
    } else {
        before
    }
}

/// The outcome of an operation that returns a project, as mathematical
/// values.
pub open spec fn project_outcome(r: Result<Project, Error>) -> Result<ProjectView, ErrorView> {
    match r {
        Ok(p) => Ok(p@),
        Err(e) => Err(e@),
    }
}

/// Checks the title of a new project: it must not be empty.
pub fn validate_title(title: &str) -> (r: Result<(), Error>)
    ensures
        title@.len() == 0 ==> r is Err && r->Err_0@ == empty_title(),
        title@.len() > 0 ==> r is Ok,
{
    if title.is_empty() {
        Err(Error::validation(String::from_str("Project title must not be empty")))
    } else {
        Ok(())
    }
}

/// Creates a project under the given identifier. Fails with a validation
/// error where the title is empty, and with the store's fault where the
/// identifier is nil or taken or the clock exhausted. The store stamps the
/// row; the caller has no say in `created_at`.
pub fn create_project_as(db: &mut Store, id: u128, title: String) -> (r: Result<Project, Error>)
    requires
        old(db).wf(),
    ensures
        final(db).wf(),
        project_created_as(old(db)@, final(db)@, project_outcome(r), id, title@),
{
    validate_title(title.as_str())?;
    match db.insert_project(id, title) {
        Ok(p) => Ok(p),
        Err(fault) => Err(fault.into_error()),
    }
}

/// Creates a project with a new random identifier. An empty title is a
/// validation error. Otherwise the project is stored unless the store turns
/// the drawn identifier down, which it does only where that identifier is
/// already in use or the clock is exhausted.
pub fn create_project(db: &mut Store, title: String) -> (r: Result<Project, Error>)
    requires
        old(db).wf(),
    ensures
        final(db).wf(),
        exists|id: u128|
            is_random_uuid(id) && #[trigger] project_created_as(
                old(db)@,
                final(db)@,
                project_outcome(r),
                id,
                title@,
            ),
        title@.len() == 0 ==> r is Err && r->Err_0@ == empty_title(),
        r matches Ok(p) ==> is_random_uuid(p.id) && !old(db)@.has_project(p.id) && p.created_at
            == old(db)@.clock && p@.title == title@,
{
    let id = new_id();
    let r = create_project_as(db, id, title);
    assert(project_created_as(old(db)@, db@, project_outcome(r), id, title@));
    r
}

/// Edits a project: each field that the payload carries replaces the stored
/// value, every other field stays as it is. Fails with a not-found error
/// where no project has the identifier.
pub fn edit_project(db: &mut Store, id: &u128, payload: &EditProjectPayload) -> (r: Result<
    Project,
    Error,
>)
    requires
        old(db).wf(),
    ensures
        final(db).wf(),
        final(db)@ == old(db)@.project_edited(*id, payload@),
        match old(db)@.project(*id) {
            Some(p) => r is Ok && r->Ok_0@ == p.patched(payload@),
            None => r is Err && r->Err_0@ == missing_project(*id),
        },
{
    match db.update_project(*id, payload) {
        Some(p) => Ok(p),
        None => Err(project_not_found(*id)),
    }
}

} // verus!
