use task_tracker::date::Date;
use task_tracker::error::ErrorKind;
use task_tracker::fields::{ClearableField, FieldSet};
use task_tracker::ident::{id_text, new_id, NIL, VERSION_MASK, VERSION_RANDOM};
use task_tracker::model::{ProjectStats, StoreFault};
use task_tracker::project::{create_project, create_project_as, edit_project, EditProjectPayload};
use task_tracker::status::Status;
use task_tracker::store::Store;
use task_tracker::task::{
    add_to_project, clear_fields, create_task, create_task_as, create_task_in_project,
    create_task_in_project_as, edit_task, remove_from_project, Change, EditTaskPayload, Task,
    TaskPatch, TaskProject,
};

fn no_edit<'r>() -> EditTaskPayload<'r> {
    EditTaskPayload { title: None, description: None, status: None, due_date: None }
}

fn ids(tasks: &Vec<Task>) -> Vec<u128> {
    tasks.iter().map(|t| t.id).collect()
}

#[test]
fn create_project_gives_a_fresh_id_and_the_stores_stamp() {
    let mut db = Store::new();
    let a = create_project(&mut db, "Launch".to_string()).unwrap();
    let b = create_project(&mut db, "Landing".to_string()).unwrap();
    assert_eq!(a.title, "Launch");
    assert_eq!(a.description, None);
    assert_ne!(a.id, NIL);
    assert_ne!(a.id, b.id);
    assert_eq!(a.id & VERSION_MASK, VERSION_RANDOM);
    assert_eq!(a.created_at, 0);
    assert_eq!(b.created_at, 1);
    assert_eq!(db.find_project(a.id), Some(a));
    assert_eq!(db.find_project(b.id), Some(b));
}

#[test]
fn create_project_rejects_an_empty_title() {
    let mut db = Store::new();
    let e = create_project(&mut db, String::new()).unwrap_err();
    assert_eq!(e.kind, ErrorKind::Validation);
    assert_eq!(e.message, "Project title must not be empty");
    assert!(db.list_projects().is_empty());
}

#[test]
fn create_project_as_reports_the_stores_faults() {
    let mut db = Store::new();
    let e = create_project_as(&mut db, NIL, "Nil".to_string()).unwrap_err();
    assert_eq!(e.kind, ErrorKind::Internal);
    assert_eq!(e.message, "The nil identifier cannot be stored");

    create_project_as(&mut db, 7, "Seven".to_string()).unwrap();
    let e = create_project_as(&mut db, 7, "Again".to_string()).unwrap_err();
    assert_eq!(e.kind, ErrorKind::Internal);
    assert_eq!(e.message, "A row with this identifier is already stored");
    assert_eq!(db.list_projects().len(), 1);
    assert_eq!(db.find_project(7).unwrap().title, "Seven");

    let e = create_project_as(&mut db, 8, String::new()).unwrap_err();
    assert_eq!(e.kind, ErrorKind::Validation);
    assert!(!db.has_project(8));
}

#[test]
fn edit_project_with_one_field_leaves_the_other() {
    let mut db = Store::new();
    let p = create_project(&mut db, "A project".to_string()).unwrap();

    let only_description =
        EditProjectPayload { title: None, description: Some("A description!".to_string()) };
    let after = edit_project(&mut db, &p.id, &only_description).unwrap();
    assert_eq!(after.title, "A project");
    assert_eq!(after.description, Some("A description!".to_string()));
    assert_eq!(after.id, p.id);
    assert_eq!(after.created_at, p.created_at);

    let again =
        EditProjectPayload { title: None, description: Some("Another description".to_string()) };
    let after = edit_project(&mut db, &p.id, &again).unwrap();
    assert_eq!(after.title, "A project");
    assert_eq!(after.description, Some("Another description".to_string()));

    let only_title = EditProjectPayload { title: Some("New Name!!".to_string()), description: None };
    let after = edit_project(&mut db, &p.id, &only_title).unwrap();
    assert_eq!(after.title, "New Name!!");
    assert_eq!(after.description, Some("Another description".to_string()));
    assert_eq!(db.find_project(p.id), Some(after));
}

#[test]
fn edit_project_of_a_missing_project_is_not_found() {
    let mut db = Store::new();
    let id = 0x550e8400e29b41d4a716446655440000u128;
    let edit = EditProjectPayload { title: Some("x".to_string()), description: None };
    let e = edit_project(&mut db, &id, &edit).unwrap_err();
    assert_eq!(e.kind, ErrorKind::NotFound);
    assert_eq!(e.message, "Project with id 550e8400-e29b-41d4-a716-446655440000 not found!");
}

#[test]
fn edit_project_touches_no_other_project() {
    let mut db = Store::new();
    let a = create_project(&mut db, "A".to_string()).unwrap();
    let b = create_project(&mut db, "B".to_string()).unwrap();
    let edit = EditProjectPayload { title: Some("A2".to_string()), description: None };
    edit_project(&mut db, &a.id, &edit).unwrap();
    assert_eq!(db.find_project(b.id), Some(b));
}

#[test]
fn create_task_stores_title_and_status() {
    let mut db = Store::new();
    let t = create_task(&mut db, "Task 1".to_string(), Status::InProgress).unwrap();
    assert_eq!(t.title, "Task 1");
    assert_eq!(t.status, Status::InProgress);
    assert_eq!(t.description, None);
    assert_eq!(t.due_date, None);
    assert_eq!(t.created_at, 0);
    assert_eq!(t.id & VERSION_MASK, VERSION_RANDOM);
    assert_eq!(db.find_task(t.id), Some(t));
}

#[test]
fn create_task_as_reports_the_stores_faults() {
    let mut db = Store::new();
    assert_eq!(
        create_task_as(&mut db, NIL, "t".to_string(), Status::Todo).unwrap_err().message,
        "The nil identifier cannot be stored"
    );
    create_task_as(&mut db, 5, "t".to_string(), Status::Todo).unwrap();
    let e = create_task_as(&mut db, 5, "u".to_string(), Status::Todo).unwrap_err();
    assert_eq!(e.kind, ErrorKind::Internal);
    assert_eq!(e.message, "A row with this identifier is already stored");
    assert_eq!(db.find_task(5).unwrap().title, "t");
}

#[test]
fn edit_task_sets_every_field_it_carries() {
    let mut db = Store::new();
    let t = create_task(&mut db, "A task".to_string(), Status::Todo).unwrap();
    let payload = EditTaskPayload {
        title: Some("New Name!!"),
        description: Some("A description!"),
        status: Some("in_progress"),
        due_date: Some("2025-12-01"),
    };
    let after = edit_task(&mut db, &t.id, &payload).unwrap();
    assert_eq!(after.title, "New Name!!");
    assert_eq!(after.description, Some("A description!".to_string()));
    assert_eq!(after.status, Status::InProgress);
    assert_eq!(after.due_date, Some(Date { year: 2025, month: 12, day: 1 }));
    assert_eq!(after.id, t.id);
    assert_eq!(after.created_at, t.created_at);
    assert_eq!(db.find_task(t.id), Some(after));
}

#[test]
fn edit_task_with_one_field_leaves_the_others() {
    let mut db = Store::new();
    let t = create_task(&mut db, "A task".to_string(), Status::Todo).unwrap();
    let first = EditTaskPayload { description: Some("A description!"), ..no_edit() };
    let after = edit_task(&mut db, &t.id, &first).unwrap();
    assert_eq!(after.title, "A task");
    assert_eq!(after.status, Status::Todo);
    assert_eq!(after.due_date, None);
    assert_eq!(after.description, Some("A description!".to_string()));

    let second = EditTaskPayload { description: Some("Changed"), ..no_edit() };
    let after = edit_task(&mut db, &t.id, &second).unwrap();
    assert_eq!(after.title, "A task");
    assert_eq!(after.status, Status::Todo);
    assert_eq!(after.due_date, None);
    assert_eq!(after.description, Some("Changed".to_string()));

    let status = EditTaskPayload { status: Some("complete"), ..no_edit() };
    let after = edit_task(&mut db, &t.id, &status).unwrap();
    assert_eq!(after.title, "A task");
    assert_eq!(after.status, Status::Complete);
    assert_eq!(after.description, Some("Changed".to_string()));

    let nothing = edit_task(&mut db, &t.id, &no_edit()).unwrap();
    assert_eq!(nothing, after);
}

#[test]
fn edit_task_rejects_an_unknown_status_and_changes_nothing() {
    let mut db = Store::new();
    let t = create_task(&mut db, "A task".to_string(), Status::Todo).unwrap();
    let payload = EditTaskPayload { title: Some("Renamed"), status: Some("done"), ..no_edit() };
    let e = edit_task(&mut db, &t.id, &payload).unwrap_err();
    assert_eq!(e.kind, ErrorKind::Validation);
    assert_eq!(e.message, "Invalid task status done");
    assert_eq!(db.find_task(t.id), Some(t));
}

#[test]
fn edit_task_rejects_a_malformed_due_date_and_changes_nothing() {
    let mut db = Store::new();
    let t = create_task(&mut db, "A task".to_string(), Status::Todo).unwrap();
    let payload =
        EditTaskPayload { title: Some("Renamed"), due_date: Some("01/12/2025"), ..no_edit() };
    let e = edit_task(&mut db, &t.id, &payload).unwrap_err();
    assert_eq!(e.kind, ErrorKind::Validation);
    assert_eq!(e.message, "Invalid date 01/12/2025");
    assert_eq!(db.find_task(t.id), Some(t));
}

#[test]
fn edit_task_checks_the_status_before_the_due_date() {
    let mut db = Store::new();
    let t = create_task(&mut db, "A task".to_string(), Status::Todo).unwrap();
    let payload = EditTaskPayload { status: Some("later"), due_date: Some("soon"), ..no_edit() };
    let e = edit_task(&mut db, &t.id, &payload).unwrap_err();
    assert_eq!(e.message, "Invalid task status later");
}

#[test]
fn edit_task_validates_before_it_looks_for_the_task() {
    let mut db = Store::new();
    let payload = EditTaskPayload { status: Some("later"), ..no_edit() };
    let e = edit_task(&mut db, &9, &payload).unwrap_err();
    assert_eq!(e.kind, ErrorKind::Validation);
}

#[test]
fn edit_task_of_a_missing_task_is_not_found() {
    let mut db = Store::new();
    let id = 0x550e8400e29b41d4a716446655440000u128;
    let e = edit_task(&mut db, &id, &no_edit()).unwrap_err();
    assert_eq!(e.kind, ErrorKind::NotFound);
    assert_eq!(e.message, "Task with id 550e8400-e29b-41d4-a716-446655440000 not found!");
}

#[test]
fn task_patch_from_payload() {
    let payload = EditTaskPayload {
        title: Some("T"),
        description: None,
        status: Some("complete"),
        due_date: Some("2024-02-29"),
    };
    let patch = TaskPatch::from_payload(&payload).unwrap();
    assert_eq!(
        patch,
        TaskPatch {
            title: Some("T".to_string()),
            description: Change::Keep,
            status: Some(Status::Complete),
            due_date: Change::Replace(Date { year: 2024, month: 2, day: 29 }),
        }
    );
    assert_eq!(
        TaskPatch::from_payload(&no_edit()).unwrap(),
        TaskPatch { title: None, description: Change::Keep, status: None, due_date: Change::Keep }
    );
}

#[test]
fn task_patch_clearing() {
    let mut fields = FieldSet::new();
    fields.insert(ClearableField::DueDate);
    assert_eq!(
        TaskPatch::clearing(&fields),
        TaskPatch { title: None, description: Change::Keep, status: None, due_date: Change::Clear }
    );
    fields.insert(ClearableField::Description);
    assert_eq!(
        TaskPatch::clearing(&fields),
        TaskPatch { title: None, description: Change::Clear, status: None, due_date: Change::Clear }
    );
    assert_eq!(
        TaskPatch::clearing(&FieldSet::new()),
        TaskPatch { title: None, description: Change::Keep, status: None, due_date: Change::Keep }
    );
}

#[test]
fn clear_fields_empties_the_named_field_only() {
    let mut db = Store::new();
    let t = create_task(&mut db, "A task".to_string(), Status::Todo).unwrap();
    let set = EditTaskPayload {
        description: Some("A description!"),
        due_date: Some("2025-12-01"),
        ..no_edit()
    };
    edit_task(&mut db, &t.id, &set).unwrap();

    let mut fields = FieldSet::new();
    fields.insert(ClearableField::DueDate);
    let after = clear_fields(&mut db, &t.id, fields).unwrap();
    assert_eq!(after.title, "A task");
    assert_eq!(after.due_date, None);
    assert_eq!(after.description, Some("A description!".to_string()));
    assert_eq!(after.status, Status::Todo);
    assert_eq!(db.find_task(t.id), Some(after));

    let mut fields = FieldSet::new();
    fields.insert(ClearableField::Description);
    let after = clear_fields(&mut db, &t.id, fields).unwrap();
    assert_eq!(after.description, None);
    assert_eq!(after.due_date, None);
    assert_eq!(after.title, "A task");
}

#[test]
fn clear_fields_with_no_field_changes_nothing() {
    let mut db = Store::new();
    let t = create_task(&mut db, "A task".to_string(), Status::Todo).unwrap();
    let set = EditTaskPayload { description: Some("d"), due_date: Some("2025-12-01"), ..no_edit() };
    let before = edit_task(&mut db, &t.id, &set).unwrap();
    let after = clear_fields(&mut db, &t.id, FieldSet::new()).unwrap();
    assert_eq!(after, before);
}

#[test]
fn clear_fields_of_a_missing_task_is_not_found() {
    let mut db = Store::new();
    let e = clear_fields(&mut db, &77, FieldSet::new()).unwrap_err();
    assert_eq!(e.kind, ErrorKind::NotFound);
    assert_eq!(e.message, format!("Task with id {} not found!", id_text(77)));
}

#[test]
fn attach_to_two_projects_detach_from_one_delete_the_other() {
    let mut db = Store::new();
    let a = create_project(&mut db, "A".to_string()).unwrap();
    let b = create_project(&mut db, "B".to_string()).unwrap();
    let t = create_task(&mut db, "T".to_string(), Status::Todo).unwrap();

    let link_a = add_to_project(&mut db, &t.id, &a.id).unwrap();
    let link_b = add_to_project(&mut db, &t.id, &b.id).unwrap();
    assert_eq!(link_a, TaskProject { project_id: a.id, task_id: t.id, created_at: 3 });
    assert_eq!(link_b, TaskProject { project_id: b.id, task_id: t.id, created_at: 4 });
    assert!(db.is_linked(a.id, t.id));
    assert!(db.is_linked(b.id, t.id));

    remove_from_project(&mut db, &t.id, &a.id).unwrap();
    assert!(!db.is_linked(a.id, t.id));
    assert!(db.is_linked(b.id, t.id));
    let holders: Vec<u128> = db.projects_of_task(t.id).iter().map(|p| p.id).collect();
    assert_eq!(holders, vec![b.id]);

    assert!(db.delete_project(b.id));
    assert!(!db.is_linked(a.id, t.id));
    assert!(!db.is_linked(b.id, t.id));
    assert!(db.projects_of_task(t.id).is_empty());
    assert_eq!(db.find_task(t.id), Some(t));
    assert!(db.has_project(a.id));
    assert!(!db.has_project(b.id));
}

#[test]
fn add_to_project_needs_both_rows() {
    let mut db = Store::new();
    let p = create_project(&mut db, "P".to_string()).unwrap();
    let t = create_task(&mut db, "T".to_string(), Status::Todo).unwrap();
    let e = add_to_project(&mut db, &t.id, &new_id()).unwrap_err();
    assert_eq!(e.kind, ErrorKind::Internal);
    assert_eq!(e.message, "The link names a project that is not stored");
    let e = add_to_project(&mut db, &new_id(), &p.id).unwrap_err();
    assert_eq!(e.kind, ErrorKind::Internal);
    assert_eq!(e.message, "The link names a task that is not stored");
    assert!(!db.is_linked(p.id, t.id));
}

#[test]
fn add_to_project_twice_is_turned_down() {
    let mut db = Store::new();
    let p = create_project(&mut db, "P".to_string()).unwrap();
    let t = create_task(&mut db, "T".to_string(), Status::Todo).unwrap();
    add_to_project(&mut db, &t.id, &p.id).unwrap();
    let e = add_to_project(&mut db, &t.id, &p.id).unwrap_err();
    assert_eq!(e.kind, ErrorKind::Internal);
    assert_eq!(e.message, "The task is already in the project");
    assert_eq!(db.tasks_of_project(p.id).len(), 1);
    assert_eq!(db.tally(p.id).total, 1);
}

#[test]
fn remove_from_project_succeeds_when_there_is_no_link() {
    let mut db = Store::new();
    let p = create_project(&mut db, "P".to_string()).unwrap();
    let t = create_task(&mut db, "T".to_string(), Status::Todo).unwrap();
    assert!(remove_from_project(&mut db, &t.id, &p.id).is_ok());
    assert!(remove_from_project(&mut db, &1, &2).is_ok());
    assert_eq!(db.find_task(t.id), Some(t));
    assert_eq!(db.find_project(p.id), Some(p));
}

#[test]
fn create_task_in_project_links_the_new_task() {
    let mut db = Store::new();
    let p = create_project(&mut db, "A project".to_string()).unwrap();
    let t = create_task_in_project(&mut db, "A new task!".to_string(), Status::Todo, &p.id)
        .unwrap();
    assert_eq!(t.title, "A new task!");
    assert!(db.is_linked(p.id, t.id));
    assert_eq!(ids(&db.tasks_of_project(p.id)), vec![t.id]);
}

#[test]
fn create_task_in_a_missing_project_fails_and_keeps_the_task() {
    let mut db = Store::new();
    let e = create_task_in_project_as(&mut db, 5, "Orphan".to_string(), Status::Todo, &6)
        .unwrap_err();
    assert_eq!(e.kind, ErrorKind::Internal);
    assert_eq!(e.message, "The link names a project that is not stored");
    let kept = db.find_task(5).unwrap();
    assert_eq!(kept.title, "Orphan");
    assert!(db.projects_of_task(5).is_empty());
}

#[test]
fn create_task_in_project_reports_the_first_failure() {
    let mut db = Store::new();
    create_project_as(&mut db, 1, "P".to_string()).unwrap();
    create_task_as(&mut db, 5, "First".to_string(), Status::Todo).unwrap();
    let e = create_task_in_project_as(&mut db, 5, "Second".to_string(), Status::Todo, &1)
        .unwrap_err();
    assert_eq!(e.message, "A row with this identifier is already stored");
    assert_eq!(db.find_task(5).unwrap().title, "First");
    let e = create_task_in_project_as(&mut db, NIL, "Nil".to_string(), Status::Todo, &1)
        .unwrap_err();
    assert_eq!(e.message, "The nil identifier cannot be stored");
}

#[test]
fn deleting_a_task_takes_its_links_and_leaves_the_projects() {
    let mut db = Store::new();
    let p = create_project(&mut db, "P".to_string()).unwrap();
    let t = create_task_in_project(&mut db, "T".to_string(), Status::Todo, &p.id).unwrap();
    let u = create_task_in_project(&mut db, "U".to_string(), Status::Todo, &p.id).unwrap();
    assert!(db.delete_task(t.id));
    assert!(!db.has_task(t.id));
    assert!(!db.is_linked(p.id, t.id));
    assert!(db.is_linked(p.id, u.id));
    assert_eq!(db.find_project(p.id), Some(p));
    assert!(!db.delete_task(t.id));
}

#[test]
fn deleting_a_project_deletes_no_task() {
    let mut db = Store::new();
    let p = create_project(&mut db, "P".to_string()).unwrap();
    let q = create_project(&mut db, "Q".to_string()).unwrap();
    let t = create_task_in_project(&mut db, "T".to_string(), Status::Todo, &p.id).unwrap();
    add_to_project(&mut db, &t.id, &q.id).unwrap();
    assert!(db.delete_project(p.id));
    assert_eq!(db.find_task(t.id), Some(t.clone()));
    assert!(db.is_linked(q.id, t.id));
    assert!(!db.is_linked(p.id, t.id));
    assert!(!db.delete_project(p.id));
    assert!(db.tasks_of_project(p.id).is_empty());
}

#[test]
fn stats_for_two_complete_and_one_in_progress() {
    let mut db = Store::new();
    let p = create_project(&mut db, "P".to_string()).unwrap();
    create_task_in_project(&mut db, "a".to_string(), Status::Complete, &p.id).unwrap();
    create_task_in_project(&mut db, "b".to_string(), Status::Complete, &p.id).unwrap();
    create_task_in_project(&mut db, "c".to_string(), Status::InProgress, &p.id).unwrap();
    let empty = create_project(&mut db, "Empty".to_string()).unwrap();
    create_task(&mut db, "loose".to_string(), Status::Complete).unwrap();

    assert_eq!(
        db.stats(&vec![p.id, empty.id]),
        vec![
            ProjectStats { id: p.id, complete: 2, in_progress: 1, todo: 0, total: 3 },
            ProjectStats { id: empty.id, complete: 0, in_progress: 0, todo: 0, total: 0 },
        ]
    );
    assert_eq!(
        db.tally(empty.id),
        ProjectStats { id: empty.id, complete: 0, in_progress: 0, todo: 0, total: 0 }
    );
}

#[test]
fn stats_follow_the_order_of_creation_and_skip_what_is_not_stored() {
    let mut db = Store::new();
    let first = create_project(&mut db, "first".to_string()).unwrap();
    let second = create_project(&mut db, "second".to_string()).unwrap();
    let third = create_project(&mut db, "third".to_string()).unwrap();
    let got = db.stats(&vec![third.id, new_id(), NIL, first.id, third.id]);
    let got: Vec<u128> = got.iter().map(|s| s.id).collect();
    assert_eq!(got, vec![first.id, third.id]);
    assert!(db.stats(&vec![]).is_empty());
    assert_eq!(db.stats(&vec![second.id]).len(), 1);
}

#[test]
fn a_task_in_two_projects_counts_in_each() {
    let mut db = Store::new();
    let p = create_project(&mut db, "P".to_string()).unwrap();
    let q = create_project(&mut db, "Q".to_string()).unwrap();
    let t = create_task_in_project(&mut db, "T".to_string(), Status::Todo, &p.id).unwrap();
    add_to_project(&mut db, &t.id, &q.id).unwrap();
    assert_eq!(db.tally(p.id).todo, 1);
    assert_eq!(db.tally(q.id).todo, 1);
    assert_eq!(db.tally(q.id).total, 1);
}

#[test]
fn stats_follow_edits_of_the_status() {
    let mut db = Store::new();
    let p = create_project(&mut db, "P".to_string()).unwrap();
    let t = create_task_in_project(&mut db, "T".to_string(), Status::Todo, &p.id).unwrap();
    let done = EditTaskPayload { status: Some("complete"), ..no_edit() };
    edit_task(&mut db, &t.id, &done).unwrap();
    assert_eq!(
        db.tally(p.id),
        ProjectStats { id: p.id, complete: 1, in_progress: 0, todo: 0, total: 1 }
    );
}

#[test]
fn search_looks_in_titles_and_descriptions_newest_first() {
    let mut db = Store::new();
    let a = create_task(&mut db, "Invert everything".to_string(), Status::Todo).unwrap();
    let b = create_task(&mut db, "Go on a walk".to_string(), Status::Todo).unwrap();
    let c = create_task(&mut db, "Read".to_string(), Status::Todo).unwrap();
    let described = EditTaskPayload { description: Some("the thing on the shelf"), ..no_edit() };
    edit_task(&mut db, &c.id, &described).unwrap();
    assert_eq!(ids(&db.search_tasks("thing")), vec![c.id, a.id]);
    assert_eq!(ids(&db.search_tasks("walk")), vec![b.id]);
    assert_eq!(ids(&db.search_tasks("")), vec![c.id, b.id, a.id]);
    assert!(db.search_tasks("Thing").is_empty());
    assert!(db.search_tasks("nowhere").is_empty());
}

#[test]
fn lists_are_ordered_by_creation() {
    let mut db = Store::new();
    let p = create_project(&mut db, "P".to_string()).unwrap();
    let q = create_project(&mut db, "Q".to_string()).unwrap();
    let r = create_project(&mut db, "R".to_string()).unwrap();
    let listed: Vec<u128> = db.list_projects().iter().map(|x| x.id).collect();
    assert_eq!(listed, vec![r.id, q.id, p.id]);

    let t = create_task_in_project(&mut db, "t".to_string(), Status::Todo, &q.id).unwrap();
    let u = create_task(&mut db, "u".to_string(), Status::Todo).unwrap();
    let v = create_task_in_project(&mut db, "v".to_string(), Status::Todo, &q.id).unwrap();
    add_to_project(&mut db, &u.id, &q.id).unwrap();
    assert_eq!(ids(&db.tasks_of_project(q.id)), vec![t.id, u.id, v.id]);
    add_to_project(&mut db, &t.id, &r.id).unwrap();
    add_to_project(&mut db, &t.id, &p.id).unwrap();
    let holders: Vec<u128> = db.projects_of_task(t.id).iter().map(|x| x.id).collect();
    assert_eq!(holders, vec![p.id, q.id, r.id]);
}

#[test]
fn store_insert_faults() {
    let mut db = Store::new();
    assert_eq!(db.insert_project(NIL, "x".to_string()), Err(StoreFault::NilId));
    assert_eq!(db.insert_task(NIL, "x".to_string(), Status::Todo), Err(StoreFault::NilId));
    db.insert_project(1, "p".to_string()).unwrap();
    db.insert_task(2, "t".to_string(), Status::Todo).unwrap();
    assert_eq!(db.insert_project(1, "again".to_string()), Err(StoreFault::IdTaken));
    assert_eq!(db.insert_task(2, "again".to_string(), Status::Todo), Err(StoreFault::IdTaken));
    assert_eq!(db.insert_link(3, 2), Err(StoreFault::NoProject));
    assert_eq!(db.insert_link(1, 3), Err(StoreFault::NoTask));
    assert_eq!(
        db.insert_link(1, 2),
        Ok(TaskProject { project_id: 1, task_id: 2, created_at: 2 })
    );
    assert_eq!(db.insert_link(1, 2), Err(StoreFault::AlreadyLinked));
    assert!(db.delete_link(1, 2));
    assert!(!db.delete_link(1, 2));
    assert_eq!(StoreFault::Exhausted.into_error().message, "The store has no timestamp left");
    assert_eq!(StoreFault::Exhausted.into_error().kind, ErrorKind::Internal);
}

#[test]
fn the_same_identifier_may_name_a_project_and_a_task() {
    let mut db = Store::new();
    db.insert_project(1, "p".to_string()).unwrap();
    db.insert_task(1, "t".to_string(), Status::Todo).unwrap();
    assert!(db.has_project(1));
    assert!(db.has_task(1));
    assert!(db.delete_task(1));
    assert!(db.has_project(1));
}
