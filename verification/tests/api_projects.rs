use task_tracker::api::projects::{
    add_task_to_project, create_project, create_task_in_project, delete_project, edit_project,
    get_project, get_project_tasks, project_stats, projects, remove_task_from_project,
};
use task_tracker::error::ErrorKind;
use task_tracker::event::{new_feed, subscribe, EntityType, FeedWriter, UpdateEvent, UpdateKind};
use task_tracker::ident::id_text;
use task_tracker::model::ProjectStats;
use task_tracker::project::EditProjectPayload;
use task_tracker::status::Status;
use task_tracker::store::Store;
use task_tracker::task;
use tokio::sync::broadcast::error::TryRecvError;

fn quiet_feed() -> FeedWriter {
    new_feed(1).unwrap()
}

fn event(kind: UpdateKind, entity_type: EntityType, entity_id: u128) -> UpdateEvent {
    UpdateEvent { kind, entity_id, entity_type }
}

#[test]
fn test_get_projects() {
    let db = Store::new();
    let listed = projects(&db).unwrap();
    assert_eq!(listed.len(), 0);
}

#[test]
fn test_create_project() {
    let mut db = Store::new();
    let feed = quiet_feed();
    let done = create_project("A new project!", &mut db, &feed).unwrap();
    assert_eq!(done.reply.title, "A new project!");
    assert_eq!(
        done.published,
        vec![event(UpdateKind::Create, EntityType::Project, done.reply.id)]
    );
    assert_eq!(projects(&db).unwrap(), vec![done.reply]);
}

#[test]
fn test_edit_project() {
    let mut db = Store::new();
    let feed = quiet_feed();
    let project = task_tracker::project::create_project(&mut db, "A project".to_string()).unwrap();
    let payload = EditProjectPayload {
        title: Some("New Name!!".to_string()),
        description: Some("A description!".to_string()),
    };
    let done = edit_project(&id_text(project.id), payload, &mut db, &feed).unwrap();
    assert_eq!(done.reply.title, "New Name!!");
    assert_eq!(done.reply.description, Some("A description!".to_string()));
    assert_eq!(done.published, vec![event(UpdateKind::Update, EntityType::Project, project.id)]);
}

#[test]
fn test_edit_project_single_field() {
    let mut db = Store::new();
    let feed = quiet_feed();
    let project = task_tracker::project::create_project(&mut db, "A project".to_string()).unwrap();
    let payload = EditProjectPayload { title: None, description: Some("A description!".to_string()) };
    let done = edit_project(&id_text(project.id), payload, &mut db, &feed).unwrap();
    assert_eq!(done.reply.title, "A project");
    assert_eq!(done.reply.description, Some("A description!".to_string()));
}

#[test]
fn test_create_task_in_project() {
    let mut db = Store::new();
    let feed = quiet_feed();
    let project = task_tracker::project::create_project(&mut db, "A project".to_string()).unwrap();
    let done = create_task_in_project(&id_text(project.id), "A new task!", &mut db, &feed).unwrap();
    assert_eq!(done.reply.title, "A new task!");
    assert_eq!(done.reply.status, Status::Todo);
    assert_eq!(
        done.published,
        vec![
            event(UpdateKind::Create, EntityType::Task, done.reply.id),
            event(UpdateKind::Update, EntityType::Project, project.id),
        ]
    );
    assert!(db.is_linked(project.id, done.reply.id));
}

#[test]
fn test_add_task_to_project() {
    let mut db = Store::new();
    let feed = quiet_feed();
    let project = task_tracker::project::create_project(&mut db, "A project".to_string()).unwrap();
    let t = task::create_task(&mut db, "Task".to_string(), Status::InProgress).unwrap();
    let done =
        add_task_to_project(&id_text(project.id), &id_text(t.id), &mut db, &feed).unwrap();
    assert_eq!(done.reply.project_id, project.id);
    assert_eq!(done.reply.task_id, t.id);
    assert_eq!(
        done.published,
        vec![
            event(UpdateKind::Update, EntityType::Project, project.id),
            event(UpdateKind::Update, EntityType::Task, t.id),
        ]
    );
    assert!(db.is_linked(project.id, t.id));
}

#[test]
fn test_remove_task_from_project() {
    let mut db = Store::new();
    let feed = quiet_feed();
    let project = task_tracker::project::create_project(&mut db, "A project".to_string()).unwrap();
    let t = task::create_task_in_project(
        &mut db,
        "Task".to_string(),
        Status::InProgress,
        &project.id,
    )
    .unwrap();
    let done =
        remove_task_from_project(&id_text(project.id), &id_text(t.id), &mut db, &feed).unwrap();
    assert_eq!(
        done.published,
        vec![
            event(UpdateKind::Update, EntityType::Project, project.id),
            event(UpdateKind::Update, EntityType::Task, t.id),
        ]
    );
    assert!(!db.is_linked(project.id, t.id));
    assert!(db.has_task(t.id));
    assert!(db.has_project(project.id));
}

#[test]
fn test_get_project() {
    let mut db = Store::new();
    let project = task_tracker::project::create_project(&mut db, "A project".to_string()).unwrap();
    let res = get_project(&id_text(project.id), &db).unwrap();
    assert_eq!(res.id, project.id);
    assert_eq!(res, project);
}

#[test]
fn test_get_project_tasks() {
    let mut db = Store::new();
    let project = task_tracker::project::create_project(&mut db, "A project".to_string()).unwrap();
    let t = task::create_task_in_project(
        &mut db,
        "Task 1".to_string(),
        Status::Complete,
        &project.id,
    )
    .unwrap();
    task::create_task(&mut db, "Other task".to_string(), Status::Complete).unwrap();
    let res = get_project_tasks(&id_text(project.id), &db).unwrap();
    assert_eq!(res.len(), 1);
    assert_eq!(res[0].id, t.id);
}

#[test]
fn test_project_stats() {
    let mut db = Store::new();
    let proj_two_complete =
        task_tracker::project::create_project(&mut db, "Project 0/0/2".to_string()).unwrap();
    task::create_task_in_project(
        &mut db,
        "Task 1".to_string(),
        Status::Complete,
        &proj_two_complete.id,
    )
    .unwrap();
    task::create_task_in_project(
        &mut db,
        "Task 2".to_string(),
        Status::Complete,
        &proj_two_complete.id,
    )
    .unwrap();

    let proj_one_complete =
        task_tracker::project::create_project(&mut db, "Project 1/0/1".to_string()).unwrap();
    task::create_task_in_project(
        &mut db,
        "Task 1".to_string(),
        Status::Todo,
        &proj_one_complete.id,
    )
    .unwrap();
    task::create_task_in_project(
        &mut db,
        "Task 2".to_string(),
        Status::Complete,
        &proj_one_complete.id,
    )
    .unwrap();

    let empty_project =
        task_tracker::project::create_project(&mut db, "Project 0/0/0".to_string()).unwrap();

    let in_progress_proj =
        task_tracker::project::create_project(&mut db, "Project 0/1/0".to_string()).unwrap();
    task::create_task_in_project(
        &mut db,
        "Task 4".to_string(),
        Status::InProgress,
        &in_progress_proj.id,
    )
    .unwrap();

    let a = id_text(proj_two_complete.id);
    let b = id_text(proj_one_complete.id);
    let c = id_text(empty_project.id);
    let d = id_text(in_progress_proj.id);
    let res = project_stats(vec![&a, &b, &c, &d], &db).unwrap();
    assert_eq!(res.len(), 4);
    assert_eq!(
        res,
        vec![
            ProjectStats { id: proj_two_complete.id, complete: 2, in_progress: 0, todo: 0, total: 2 },
            ProjectStats { id: proj_one_complete.id, complete: 1, in_progress: 0, todo: 1, total: 2 },
            ProjectStats { id: empty_project.id, complete: 0, in_progress: 0, todo: 0, total: 0 },
            ProjectStats { id: in_progress_proj.id, complete: 0, in_progress: 1, todo: 0, total: 1 },
        ]
    );
}

#[test]
fn test_delete_project() {
    let mut db = Store::new();
    let feed = quiet_feed();
    let p = task_tracker::project::create_project(&mut db, "A project".to_string()).unwrap();
    let done = delete_project(&id_text(p.id), &mut db, &feed).unwrap();
    assert_eq!(done.published, vec![event(UpdateKind::Destroy, EntityType::Project, p.id)]);
    assert!(!db.has_project(p.id));
}

#[test]
fn launch_scenario_counts_one_todo() {
    let mut db = Store::new();
    let feed = quiet_feed();
    let launch = create_project("Launch", &mut db, &feed).unwrap().reply;
    let doc = create_task_in_project(&id_text(launch.id), "Write doc", &mut db, &feed)
        .unwrap()
        .reply;
    assert_eq!(doc.status, Status::Todo);
    let text = id_text(launch.id);
    let stats = project_stats(vec![&text], &db).unwrap();
    assert_eq!(
        stats,
        vec![ProjectStats { id: launch.id, complete: 0, in_progress: 0, todo: 1, total: 1 }]
    );
}

#[test]
fn project_stats_tolerates_bad_identifiers() {
    let mut db = Store::new();
    let feed = quiet_feed();
    let p = create_project("P", &mut db, &feed).unwrap().reply;
    let text = id_text(p.id);
    let stats = project_stats(
        vec!["nonsense", &text, "", "550e8400-e29b-41d4-a716-446655440000"],
        &db,
    )
    .unwrap();
    assert_eq!(
        stats,
        vec![ProjectStats { id: p.id, complete: 0, in_progress: 0, todo: 0, total: 0 }]
    );
    assert!(project_stats(vec!["nonsense"], &db).unwrap().is_empty());
    assert!(project_stats(vec![], &db).unwrap().is_empty());
}

#[test]
fn create_project_with_an_empty_title_announces_nothing() {
    let mut db = Store::new();
    let feed = quiet_feed();
    let mut reader = subscribe(&feed);
    let e = create_project("", &mut db, &feed).unwrap_err();
    assert_eq!(e.kind, ErrorKind::Validation);
    assert_eq!(e.message, "Project title must not be empty");
    assert_eq!(reader.try_recv(), Err(TryRecvError::Empty));
    assert!(projects(&db).unwrap().is_empty());
}

#[test]
fn project_requests_reject_bad_identifiers() {
    let mut db = Store::new();
    let feed = quiet_feed();
    let mut reader = subscribe(&feed);
    let edit = EditProjectPayload { title: None, description: None };
    assert_eq!(get_project("x", &db).unwrap_err().message, "Invalid uuid x");
    assert_eq!(edit_project("x", edit, &mut db, &feed).unwrap_err().kind, ErrorKind::Validation);
    assert_eq!(delete_project("x", &mut db, &feed).unwrap_err().message, "Invalid uuid x");
    assert_eq!(get_project_tasks("x", &db).unwrap_err().message, "Invalid uuid x");
    assert_eq!(
        create_task_in_project("x", "t", &mut db, &feed).unwrap_err().message,
        "Invalid uuid x"
    );
    let good = "550e8400-e29b-41d4-a716-446655440000";
    assert_eq!(
        add_task_to_project("p?", "t?", &mut db, &feed).unwrap_err().message,
        "Invalid uuid p?"
    );
    assert_eq!(
        add_task_to_project(good, "t?", &mut db, &feed).unwrap_err().message,
        "Invalid uuid t?"
    );
    assert_eq!(
        remove_task_from_project("p?", good, &mut db, &feed).unwrap_err().message,
        "Invalid uuid p?"
    );
    assert_eq!(
        remove_task_from_project(good, "t?", &mut db, &feed).unwrap_err().message,
        "Invalid uuid t?"
    );
    assert_eq!(reader.try_recv(), Err(TryRecvError::Empty));
}

#[test]
fn get_project_that_is_not_stored_is_not_found() {
    let db = Store::new();
    let e = get_project("550e8400-e29b-41d4-a716-446655440000", &db).unwrap_err();
    assert_eq!(e.kind, ErrorKind::NotFound);
    assert_eq!(e.message, "Project with id 550e8400-e29b-41d4-a716-446655440000 not found!");
}

#[test]
fn edit_of_a_missing_project_announces_nothing() {
    let mut db = Store::new();
    let feed = quiet_feed();
    let mut reader = subscribe(&feed);
    let edit = EditProjectPayload { title: Some("x".to_string()), description: None };
    let e = edit_project("550e8400-e29b-41d4-a716-446655440000", edit, &mut db, &feed)
        .unwrap_err();
    assert_eq!(e.kind, ErrorKind::NotFound);
    assert_eq!(reader.try_recv(), Err(TryRecvError::Empty));
}

#[test]
fn delete_of_a_missing_project_succeeds_and_is_announced() {
    let mut db = Store::new();
    let feed = quiet_feed();
    let mut reader = subscribe(&feed);
    let id = 0x550e8400e29b41d4a716446655440000u128;
    let done = delete_project("550e8400-e29b-41d4-a716-446655440000", &mut db, &feed).unwrap();
    assert_eq!(done.published, vec![event(UpdateKind::Destroy, EntityType::Project, id)]);
    assert_eq!(reader.try_recv().unwrap(), event(UpdateKind::Destroy, EntityType::Project, id));
}

#[test]
fn create_task_in_a_missing_project_keeps_the_task_and_announces_nothing() {
    let mut db = Store::new();
    let feed = quiet_feed();
    let mut reader = subscribe(&feed);
    let e = create_task_in_project("550e8400-e29b-41d4-a716-446655440000", "t", &mut db, &feed)
        .unwrap_err();
    assert_eq!(e.kind, ErrorKind::Internal);
    assert_eq!(reader.try_recv(), Err(TryRecvError::Empty));
    assert_eq!(db.search_tasks("t").len(), 1);
}

#[test]
fn subscribers_hear_of_each_mutation() {
    let mut db = Store::new();
    let feed = quiet_feed();
    let mut reader = subscribe(&feed);
    let p = create_project("P", &mut db, &feed).unwrap().reply;
    let t = create_task_in_project(&id_text(p.id), "T", &mut db, &feed).unwrap().reply;
    delete_project(&id_text(p.id), &mut db, &feed).unwrap();
    assert_eq!(reader.try_recv(), Err(TryRecvError::Lagged(3)));
    assert_eq!(
        reader.try_recv().unwrap(),
        event(UpdateKind::Destroy, EntityType::Project, p.id)
    );
    assert!(db.has_task(t.id));
}
