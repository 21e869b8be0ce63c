//! End-to-end behaviour against a real in-memory SQLite store.

use toado::{
    AddProjectArgs, AddTaskArgs, ItemStatus, QueryCols, QueryConditions, Server, SqlValue, Tables,
    UpdateAction, UpdateTaskArgs,
};

fn open_server() -> Server {
    let server = Server::open(":memory:").expect("opening an in-memory store succeeds");
    server.init().expect("initializing the schema succeeds");
    server
}

fn add_task(server: &Server, name: &str, priority: u64) -> i64 {
    server
        .add_task(AddTaskArgs {
            name: name.to_string(),
            priority,
            status: ItemStatus::Incomplete,
            start_time: None,
            end_time: None,
            repeat: None,
            notes: None,
        })
        .expect("adding a task succeeds")
}

fn id_condition(id: i64) -> Option<String> {
    Some(QueryConditions::Equal { col: "id".to_string(), value: SqlValue::Int(id) }.to_text())
}

fn untouched_task_args() -> UpdateTaskArgs {
    UpdateTaskArgs {
        name: UpdateAction::Untouched,
        priority: UpdateAction::Untouched,
        status: UpdateAction::Untouched,
        start_time: UpdateAction::Untouched,
        end_time: UpdateAction::Untouched,
        repeat: UpdateAction::Untouched,
        notes: UpdateAction::Untouched,
    }
}

#[test]
fn add_then_select_round_trips_the_task() {
    let server = open_server();
    let id = add_task(&server, "Buy milk", 3);
    let tasks = server
        .select_tasks(QueryCols::All, id_condition(id), None, None, None, None)
        .expect("selecting succeeds");
    assert_eq!(tasks.len(), 1);
    let task = &tasks[0];
    assert_eq!(task.id, Some(id));
    assert_eq!(task.name.as_deref(), Some("Buy milk"));
    assert_eq!(task.priority, Some(3));
    assert_eq!(task.status, Some(ItemStatus::Incomplete));
    assert_eq!(task.start_time, None);
    assert!(task.projects.is_none());
}

#[test]
fn default_selection_caps_at_ten_rows_priority_descending() {
    let server = open_server();
    for i in 0..12u64 {
        add_task(&server, &format!("task {i}"), i);
    }
    let tasks = server
        .select_tasks(QueryCols::All, None, None, None, None, None)
        .expect("selecting succeeds");
    assert_eq!(tasks.len(), 10);
    let priorities: Vec<u64> = tasks.iter().map(|t| t.priority.unwrap()).collect();
    let mut sorted = priorities.clone();
    sorted.sort_by(|a, b| b.cmp(a));
    assert_eq!(priorities, sorted);
    assert_eq!(priorities[0], 11);
}

#[test]
fn all_rows_selection_returns_everything_and_ignores_offset() {
    let server = open_server();
    for i in 0..15u64 {
        add_task(&server, &format!("task {i}"), i);
    }
    let tasks = server
        .select_tasks(
            QueryCols::All,
            None,
            None,
            None,
            Some(toado::RowLimit::All),
            Some(5),
        )
        .expect("selecting succeeds");
    assert_eq!(tasks.len(), 15);
}

#[test]
fn update_with_every_action_untouched_is_rejected_before_the_store() {
    let server = open_server();
    let id = add_task(&server, "Buy milk", 3);
    let result = server.update_task(id_condition(id), untouched_task_args());
    assert!(result.is_err());
    assert!(result.err().unwrap().is_misuse());
}

#[test]
fn project_update_with_every_action_untouched_is_rejected() {
    let server = open_server();
    let result = server.update_project(
        None,
        UpdateAction::Untouched,
        UpdateAction::Untouched,
        UpdateAction::Untouched,
        UpdateAction::Untouched,
    );
    assert!(result.is_err());
    assert!(result.err().unwrap().is_misuse());
}

#[test]
fn tri_state_update_round_trip() {
    let server = open_server();
    let id = server
        .add_task(AddTaskArgs {
            name: "Plan trip".to_string(),
            priority: 1,
            status: ItemStatus::Incomplete,
            start_time: Some("2024-01-01".to_string()),
            end_time: None,
            repeat: None,
            notes: None,
        })
        .expect("adding succeeds");

    let select = |server: &Server| -> Option<String> {
        let tasks = server
            .select_tasks(QueryCols::All, id_condition(id), None, None, None, None)
            .expect("selecting succeeds");
        tasks[0].start_time.clone()
    };
    assert_eq!(select(&server).as_deref(), Some("2024-01-01"));

    let mut args = untouched_task_args();
    args.start_time = UpdateAction::Null;
    assert_eq!(server.update_task(id_condition(id), args).expect("update succeeds"), 1);
    assert_eq!(select(&server), None);

    let mut args = untouched_task_args();
    args.start_time = UpdateAction::Value("2025-01-01".to_string());
    assert_eq!(server.update_task(id_condition(id), args).expect("update succeeds"), 1);
    assert_eq!(select(&server).as_deref(), Some("2025-01-01"));

    let mut args = untouched_task_args();
    args.start_time = UpdateAction::Untouched;
    args.priority = UpdateAction::Value(9);
    assert_eq!(server.update_task(id_condition(id), args).expect("update succeeds"), 1);
    assert_eq!(select(&server).as_deref(), Some("2025-01-01"));
}

#[test]
fn delete_without_condition_empties_tasks_and_cascades_to_assignments() {
    let server = open_server();
    let task_a = add_task(&server, "Water plants", 1);
    let task_b = add_task(&server, "Buy milk", 2);
    let project = server
        .add_project(AddProjectArgs {
            name: "Home".to_string(),
            start_time: None,
            end_time: None,
            notes: None,
        })
        .expect("adding a project succeeds");
    server.assign_task(task_a, project).expect("assigning succeeds");
    server.assign_task(task_b, project).expect("assigning succeeds");
    assert_eq!(server.get_table_row_count(Tables::TaskAssignments).unwrap(), 2);

    let deleted = server.delete_task(None).expect("deleting succeeds");
    assert_eq!(deleted, 2);
    assert_eq!(server.get_table_row_count(Tables::Tasks).unwrap(), 0);
    assert_eq!(server.get_table_row_count(Tables::TaskAssignments).unwrap(), 0);
    assert_eq!(server.get_table_row_count(Tables::Projects).unwrap(), 1);
}

#[test]
fn assigning_the_same_pair_twice_records_two_rows() {
    let server = open_server();
    let task = add_task(&server, "Buy milk", 1);
    let project = server
        .add_project(AddProjectArgs {
            name: "Home".to_string(),
            start_time: None,
            end_time: None,
            notes: None,
        })
        .expect("adding a project succeeds");
    server.assign_task(task, project).expect("assigning succeeds");
    server.assign_task(task, project).expect("assigning succeeds");
    assert_eq!(server.get_table_row_count(Tables::TaskAssignments).unwrap(), 2);
}

#[test]
fn unassign_removes_exactly_the_matching_pairs() {
    let server = open_server();
    let task_a = add_task(&server, "Water plants", 1);
    let task_b = add_task(&server, "Buy milk", 2);
    let project = server
        .add_project(AddProjectArgs {
            name: "Home".to_string(),
            start_time: None,
            end_time: None,
            notes: None,
        })
        .expect("adding a project succeeds");
    server.assign_task(task_a, project).expect("assigning succeeds");
    server.assign_task(task_a, project).expect("assigning succeeds");
    server.assign_task(task_b, project).expect("assigning succeeds");
    let removed = server.unassign_task(task_a, project).expect("unassigning succeeds");
    assert_eq!(removed, 2);
    assert_eq!(server.get_table_row_count(Tables::TaskAssignments).unwrap(), 1);
}

#[test]
fn batch_assignment_applies_every_pair() {
    let server = open_server();
    let task_a = add_task(&server, "Water plants", 1);
    let task_b = add_task(&server, "Buy milk", 2);
    let project = server
        .add_project(AddProjectArgs {
            name: "Home".to_string(),
            start_time: None,
            end_time: None,
            notes: None,
        })
        .expect("adding a project succeeds");
    server
        .batch_assign_tasks(vec![(task_a, project), (task_b, project)])
        .expect("batch assigning succeeds");
    assert_eq!(server.get_table_row_count(Tables::TaskAssignments).unwrap(), 2);
    server
        .batch_unassign_tasks(vec![(task_a, project), (task_b, project)])
        .expect("batch unassigning succeeds");
    assert_eq!(server.get_table_row_count(Tables::TaskAssignments).unwrap(), 0);
}

#[test]
fn assigning_a_dangling_identifier_is_a_statement_error() {
    let server = open_server();
    let result = server.assign_task(41, 42);
    assert!(result.is_err());
    assert!(result.err().unwrap().is_statement());
}

#[test]
fn malformed_condition_is_a_statement_error() {
    let server = open_server();
    let result = server.select_tasks(
        QueryCols::All,
        Some("no_such_column = 1".to_string()),
        None,
        None,
        None,
        None,
    );
    assert!(result.err().unwrap().is_statement());
}

#[test]
fn opening_an_impossible_path_is_a_connection_error() {
    let result = Server::open("/this/path/does/not/exist/toado.db");
    assert!(result.err().unwrap().is_connection());
}

#[test]
fn partial_projection_leaves_unselected_fields_absent() {
    let server = open_server();
    let id = add_task(&server, "Buy milk", 3);
    let tasks = server
        .select_tasks(
            QueryCols::Named(vec!["id".to_string(), "name".to_string()]),
            id_condition(id),
            None,
            None,
            None,
            None,
        )
        .expect("selecting succeeds");
    assert_eq!(tasks.len(), 1);
    let task = &tasks[0];
    assert_eq!(task.id, Some(id));
    assert_eq!(task.name.as_deref(), Some("Buy milk"));
    assert_eq!(task.priority, None);
    assert_eq!(task.status, None);
    assert_eq!(task.notes, None);
}

#[test]
fn project_round_trip_and_pagination_offset() {
    let server = open_server();
    for i in 0..4u64 {
        server
            .add_project(AddProjectArgs {
                name: format!("project {i}"),
                start_time: None,
                end_time: None,
                notes: Some(format!("notes {i}")),
            })
            .expect("adding a project succeeds");
    }
    let projects = server
        .select_project(
            QueryCols::All,
            None,
            None,
            None,
            Some(toado::RowLimit::Limit(2)),
            Some(1),
        )
        .expect("selecting succeeds");
    assert_eq!(projects.len(), 2);
    assert_eq!(projects[0].name.as_deref(), Some("project 1"));
    assert_eq!(projects[1].name.as_deref(), Some("project 2"));
    assert!(projects[0].tasks.is_none());
}

#[test]
fn update_task_reports_affected_row_count() {
    let server = open_server();
    add_task(&server, "one", 1);
    add_task(&server, "two", 2);
    let mut args = untouched_task_args();
    args.status = UpdateAction::Value(ItemStatus::Complete);
    let changed = server.update_task(None, args).expect("update succeeds");
    assert_eq!(changed, 2);
}

#[test]
fn added_status_is_recorded_and_round_trips() {
    let server = open_server();
    let id = server
        .add_task(AddTaskArgs {
            name: "Already done".to_string(),
            priority: 1,
            status: ItemStatus::Complete,
            start_time: None,
            end_time: None,
            repeat: None,
            notes: None,
        })
        .expect("adding succeeds");
    let tasks = server
        .select_tasks(QueryCols::All, id_condition(id), None, None, None, None)
        .expect("selecting succeeds");
    assert_eq!(tasks[0].status, Some(ItemStatus::Complete));
}

#[test]
fn archived_status_round_trips() {
    let server = open_server();
    let id = add_task(&server, "odd one", 1);
    let mut args = untouched_task_args();
    args.status = UpdateAction::Value(ItemStatus::Archived);
    server.update_task(id_condition(id), args).expect("update succeeds");
    let tasks = server
        .select_tasks(QueryCols::All, id_condition(id), None, None, None, None)
        .expect("selecting succeeds");
    assert_eq!(tasks[0].status, Some(ItemStatus::Archived));
}
