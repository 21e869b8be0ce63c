//! The exact statement text each builder renders.

use toado::queries::projects::{
    AddProjectQuery, DeleteProjectQuery, SelectProjectsQuery, UpdateProjectQuery,
};
use toado::queries::tasks::{
    AddTaskQuery, DeleteTaskQuery, SelectTasksQuery, UpdateTaskCols, UpdateTaskQuery,
};
use toado::{
    AssignTaskQuery, ItemStatus, OrderBy, OrderDir, QueryCols, QueryConditions, RowLimit, SqlValue,
    UpdateAction,
};

fn named(cols: &[&str]) -> QueryCols {
    QueryCols::Named(cols.iter().map(|c| c.to_string()).collect())
}

#[test]
fn add_task_names_only_present_columns() {
    let q = AddTaskQuery::new(
        "Buy milk".to_string(),
        3,
        ItemStatus::Incomplete,
        None,
        None,
        None,
        None,
    );
    assert_eq!(
        q.build_query_string(),
        "INSERT INTO tasks(name, priority, status) VALUES('Buy milk', 3, 0);"
    );
}

#[test]
fn add_task_records_the_given_status_code() {
    let complete = AddTaskQuery::new(
        "Done deal".to_string(),
        1,
        ItemStatus::Complete,
        None,
        None,
        None,
        None,
    );
    assert_eq!(
        complete.build_query_string(),
        "INSERT INTO tasks(name, priority, status) VALUES('Done deal', 1, 1);"
    );
    let archived = AddTaskQuery::new(
        "Old news".to_string(),
        0,
        ItemStatus::Archived,
        None,
        None,
        None,
        None,
    );
    assert_eq!(
        archived.build_query_string(),
        "INSERT INTO tasks(name, priority, status) VALUES('Old news', 0, 2);"
    );
}

#[test]
fn add_task_with_optional_columns() {
    let q = AddTaskQuery::new(
        "Water plants".to_string(),
        0,
        ItemStatus::Incomplete,
        Some("2024-01-01".to_string()),
        None,
        Some("weekly".to_string()),
        Some("the ficus".to_string()),
    );
    assert_eq!(
        q.build_query_string(),
        "INSERT INTO tasks(name, priority, status, start_time, repeat, notes) \
         VALUES('Water plants', 0, 0, '2024-01-01', 'weekly', 'the ficus');"
    );
}

#[test]
fn select_tasks_defaults_resolve_to_priority_desc_limit_ten() {
    let q = SelectTasksQuery::new(
        named(&["id", "name", "priority", "status"]),
        Some("id = 1".to_string()),
        None,
        None,
        None,
        None,
    );
    assert_eq!(
        q.build_query_string(),
        "SELECT id, name, priority, status FROM tasks WHERE id = 1 ORDER BY priority DESC LIMIT 10;"
    );
}

#[test]
fn select_tasks_all_columns_no_condition() {
    let q = SelectTasksQuery::new(QueryCols::All, None, None, None, None, None);
    assert_eq!(
        q.build_query_string(),
        "SELECT * FROM tasks ORDER BY priority DESC LIMIT 10;"
    );
}

#[test]
fn select_tasks_explicit_order_and_limit() {
    let q = SelectTasksQuery::new(
        QueryCols::All,
        None,
        Some(OrderBy::Name),
        Some(OrderDir::Asc),
        Some(RowLimit::Limit(5)),
        Some(20),
    );
    assert_eq!(
        q.build_query_string(),
        "SELECT * FROM tasks ORDER BY name ASC LIMIT 5 OFFSET 20;"
    );
}

#[test]
fn select_tasks_all_rows_drops_cap_and_offset() {
    let q = SelectTasksQuery::new(
        QueryCols::All,
        None,
        None,
        None,
        Some(RowLimit::All),
        Some(20),
    );
    assert_eq!(q.build_query_string(), "SELECT * FROM tasks ORDER BY priority DESC;");
}

#[test]
fn select_tasks_non_priority_order_defaults_ascending() {
    let q = SelectTasksQuery::new(QueryCols::All, None, Some(OrderBy::Id), None, None, None);
    assert_eq!(
        q.build_query_string(),
        "SELECT * FROM tasks ORDER BY id ASC LIMIT 10;"
    );
}

#[test]
fn select_projects_defaults_resolve_to_name_asc() {
    let q = SelectProjectsQuery::new(QueryCols::All, None, None, None, None, None);
    assert_eq!(
        q.build_query_string(),
        "SELECT * FROM projects ORDER BY name ASC LIMIT 10;"
    );
}

#[test]
fn update_task_set_null_renders_explicit_null() {
    let cols = UpdateTaskCols::new(
        UpdateAction::Untouched,
        UpdateAction::Untouched,
        UpdateAction::Untouched,
        UpdateAction::Null,
        UpdateAction::Untouched,
        UpdateAction::Untouched,
        UpdateAction::Untouched,
    );
    let q = UpdateTaskQuery::new(cols, Some("id = 1".to_string()));
    assert_eq!(q.build_query_string(), "UPDATE tasks SET start_time = NULL WHERE id = 1;");
}

#[test]
fn update_task_filters_untouched_columns() {
    let cols = UpdateTaskCols::new(
        UpdateAction::Value("Cook".to_string()),
        UpdateAction::Value(7),
        UpdateAction::Value(ItemStatus::Complete),
        UpdateAction::Untouched,
        UpdateAction::Untouched,
        UpdateAction::Untouched,
        UpdateAction::Null,
    );
    let q = UpdateTaskQuery::new(cols, Some("id = 2".to_string()));
    assert_eq!(
        q.build_query_string(),
        "UPDATE tasks SET name = 'Cook', priority = 7, status = 1, notes = NULL WHERE id = 2;"
    );
}

#[test]
fn update_task_status_only_constructor() {
    let q = UpdateTaskQuery::new(UpdateTaskCols::status(ItemStatus::Archived), None);
    assert_eq!(q.build_query_string(), "UPDATE tasks SET status = 2;");
}

#[test]
fn update_project_renders_assignments() {
    let q = UpdateProjectQuery::new(
        Some("id = 3".to_string()),
        UpdateAction::Value("Garden".to_string()),
        UpdateAction::Null,
        UpdateAction::Untouched,
        UpdateAction::Untouched,
    );
    assert_eq!(
        q.build_query_string(),
        "UPDATE projects SET name = 'Garden', start_time = NULL WHERE id = 3;"
    );
}

#[test]
fn delete_task_with_condition() {
    let q = DeleteTaskQuery::new(Some("id = 1".to_string()));
    assert_eq!(q.build_query_string(), "DELETE FROM tasks WHERE id = 1;");
}

#[test]
fn delete_task_without_condition_deletes_every_row() {
    let q = DeleteTaskQuery::new(None);
    assert_eq!(q.build_query_string(), "DELETE FROM tasks;");
}

#[test]
fn delete_project_without_condition() {
    let q = DeleteProjectQuery::new(None);
    assert_eq!(q.build_query_string(), "DELETE FROM projects;");
}

#[test]
fn add_project_names_only_present_columns() {
    let q = AddProjectQuery::new("Garden".to_string(), None, Some("2024-06-01".to_string()), None);
    assert_eq!(
        q.build_query_string(),
        "INSERT INTO projects(name, end_time) VALUES('Garden', '2024-06-01');"
    );
}

#[test]
fn assign_task_query_inserts_join_row() {
    let q = AssignTaskQuery::new(1, 2);
    assert_eq!(
        q.build_query_string(),
        "INSERT INTO task_assignments(task_id, project_id) VALUES(1, 2);"
    );
}

#[test]
fn condition_fragments_render_canonically() {
    let eq = QueryConditions::Equal { col: "id".to_string(), value: SqlValue::Int(1) };
    assert_eq!(eq.to_text(), "id = 1");
    let ne = QueryConditions::NotEqual { col: "priority".to_string(), value: SqlValue::Uint(4) };
    assert_eq!(ne.to_text(), "priority != 4");
    let gt = QueryConditions::GreaterThan { col: "priority".to_string(), value: SqlValue::Int(-2) };
    assert_eq!(gt.to_text(), "priority > -2");
    let lt = QueryConditions::LessThan { col: "priority".to_string(), value: SqlValue::Uint(9) };
    assert_eq!(lt.to_text(), "priority < 9");
    let ge = QueryConditions::GreaterThanOrEqual {
        col: "priority".to_string(),
        value: SqlValue::Uint(1),
    };
    assert_eq!(ge.to_text(), "priority >= 1");
    let le = QueryConditions::LessThanOrEqual {
        col: "priority".to_string(),
        value: SqlValue::Uint(3),
    };
    assert_eq!(le.to_text(), "priority <= 3");
    let between = QueryConditions::Between {
        col: "priority".to_string(),
        low: SqlValue::Uint(1),
        high: SqlValue::Uint(5),
    };
    assert_eq!(between.to_text(), "priority BETWEEN 1 AND 5");
    let like = QueryConditions::Like {
        col: "name".to_string(),
        value: SqlValue::Text("%milk%".to_string()),
    };
    assert_eq!(like.to_text(), "name LIKE '%milk%'");
    let within = QueryConditions::In {
        col: "id".to_string(),
        values: vec![SqlValue::Int(1), SqlValue::Int(2), SqlValue::Int(3)],
    };
    assert_eq!(within.to_text(), "id IN (1, 2, 3)");
}

#[test]
fn text_values_are_quoted_integers_are_bare() {
    assert_eq!(SqlValue::Text("Buy milk".to_string()).to_text(), "'Buy milk'");
    assert_eq!(SqlValue::Int(-7).to_text(), "-7");
    assert_eq!(SqlValue::Uint(0).to_text(), "0");
}
