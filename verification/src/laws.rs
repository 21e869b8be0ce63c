//! Statement-level laws of the query layer, each stated over the spec
//! functions that the builders' contracts use.

use vstd::prelude::*;
use crate::queries::projects::{
    project_cols_all_untouched, project_order_by, project_set_texts, select_projects_sql,
    SelectProjectsQuery, UpdateProjectQuery,
};
use crate::queries::tasks::{
    delete_task_sql, select_tasks_sql, task_cols_all_untouched, task_order_by, task_set_texts,
    DeleteTaskQuery, SelectTasksQuery, UpdateTaskCols,
};
use crate::queries::{
    cols_text, cond_view, offset_text, pagination_text, resolved_order_dir, where_text, OrderBy,
    OrderDir, RowLimit,
};

verus! {

/// A task selection with no ordering request resolves to the tasks
/// table's defaults: ordered by priority, descending, so that the most
/// important tasks come first.
pub proof fn lemma_task_default_ordering(q: SelectTasksQuery)
    requires
        q.order_by is None,
        q.order_dir is None,
    ensures
        task_order_by(q) == OrderBy::Priority,
        resolved_order_dir(q.order_dir, task_order_by(q)) == OrderDir::Desc,
{
}

/// A project selection with no ordering request resolves to the projects
/// table's defaults: ordered by name, ascending.
pub proof fn lemma_project_default_ordering(q: SelectProjectsQuery)
    requires
        q.order_by is None,
        q.order_dir is None,
    ensures
        project_order_by(q) == OrderBy::Name,
        resolved_order_dir(q.order_dir, project_order_by(q)) == OrderDir::Asc,
{
}

/// A task selection with no ordering request, no row cap, and no offset
/// renders its whole ordering and pagination tail as the default page:
/// by priority, descending, capped at 10 rows.
pub proof fn lemma_select_tasks_default_page(q: SelectTasksQuery)
    requires
        q.order_by is None,
        q.order_dir is None,
        q.limit is None,
        q.offset is None,
    ensures
        select_tasks_sql(q) == "SELECT "@ + cols_text(q.cols) + " FROM tasks"@
            + where_text(cond_view(q.condition))
            + " ORDER BY priority DESC LIMIT 10;"@,
{
    reveal_strlit("tasks");
    reveal_strlit(" FROM ");
    reveal_strlit(" FROM tasks");
    reveal_strlit(" ORDER BY ");
    reveal_strlit("priority");
    reveal_strlit(" ");
    reveal_strlit("DESC");
    reveal_strlit(" LIMIT 10");
    reveal_strlit(";");
    reveal_strlit(" ORDER BY priority DESC LIMIT 10;");
    assert(select_tasks_sql(q) =~= "SELECT "@ + cols_text(q.cols) + " FROM tasks"@
        + where_text(cond_view(q.condition))
        + " ORDER BY priority DESC LIMIT 10;"@);
}

/// A selection that names no row cap at all is capped at the
/// conservative default of 10 rows, with any offset still honored.
pub proof fn lemma_default_row_cap(offset: Option<usize>)
    ensures
        pagination_text(None, offset) == " LIMIT 10"@ + offset_text(offset),
{
}

/// An explicit request for all rows disables both the cap and the
/// offset: two task selections that differ only in their offset render
/// the very same statement text.
pub proof fn lemma_select_tasks_all_rows_ignores_offset(q1: SelectTasksQuery, q2: SelectTasksQuery)
    requires
        q1.limit == Some(RowLimit::All),
        q2.limit == Some(RowLimit::All),
        q1.cols == q2.cols,
        q1.condition == q2.condition,
        q1.order_by == q2.order_by,
        q1.order_dir == q2.order_dir,
    ensures
        select_tasks_sql(q1) == select_tasks_sql(q2),
{
}

/// The same for project selections: with all rows requested, the offset
/// does not reach the statement text.
pub proof fn lemma_select_projects_all_rows_ignores_offset(
    q1: SelectProjectsQuery,
    q2: SelectProjectsQuery,
)
    requires
        q1.limit == Some(RowLimit::All),
        q2.limit == Some(RowLimit::All),
        q1.cols == q2.cols,
        q1.condition == q2.condition,
        q1.order_by == q2.order_by,
        q1.order_dir == q2.order_dir,
    ensures
        select_projects_sql(q1) == select_projects_sql(q2),
{
}

/// A task deletion with no condition renders exactly the statement that
/// removes every row of the tasks table.
pub proof fn lemma_delete_all_tasks(q: DeleteTaskQuery)
    requires
        q.condition is None,
    ensures
        delete_task_sql(q) == "DELETE FROM tasks;"@,
{
    reveal_strlit("DELETE FROM ");
    reveal_strlit("tasks");
    reveal_strlit(";");
    reveal_strlit("DELETE FROM tasks;");
    assert(delete_task_sql(q) =~= "DELETE FROM tasks;"@);
}

/// A task update writes no column at all exactly when every one of its
/// actions is untouched: only then would the assignment list of the
/// statement be empty, which is why the facade rejects such an update
/// before any statement is built.
pub proof fn lemma_task_update_fragments_empty_iff_untouched(c: UpdateTaskCols)
    ensures
        task_cols_all_untouched(c) <==> task_set_texts(c).len() == 0,
{
}

/// The same for project updates.
pub proof fn lemma_project_update_fragments_empty_iff_untouched(q: UpdateProjectQuery)
    ensures
        project_cols_all_untouched(q) <==> project_set_texts(q).len() == 0,
{
}

} // verus!

