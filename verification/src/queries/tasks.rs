//! Query builders for the tasks table: add, update, delete, and select.

use vstd::prelude::*;
use crate::model::{status_code, table_text, ItemStatus, Tables};
use crate::queries::{
    build_delete_statement, build_select_statement, build_update_statement, cond_view, delete_sql,
    insert_sql, opt_text_pair, pair_texts, resolved_order_by, resolved_order_dir, select_sql,
    status_action_texts, text_action_texts, u64_action_texts, update_sql, cols_text,
    push_status_action, push_text_action, push_u64_action, KeyValuePairs, OrderBy, OrderDir,
    QueryCols, RowLimit, SqlValue, UpdateAction,
};
use crate::text::{dec_digits, quoted_text, views_of};

verus! {

/// Database query for adding a new task. The insertion names only the
/// columns with present values, and records the given status as its
/// integer code.
pub struct AddTaskQuery {
    pub name: String,
    pub priority: u64,
    pub status: ItemStatus,
    pub start_time: Option<String>,
    pub end_time: Option<String>,
    pub repeat: Option<String>,
    pub notes: Option<String>,
}

/// The column/value pairs a task insertion names: the required columns,
/// then each optional column whose value is present.
pub open spec fn add_task_pairs(q: AddTaskQuery) -> Seq<(Seq<char>, Seq<char>)> {
    seq![
        ("name"@, quoted_text(q.name@)),
        ("priority"@, dec_digits(q.priority as nat)),
        ("status"@, dec_digits(status_code(q.status))),
    ] + opt_text_pair("start_time"@, q.start_time) + opt_text_pair("end_time"@, q.end_time)
        + opt_text_pair("repeat"@, q.repeat) + opt_text_pair("notes"@, q.notes)
}

/// The complete insertion text for a task.
pub open spec fn add_task_sql(q: AddTaskQuery) -> Seq<char> {
    insert_sql(table_text(Tables::Tasks), add_task_pairs(q))
}

impl AddTaskQuery {
    /// Holds the field values of the task to insert.
    pub fn new(
        name: String,
        priority: u64,
        status: ItemStatus,
        start_time: Option<String>,
        end_time: Option<String>,
        repeat: Option<String>,
        notes: Option<String>,
    ) -> (r: Self)
        ensures
            r == (AddTaskQuery { name, priority, status, start_time, end_time, repeat, notes }),
    {
        Self { name, priority, status, start_time, end_time, repeat, notes }
    }

    /// Creates the query string from struct data.
    pub fn build_query_string(&self) -> (r: String)
        ensures
            r@ == add_task_sql(*self),
    {
        let mut pairs = KeyValuePairs(Vec::new());
        pairs.0.push(("name".to_owned(), SqlValue::Text(self.name.clone())));
        pairs.0.push(("priority".to_owned(), SqlValue::Uint(self.priority)));
        pairs.0.push(("status".to_owned(), SqlValue::Uint(self.status.code())));
        let ghost base = pairs.0@;
        let start_time = self.start_time.clone();
        let end_time = self.end_time.clone();
        let repeat = self.repeat.clone();
        let notes = self.notes.clone();
        proof {
            assert(start_time == self.start_time);
            assert(end_time == self.end_time);
            assert(repeat == self.repeat);
            assert(notes == self.notes);
        }
        pairs.push_pairs_if_some("start_time", start_time);
        pairs.push_pairs_if_some("end_time", end_time);
        pairs.push_pairs_if_some("repeat", repeat);
        pairs.push_pairs_if_some("notes", notes);
        proof {
            assert(pair_texts(base) =~= seq![
                ("name"@, quoted_text(self.name@)),
                ("priority"@, dec_digits(self.priority as nat)),
                ("status"@, dec_digits(status_code(self.status))),
            ]);
            assert(pair_texts(pairs.0@) == add_task_pairs(*self));
        }
        pairs.insert_statement(Tables::Tasks)
    }
}

/// Data struct for updating task columns: one tri-state action per
/// updatable column.
pub struct UpdateTaskCols {
    /// Name of the task
    pub name: UpdateAction<String>,
    /// Priority value for task, higher is more important
    pub priority: UpdateAction<u64>,
    /// Completion status of task
    pub status: UpdateAction<ItemStatus>,
    /// Start time of the task in ISO 8601 format
    pub start_time: UpdateAction<String>,
    /// End time of the task in ISO 8601 format
    pub end_time: UpdateAction<String>,
    /// Determins whether and how the task repeats
    pub repeat: UpdateAction<String>,
    /// Notes for the task
    pub notes: UpdateAction<String>,
}

/// The assignment fragments of a task update, in column order, with every
/// untouched column filtered out.
pub open spec fn task_set_texts(c: UpdateTaskCols) -> Seq<Seq<char>> {
    text_action_texts("name"@, c.name) + u64_action_texts("priority"@, c.priority)
        + status_action_texts("status"@, c.status) + text_action_texts("start_time"@, c.start_time)
        + text_action_texts("end_time"@, c.end_time) + text_action_texts("repeat"@, c.repeat)
        + text_action_texts("notes"@, c.notes)
}

/// True when every action leaves its column untouched, so that no
/// well-formed update statement can be built.
pub open spec fn task_cols_all_untouched(c: UpdateTaskCols) -> bool {
    &&& c.name is Untouched
    &&& c.priority is Untouched
    &&& c.status is Untouched
    &&& c.start_time is Untouched
    &&& c.end_time is Untouched
    &&& c.repeat is Untouched
    &&& c.notes is Untouched
}

impl UpdateTaskCols {
    /// Create a new UpdateTaskCols.
    pub fn new(
        name: UpdateAction<String>,
        priority: UpdateAction<u64>,
        status: UpdateAction<ItemStatus>,
        start_time: UpdateAction<String>,
        end_time: UpdateAction<String>,
        repeat: UpdateAction<String>,
        notes: UpdateAction<String>,
    ) -> (r: Self)
        ensures
            r == (UpdateTaskCols { name, priority, status, start_time, end_time, repeat, notes }),
    {
        Self { name, priority, status, start_time, end_time, repeat, notes }
    }

    /// Create a new UpdateTaskCols for updating just the status column.
    pub fn status(status: ItemStatus) -> (r: Self)
        ensures
            r.status == UpdateAction::<ItemStatus>::Value(status),
            r.name is Untouched,
            r.priority is Untouched,
            r.start_time is Untouched,
            r.end_time is Untouched,
            r.repeat is Untouched,
            r.notes is Untouched,
    {
        Self {
            name: UpdateAction::Untouched,
            priority: UpdateAction::Untouched,
            status: UpdateAction::Value(status),
            start_time: UpdateAction::Untouched,
            end_time: UpdateAction::Untouched,
            repeat: UpdateAction::Untouched,
            notes: UpdateAction::Untouched,
        }
    }

    /// True if at least one column is written by this update.
    pub fn has_updates(&self) -> (r: bool)
        ensures
            r == !task_cols_all_untouched(*self),
    {
        !(self.name.is_untouched() && self.priority.is_untouched() && self.status.is_untouched()
            && self.start_time.is_untouched() && self.end_time.is_untouched()
            && self.repeat.is_untouched() && self.notes.is_untouched())
    }

    /// Renders the assignment fragments, filtering out every untouched
    /// column.
    pub fn set_fragments(&self) -> (r: Vec<String>)
        ensures
            views_of(r@) == task_set_texts(*self),
    {
        let mut list: Vec<String> = Vec::new();
        push_text_action(&mut list, "name", &self.name);
        push_u64_action(&mut list, "priority", &self.priority);
        push_status_action(&mut list, "status", &self.status);
        push_text_action(&mut list, "start_time", &self.start_time);
        push_text_action(&mut list, "end_time", &self.end_time);
        push_text_action(&mut list, "repeat", &self.repeat);
        push_text_action(&mut list, "notes", &self.notes);
        proof {
            assert(views_of(list@) =~= task_set_texts(*self));
        }
        list
    }
}

/// Database query struct for task update queries.
pub struct UpdateTaskQuery {
    pub update: UpdateTaskCols,
    pub condition: Option<String>,
}

/// The complete update text for the tasks table.
pub open spec fn update_task_sql(q: UpdateTaskQuery) -> Seq<char> {
    update_sql(table_text(Tables::Tasks), task_set_texts(q.update), cond_view(q.condition))
}

impl UpdateTaskQuery {
    /// Holds the actions and the optional condition of a task update.
    pub fn new(update: UpdateTaskCols, condition: Option<String>) -> (r: Self)
        ensures
            r == (UpdateTaskQuery { update, condition }),
    {
        UpdateTaskQuery { update, condition }
    }

    /// Creates the query string from struct data.
    pub fn build_query_string(&self) -> (r: String)
        ensures
            r@ == update_task_sql(*self),
    {
        let fragments = self.update.set_fragments();
        build_update_statement(Tables::Tasks, &fragments, &self.condition)
    }
}

/// Database query for deleting tasks; an absent condition deletes every
/// row of the table, an explicit and dangerous default.
pub struct DeleteTaskQuery {
    pub condition: Option<String>,
}

/// The complete deletion text for the tasks table.
pub open spec fn delete_task_sql(q: DeleteTaskQuery) -> Seq<char> {
    delete_sql(table_text(Tables::Tasks), cond_view(q.condition))
}

impl DeleteTaskQuery {
    /// Holds the optional condition naming the rows to delete.
    pub fn new(condition: Option<String>) -> (r: Self)
        ensures
            r == (DeleteTaskQuery { condition }),
    {
        Self { condition }
    }

    /// Creates the query string from struct data.
    pub fn build_query_string(&self) -> (r: String)
        ensures
            r@ == delete_task_sql(*self),
    {
        build_delete_statement(Tables::Tasks, &self.condition)
    }
}

/// Task select query struct.
pub struct SelectTasksQuery {
    pub cols: QueryCols,
    pub condition: Option<String>,
    pub order_by: Option<OrderBy>,
    pub order_dir: Option<OrderDir>,
    pub limit: Option<RowLimit>,
    pub offset: Option<usize>,
}

/// The order column a task selection resolves to: priority, unless the
/// caller chose otherwise.
pub open spec fn task_order_by(q: SelectTasksQuery) -> OrderBy {
    resolved_order_by(q.order_by, OrderBy::Priority)
}

/// The complete selection text for the tasks table, with ordering and
/// pagination fully resolved.
pub open spec fn select_tasks_sql(q: SelectTasksQuery) -> Seq<char> {
    select_sql(
        cols_text(q.cols),
        table_text(Tables::Tasks),
        cond_view(q.condition),
        task_order_by(q),
        resolved_order_dir(q.order_dir, task_order_by(q)),
        q.limit,
        q.offset,
    )
}

impl SelectTasksQuery {
    /// Holds the projection, scope, ordering and pagination of a task
    /// selection.
    pub fn new(
        cols: QueryCols,
        condition: Option<String>,
        order_by: Option<OrderBy>,
        order_dir: Option<OrderDir>,
        limit: Option<RowLimit>,
        offset: Option<usize>,
    ) -> (r: Self)
        ensures
            r == (SelectTasksQuery { cols, condition, order_by, order_dir, limit, offset }),
    {
        SelectTasksQuery { cols, condition, order_by, order_dir, limit, offset }
    }

    /// Creates the query string from struct data.
    pub fn build_query_string(&self) -> (r: String)
        ensures
            r@ == select_tasks_sql(*self),
    {
        build_select_statement(
            &self.cols,
            Tables::Tasks,
            OrderBy::Priority,
            &self.condition,
            &self.order_by,
            &self.order_dir,
            &self.limit,
            &self.offset,
        )
    }
}

} // verus!
