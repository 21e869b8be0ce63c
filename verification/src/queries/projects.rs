//! Query builders for the projects table: add, update, delete, and
//! select.

use vstd::prelude::*;
use crate::model::{table_text, Tables};
use crate::queries::{
    build_delete_statement, build_select_statement, build_update_statement, cols_text, cond_view,
    delete_sql, insert_sql, opt_text_pair, pair_texts, push_text_action, resolved_order_by,
    resolved_order_dir, select_sql, text_action_texts, update_sql, KeyValuePairs, OrderBy,
    OrderDir, QueryCols, RowLimit, SqlValue, UpdateAction,
};
use crate::text::{quoted_text, views_of};

verus! {

/// Database query for adding a new project. The insertion names only the
/// columns with present values.
pub struct AddProjectQuery {
    pub name: String,
    pub start_time: Option<String>,
    pub end_time: Option<String>,
    pub notes: Option<String>,
}

/// The column/value pairs a project insertion names.
pub open spec fn add_project_pairs(q: AddProjectQuery) -> Seq<(Seq<char>, Seq<char>)> {
    seq![("name"@, quoted_text(q.name@))] + opt_text_pair("start_time"@, q.start_time)
        + opt_text_pair("end_time"@, q.end_time) + opt_text_pair("notes"@, q.notes)
}

/// The complete insertion text for a project.
pub open spec fn add_project_sql(q: AddProjectQuery) -> Seq<char> {
    insert_sql(table_text(Tables::Projects), add_project_pairs(q))
}

impl AddProjectQuery {
    /// Holds the field values of the project to insert.
    pub fn new(
        name: String,
        start_time: Option<String>,
        end_time: Option<String>,
        notes: Option<String>,
    ) -> (r: Self)
        ensures
            r == (AddProjectQuery { name, start_time, end_time, notes }),
    {
        Self { name, start_time, end_time, notes }
    }

    /// Creates the query string from struct data.
    pub fn build_query_string(&self) -> (r: String)
        ensures
            r@ == add_project_sql(*self),
    {
        let mut pairs = KeyValuePairs(Vec::new());
        pairs.0.push(("name".to_owned(), SqlValue::Text(self.name.clone())));
        let ghost base = pairs.0@;
        let start_time = self.start_time.clone();
        let end_time = self.end_time.clone();
        let notes = self.notes.clone();
        proof {
            assert(start_time == self.start_time);
            assert(end_time == self.end_time);
            assert(notes == self.notes);
        }
        pairs.push_pairs_if_some("start_time", start_time);
        pairs.push_pairs_if_some("end_time", end_time);
        pairs.push_pairs_if_some("notes", notes);
        proof {
            assert(pair_texts(base) =~= seq![("name"@, quoted_text(self.name@))]);
            assert(pair_texts(pairs.0@) == add_project_pairs(*self));
        }
        pairs.insert_statement(Tables::Projects)
    }
}

/// Database query struct for project update queries: one tri-state action
/// per updatable column, and an optional condition.
pub struct UpdateProjectQuery {
    pub name: UpdateAction<String>,
    pub start_time: UpdateAction<String>,
    pub end_time: UpdateAction<String>,
    pub notes: UpdateAction<String>,
    pub condition: Option<String>,
}

/// The assignment fragments of a project update, in column order, with
/// every untouched column filtered out.
pub open spec fn project_set_texts(q: UpdateProjectQuery) -> Seq<Seq<char>> {
    text_action_texts("name"@, q.name) + text_action_texts("start_time"@, q.start_time)
        + text_action_texts("end_time"@, q.end_time) + text_action_texts("notes"@, q.notes)
}

/// True when every action leaves its column untouched, so that no
/// well-formed update statement can be built.
pub open spec fn project_cols_all_untouched(q: UpdateProjectQuery) -> bool {
    &&& q.name is Untouched
    &&& q.start_time is Untouched
    &&& q.end_time is Untouched
    &&& q.notes is Untouched
}

/// The complete update text for the projects table.
pub open spec fn update_project_sql(q: UpdateProjectQuery) -> Seq<char> {
    update_sql(table_text(Tables::Projects), project_set_texts(q), cond_view(q.condition))
}

impl UpdateProjectQuery {
    /// Holds the actions and the optional condition of a project update.
    pub fn new(
        condition: Option<String>,
        name: UpdateAction<String>,
        start_time: UpdateAction<String>,
        end_time: UpdateAction<String>,
        notes: UpdateAction<String>,
    ) -> (r: Self)
        ensures
            r == (UpdateProjectQuery { name, start_time, end_time, notes, condition }),
    {
        Self { name, start_time, end_time, notes, condition }
    }

    /// True if at least one column is written by this update.
    pub fn has_updates(&self) -> (r: bool)
        ensures
            r == !project_cols_all_untouched(*self),
    {
        !(self.name.is_untouched() && self.start_time.is_untouched()
            && self.end_time.is_untouched() && self.notes.is_untouched())
    }

    /// Creates the query string from struct data.
    pub fn build_query_string(&self) -> (r: String)
        ensures
            r@ == update_project_sql(*self),
    {
        let mut list: Vec<String> = Vec::new();
        push_text_action(&mut list, "name", &self.name);
        push_text_action(&mut list, "start_time", &self.start_time);
        push_text_action(&mut list, "end_time", &self.end_time);
        push_text_action(&mut list, "notes", &self.notes);
        proof {
            assert(views_of(list@) =~= project_set_texts(*self));
        }
        build_update_statement(Tables::Projects, &list, &self.condition)
    }
}

/// Database query for deleting projects; an absent condition deletes
/// every row of the table, an explicit and dangerous default.
pub struct DeleteProjectQuery {
    pub condition: Option<String>,
}

/// The complete deletion text for the projects table.
pub open spec fn delete_project_sql(q: DeleteProjectQuery) -> Seq<char> {
    delete_sql(table_text(Tables::Projects), cond_view(q.condition))
}

impl DeleteProjectQuery {
    /// Holds the optional condition naming the rows to delete.
    pub fn new(condition: Option<String>) -> (r: Self)
        ensures
            r == (DeleteProjectQuery { condition }),
    {
        Self { condition }
    }

    /// Creates the query string from struct data.
    pub fn build_query_string(&self) -> (r: String)
        ensures
            r@ == delete_project_sql(*self),
    {
        build_delete_statement(Tables::Projects, &self.condition)
    }
}

/// Project select query struct.
pub struct SelectProjectsQuery {
    pub cols: QueryCols,
    pub condition: Option<String>,
    pub order_by: Option<OrderBy>,
    pub order_dir: Option<OrderDir>,
    pub limit: Option<RowLimit>,
    pub offset: Option<usize>,
}

/// The order column a project selection resolves to: name, unless the
/// caller chose otherwise.
pub open spec fn project_order_by(q: SelectProjectsQuery) -> OrderBy {
    resolved_order_by(q.order_by, OrderBy::Name)
}

/// The complete selection text for the projects table, with ordering and
/// pagination fully resolved.
pub open spec fn select_projects_sql(q: SelectProjectsQuery) -> Seq<char> {
    select_sql(
        cols_text(q.cols),
        table_text(Tables::Projects),
        cond_view(q.condition),
        project_order_by(q),
        resolved_order_dir(q.order_dir, project_order_by(q)),
        q.limit,
        q.offset,
    )
}

impl SelectProjectsQuery {
    /// Holds the projection, scope, ordering and pagination of a project
    /// selection.
    pub fn new(
        cols: QueryCols,
        condition: Option<String>,
        order_by: Option<OrderBy>,
        order_dir: Option<OrderDir>,
        limit: Option<RowLimit>,
        offset: Option<usize>,
    ) -> (r: Self)
        ensures
            r == (SelectProjectsQuery { cols, condition, order_by, order_dir, limit, offset }),
    {
        Self { cols, condition, order_by, order_dir, limit, offset }
    }

    /// Creates the query string from struct data.
    pub fn build_query_string(&self) -> (r: String)
        ensures
            r@ == select_projects_sql(*self),
    {
        build_select_statement(
            &self.cols,
            Tables::Projects,
            OrderBy::Name,
            &self.condition,
            &self.order_by,
            &self.order_dir,
            &self.limit,
            &self.offset,
        )
    }
}

} // verus!
