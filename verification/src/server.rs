//! The application server: owns the single storage connection, renders
//! one statement per operation through the verified query builders, and
//! maps result rows back into entities.

use vstd::prelude::*;
use crate::db;
pub use crate::db::{ProjectRowData, TaskRowData};
use crate::model::{status_from_code, AddProjectArgs, AddTaskArgs, ItemStatus, Project, Tables, Task};
use crate::queries::projects::{
    AddProjectQuery, DeleteProjectQuery, SelectProjectsQuery, UpdateProjectQuery,
};
use crate::queries::tasks::{
    AddTaskQuery, DeleteTaskQuery, SelectTasksQuery, UpdateTaskCols, UpdateTaskQuery,
};
use crate::queries::{
    build_delete_statement, AssignTaskQuery, OrderBy, OrderDir, QueryCols, QueryConditions,
    RowLimit, SqlValue, UpdateAction,
};
use crate::text::int_text;

verus! {

/// A typed failure of a facade operation.
#[derive(Debug)]
pub enum ServerError {
    /// The store could not be opened or initialized; fatal to the
    /// process.
    Connection(rusqlite::Error),
    /// The store rejected a rendered statement: syntax, or a constraint
    /// violation such as a dangling foreign key.
    Statement(rusqlite::Error),
    /// An update was invoked with every action untouched; rejected here,
    /// before any statement with an empty assignment list could be
    /// built.
    Misuse,
}

impl ServerError {
    /// True for a failure to open or initialize the store.
    pub fn is_connection(&self) -> (r: bool)
        ensures
            r == (*self is Connection),
    {
        match self {
            ServerError::Connection(_) => true,
            _ => false,
        }
    }

    /// True for a statement the store rejected.
    pub fn is_statement(&self) -> (r: bool)
        ensures
            r == (*self is Statement),
    {
        match self {
            ServerError::Statement(_) => true,
            _ => false,
        }
    }

    /// True for an update invoked with nothing to write.
    pub fn is_misuse(&self) -> (r: bool)
        ensures
            r == (*self is Misuse),
    {
        match self {
            ServerError::Misuse => true,
            _ => false,
        }
    }

    /// A human-readable account of the failure.
    pub fn message(&self) -> (r: String)
        ensures
            *self is Misuse ==> r@ == "update has no values to set"@,
    {
        match self {
            ServerError::Connection(e) => db::rusqlite_error_text(e),
            ServerError::Statement(e) => db::rusqlite_error_text(e),
            ServerError::Misuse => "update has no values to set".to_owned(),
        }
    }
}

/// Arguments for updating a task in the database: one tri-state action
/// per updatable column.
pub struct UpdateTaskArgs {
    pub name: UpdateAction<String>,
    pub priority: UpdateAction<u64>,
    pub status: UpdateAction<ItemStatus>,
    pub start_time: UpdateAction<String>,
    pub end_time: UpdateAction<String>,
    pub repeat: UpdateAction<String>,
    pub notes: UpdateAction<String>,
}

/// True when a task update carries no write at all.
pub open spec fn task_args_all_untouched(a: UpdateTaskArgs) -> bool {
    &&& a.name is Untouched
    &&& a.priority is Untouched
    &&& a.status is Untouched
    &&& a.start_time is Untouched
    &&& a.end_time is Untouched
    &&& a.repeat is Untouched
    &&& a.notes is Untouched
}

impl UpdateTaskArgs {
    /// An update that writes only the status column.
    pub fn update_status(status: ItemStatus) -> (r: Self)
        ensures
            r.status == UpdateAction::<ItemStatus>::Value(status),
            r.name is Untouched,
            r.priority is Untouched,
            r.start_time is Untouched,
            r.end_time is Untouched,
            r.repeat is Untouched,
            r.notes is Untouched,
    {
        UpdateTaskArgs {
            name: UpdateAction::Untouched,
            priority: UpdateAction::Untouched,
            status: UpdateAction::Value(status),
            start_time: UpdateAction::Untouched,
            end_time: UpdateAction::Untouched,
            repeat: UpdateAction::Untouched,
            notes: UpdateAction::Untouched,
        }
    }
}

/// The row count a store reply clamps to: a negative reply clamps to
/// zero, and a reply beyond the machine's range saturates at the largest
/// representable count.
pub open spec fn clamped_count(c: int) -> int {
    if c <= 0 {
        0
    } else if c > usize::MAX as int {
        usize::MAX as int
    } else {
        c
    }
}

/// Clamps the store's reply to a count the machine can hold.
pub fn clamp_count(c: i64) -> (r: usize)
    ensures
        r as int == clamped_count(c as int),
{
    if c <= 0 {
        0
    } else if c as u64 > usize::MAX as u64 {
        usize::MAX
    } else {
        c as usize
    }
}

/// The condition scoping a deletion to the join rows matching both
/// identifiers exactly: the two equality fragments with an explicit AND
/// between them.
pub open spec fn unassign_cond_text(task_id: i64, project_id: i64) -> Seq<char> {
    "task_id"@ + " = "@ + int_text(task_id as int) + " AND "@ + "project_id"@ + " = "@ + int_text(
        project_id as int,
    )
}

/// Renders the condition naming one task-to-project assignment.
fn unassign_condition(task_id: i64, project_id: i64) -> (r: String)
    ensures
        r@ == unassign_cond_text(task_id, project_id),
{
    let task_cond = QueryConditions::Equal {
        col: "task_id".to_owned(),
        value: SqlValue::Int(task_id),
    };
    let project_cond = QueryConditions::Equal {
        col: "project_id".to_owned(),
        value: SqlValue::Int(project_id),
    };
    let mut r = task_cond.to_text();
    r.append(" AND ");
    r.append(project_cond.to_text().as_str());
    proof {
        assert(r@ =~= unassign_cond_text(task_id, project_id));
    }
    r
}

/// The task a raw result row maps to: every present column carried over,
/// the status decoded from its stored code, and the association list left
/// unpopulated.
pub open spec fn task_of_row(row: TaskRowData) -> Task {
    Task {
        id: row.id,
        name: row.name,
        priority: match row.priority {
            Option::Some(p) => if 0 <= p {
                Option::Some(p as u64)
            } else {
                Option::None
            },
            Option::None => Option::None,
        },
        status: match row.status {
            Option::Some(c) => Option::Some(status_from_code(c as int)),
            Option::None => Option::None,
        },
        start_time: row.start_time,
        end_time: row.end_time,
        repeat: row.repeat,
        notes: row.notes,
        projects: Option::None,
    }
}

/// Maps one raw result row into a task, leaving absent every field whose
/// column was not selected or failed to decode.
pub fn task_from_row(row: TaskRowData) -> (t: Task)
    ensures
        t == task_of_row(row),
{
    let status = match row.status {
        Option::Some(c) => Option::Some(ItemStatus::from_code(c)),
        Option::None => Option::None,
    };
    let priority = match row.priority {
        Option::Some(p) => if 0 <= p {
            Option::Some(p as u64)
        } else {
            Option::None
        },
        Option::None => Option::None,
    };
    Task {
        id: row.id,
        name: row.name,
        priority,
        status,
        start_time: row.start_time,
        end_time: row.end_time,
        repeat: row.repeat,
        notes: row.notes,
        projects: Option::None,
    }
}

/// The project a raw result row maps to.
pub open spec fn project_of_row(row: ProjectRowData) -> Project {
    Project {
        id: row.id,
        name: row.name,
        start_time: row.start_time,
        end_time: row.end_time,
        notes: row.notes,
        tasks: Option::None,
    }
}

/// Maps one raw result row into a project.
pub fn project_from_row(row: ProjectRowData) -> (p: Project)
    ensures
        p == project_of_row(row),
{
    Project {
        id: row.id,
        name: row.name,
        start_time: row.start_time,
        end_time: row.end_time,
        notes: row.notes,
        tasks: Option::None,
    }
}

/// Maps every raw task row, in order.
pub fn tasks_from_rows(rows: Vec<TaskRowData>) -> (ts: Vec<Task>)
    ensures
        ts@.len() == rows@.len(),
        forall|i: int| 0 <= i < rows@.len() ==> #[trigger] ts@[i] == task_of_row(rows@[i]),
{
    let ghost all = rows@;
    let mut ts: Vec<Task> = Vec::new();
    let mut rest = rows;
    while rest.len() > 0
        invariant
            ts@.len() + rest@.len() == all.len(),
            rest@ == all.subrange(ts@.len() as int, all.len() as int),
            forall|i: int| 0 <= i < ts@.len() ==> #[trigger] ts@[i] == task_of_row(all[i]),
        decreases rest@.len(),
    {
        let row = rest.remove(0);
        proof {
            assert(row == all[ts@.len() as int]);
            assert(rest@ =~= all.subrange(ts@.len() as int + 1, all.len() as int));
        }
        ts.push(task_from_row(row));
    }
    ts
}

/// Maps every raw project row, in order.
pub fn projects_from_rows(rows: Vec<ProjectRowData>) -> (ps: Vec<Project>)
    ensures
        ps@.len() == rows@.len(),
        forall|i: int| 0 <= i < rows@.len() ==> #[trigger] ps@[i] == project_of_row(rows@[i]),
{
    let ghost all = rows@;
    let mut ps: Vec<Project> = Vec::new();
    let mut rest = rows;
    while rest.len() > 0
        invariant
            ps@.len() + rest@.len() == all.len(),
            rest@ == all.subrange(ps@.len() as int, all.len() as int),
            forall|i: int| 0 <= i < ps@.len() ==> #[trigger] ps@[i] == project_of_row(all[i]),
        decreases rest@.len(),
    {
        let row = rest.remove(0);
        proof {
            assert(row == all[ps@.len() as int]);
            assert(rest@ =~= all.subrange(ps@.len() as int + 1, all.len() as int));
        }
        ps.push(project_from_row(row));
    }
    ps
}

/// Toado application server: the single owner of the storage connection.
pub struct Server {
    /// SQLite database connection
    connection: rusqlite::Connection,
}

impl Server {
    /// Opens a new toado app server with an sqlite database file.
    /// If the sqlite file does not exist, one is created at the path.
    pub fn open(path: &str) -> (r: Result<Server, ServerError>)
        ensures
            r matches Err(e) ==> e is Connection,
    {
        match db::open_connection(path) {
            Ok(connection) => Ok(Server { connection }),
            Err(e) => Err(ServerError::Connection(e)),
        }
    }

    /// Initializes the application server by creating the three database
    /// tables, idempotently, inside one transaction, with foreign-key
    /// enforcement switched on.
    pub fn init(&self) -> (r: Result<(), ServerError>)
        ensures
            r matches Err(e) ==> e is Connection,
    {
        match db::execute_statement(&self.connection, "PRAGMA foreign_keys = ON") {
            Ok(_) => {}
            Err(e) => {
                return Err(ServerError::Connection(e));
            }
        }
        let schema = "BEGIN;
            PRAGMA foreign_keys = ON;
            CREATE TABLE IF NOT EXISTS tasks(
                id INTEGER PRIMARY KEY AUTOINCREMENT NOT NULL,
                name TEXT NOT NULL,
                priority INTEGER NOT NULL,
                status INTEGER NOT NULL,
                start_time TEXT,
                end_time TEXT,
                repeat TEXT,
                notes TEXT
            );
            CREATE TABLE IF NOT EXISTS projects(
                id INTEGER PRIMARY KEY AUTOINCREMENT NOT NULL,
                name TEXT NOT NULL,
                start_time TEXT,
                end_time TEXT,
                notes TEXT
            );
            CREATE TABLE IF NOT EXISTS task_assignments(
                id INTEGER PRIMARY KEY AUTOINCREMENT NOT NULL,
                task_id INTEGER NOT NULL,
                project_id INTEGER NOT NULL,
                FOREIGN KEY (task_id) REFERENCES tasks(id) ON DELETE CASCADE,
                FOREIGN KEY (project_id) REFERENCES projects(id) ON DELETE CASCADE
            );
            COMMIT;";
        match db::execute_batch(&self.connection, schema) {
            Ok(_) => Ok(()),
            Err(e) => Err(ServerError::Connection(e)),
        }
    }

    /// Add a new task to the database, recording every given field value,
    /// the status as its integer code. Returns the store-generated id of
    /// the added task.
    pub fn add_task(&self, args: AddTaskArgs) -> (r: Result<i64, ServerError>)
        ensures
            r matches Err(e) ==> e is Statement,
    {
        let query = AddTaskQuery::new(
            args.name,
            args.priority,
            args.status,
            args.start_time,
            args.end_time,
            args.repeat,
            args.notes,
        );
        let sql = query.build_query_string();
        match db::execute_statement(&self.connection, sql.as_str()) {
            Ok(_) => Ok(db::last_insert_rowid(&self.connection)),
            Err(e) => Err(ServerError::Statement(e)),
        }
    }

    /// Delete tasks from the database: all tasks matching the condition
    /// if one is given, every task otherwise. Returns the number of rows
    /// deleted.
    pub fn delete_task(&self, condition: Option<String>) -> (r: Result<u64, ServerError>)
        ensures
            r matches Err(e) ==> e is Statement,
    {
        let query = DeleteTaskQuery::new(condition);
        let sql = query.build_query_string();
        match db::execute_statement(&self.connection, sql.as_str()) {
            Ok(_) => Ok(db::changes(&self.connection)),
            Err(e) => Err(ServerError::Statement(e)),
        }
    }

    /// Update the tasks matching the condition, or every task if no
    /// condition is given. An update in which every action is untouched
    /// is rejected here, before any statement is built. Returns the
    /// number of rows the store reports as changed.
    pub fn update_task(&self, condition: Option<String>, args: UpdateTaskArgs) -> (r: Result<
        u64,
        ServerError,
    >)
        ensures
            task_args_all_untouched(args) <==> (r matches Err(e) && e is Misuse),
            r matches Err(e) ==> (e is Misuse || e is Statement),
    {
        let cols = UpdateTaskCols::new(
            args.name,
            args.priority,
            args.status,
            args.start_time,
            args.end_time,
            args.repeat,
            args.notes,
        );
        if !cols.has_updates() {
            return Err(ServerError::Misuse);
        }
        let query = UpdateTaskQuery::new(cols, condition);
        let sql = query.build_query_string();
        match db::execute_statement(&self.connection, sql.as_str()) {
            Ok(_) => Ok(db::changes(&self.connection)),
            Err(e) => Err(ServerError::Statement(e)),
        }
    }

    /// Select tasks, with the projection, scope, ordering and pagination
    /// of the query resolved by the select builder. No returned task has
    /// its association list populated, and no absent field is ever given
    /// a fabricated value.
    pub fn select_tasks(
        &self,
        cols: QueryCols,
        condition: Option<String>,
        order_by: Option<OrderBy>,
        order_dir: Option<OrderDir>,
        limit: Option<RowLimit>,
        offset: Option<usize>,
    ) -> (r: Result<Vec<Task>, ServerError>)
        ensures
            r matches Err(e) ==> e is Statement,
            r matches Ok(ts) ==> forall|i: int|
                0 <= i < ts@.len() ==> (#[trigger] ts@[i]).projects is None,
    {
        let query = SelectTasksQuery::new(cols, condition, order_by, order_dir, limit, offset);
        let sql = query.build_query_string();
        match db::fetch_task_rows(&self.connection, sql.as_str()) {
            Ok(rows) => Ok(tasks_from_rows(rows)),
            Err(e) => Err(ServerError::Statement(e)),
        }
    }

    /// Adds a new project to the application database. Returns the
    /// store-generated id of the added project.
    pub fn add_project(&self, args: AddProjectArgs) -> (r: Result<i64, ServerError>)
        ensures
            r matches Err(e) ==> e is Statement,
    {
        let query = AddProjectQuery::new(args.name, args.start_time, args.end_time, args.notes);
        let sql = query.build_query_string();
        match db::execute_statement(&self.connection, sql.as_str()) {
            Ok(_) => Ok(db::last_insert_rowid(&self.connection)),
            Err(e) => Err(ServerError::Statement(e)),
        }
    }

    /// Update the projects matching the condition, or every project if
    /// no condition is given, under the same empty-update rejection as
    /// task updates. Returns the number of rows changed.
    pub fn update_project(
        &self,
        condition: Option<String>,
        name: UpdateAction<String>,
        start_time: UpdateAction<String>,
        end_time: UpdateAction<String>,
        notes: UpdateAction<String>,
    ) -> (r: Result<u64, ServerError>)
        ensures
            (name is Untouched && start_time is Untouched && end_time is Untouched
                && notes is Untouched) <==> (r matches Err(e) && e is Misuse),
            r matches Err(e) ==> (e is Misuse || e is Statement),
    {
        let query = UpdateProjectQuery::new(condition, name, start_time, end_time, notes);
        if !query.has_updates() {
            return Err(ServerError::Misuse);
        }
        let sql = query.build_query_string();
        match db::execute_statement(&self.connection, sql.as_str()) {
            Ok(_) => Ok(db::changes(&self.connection)),
            Err(e) => Err(ServerError::Statement(e)),
        }
    }

    /// Deletes the projects matching the condition, or every project if
    /// no condition is given. Returns the number of rows deleted.
    pub fn delete_project(&self, condition: Option<String>) -> (r: Result<u64, ServerError>)
        ensures
            r matches Err(e) ==> e is Statement,
    {
        let query = DeleteProjectQuery::new(condition);
        let sql = query.build_query_string();
        match db::execute_statement(&self.connection, sql.as_str()) {
            Ok(_) => Ok(db::changes(&self.connection)),
            Err(e) => Err(ServerError::Statement(e)),
        }
    }

    /// Selects projects from the application database, under the same
    /// rules as task selection.
    pub fn select_project(
        &self,
        cols: QueryCols,
        condition: Option<String>,
        order_by: Option<OrderBy>,
        order_dir: Option<OrderDir>,
        limit: Option<RowLimit>,
        offset: Option<usize>,
    ) -> (r: Result<Vec<Project>, ServerError>)
        ensures
            r matches Err(e) ==> e is Statement,
            r matches Ok(ps) ==> forall|i: int|
                0 <= i < ps@.len() ==> (#[trigger] ps@[i]).tasks is None,
    {
        let query = SelectProjectsQuery::new(cols, condition, order_by, order_dir, limit, offset);
        let sql = query.build_query_string();
        match db::fetch_project_rows(&self.connection, sql.as_str()) {
            Ok(rows) => Ok(projects_from_rows(rows)),
            Err(e) => Err(ServerError::Statement(e)),
        }
    }

    /// Returns the total number of rows in a given table.
    pub fn get_table_row_count(&self, table: Tables) -> (r: Result<usize, ServerError>)
        ensures
            r matches Err(e) ==> e is Statement,
    {
        let mut sql = "SELECT COUNT(*) FROM ".to_owned();
        sql.append(table.text());
        match db::query_count(&self.connection, sql.as_str()) {
            Ok(count) => Ok(clamp_count(count)),
            Err(e) => Err(ServerError::Statement(e)),
        }
    }

    /// Inserts one join row recording that the task is assigned to the
    /// project. No uniqueness is enforced: assigning the same pair twice
    /// records two identical join rows. Returns the join row's id.
    pub fn assign_task(&self, task_id: i64, project_id: i64) -> (r: Result<i64, ServerError>)
        ensures
            r matches Err(e) ==> e is Statement,
    {
        let query = AssignTaskQuery::new(task_id, project_id);
        let sql = query.build_query_string();
        match db::execute_statement(&self.connection, sql.as_str()) {
            Ok(_) => Ok(db::last_insert_rowid(&self.connection)),
            Err(e) => Err(ServerError::Statement(e)),
        }
    }

    /// Deletes every join row matching both identifiers exactly.
    /// Returns the number of rows deleted.
    pub fn unassign_task(&self, task_id: i64, project_id: i64) -> (r: Result<u64, ServerError>)
        ensures
            r matches Err(e) ==> e is Statement,
    {
        let condition = unassign_condition(task_id, project_id);
        let sql = build_delete_statement(Tables::TaskAssignments, &Some(condition));
        match db::execute_statement(&self.connection, sql.as_str()) {
            Ok(_) => Ok(db::changes(&self.connection)),
            Err(e) => Err(ServerError::Statement(e)),
        }
    }

    /// Applies one assignment per identifier pair, stopping at the first
    /// failure.
    pub fn batch_assign_tasks(&self, pairs: Vec<(i64, i64)>) -> (r: Result<(), ServerError>)
        ensures
            r matches Err(e) ==> e is Statement,
    {
        let mut i: usize = 0;
        while i < pairs.len()
            decreases pairs@.len() - i,
        {
            match self.assign_task(pairs[i].0, pairs[i].1) {
                Ok(_) => {}
                Err(e) => {
                    return Err(e);
                }
            }
            i += 1;
        }
        Ok(())
    }

    /// Applies one unassignment per identifier pair, stopping at the
    /// first failure.
    pub fn batch_unassign_tasks(&self, pairs: Vec<(i64, i64)>) -> (r: Result<(), ServerError>)
        ensures
            r matches Err(e) ==> e is Statement,
    {
        let mut i: usize = 0;
        while i < pairs.len()
            decreases pairs@.len() - i,
        {
            match self.unassign_task(pairs[i].0, pairs[i].1) {
                Ok(_) => {}
                Err(e) => {
                    return Err(e);
                }
            }
            i += 1;
        }
        Ok(())
    }
}

} // verus!
