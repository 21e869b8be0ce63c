//! Entity model: tables, statuses, tasks, projects, and the argument
//! bundles that the facade operations take.

use vstd::prelude::*;

verus! {

/// The three tables of the fixed schema.
#[derive(Clone, Copy, PartialEq, Eq, Structural, Debug)]
pub enum Tables {
    /// "tasks"
    Tasks,
    /// "projects"
    Projects,
    /// "task_assignments"
    TaskAssignments,
}

/// The literal name of a table.
pub open spec fn table_text(t: Tables) -> Seq<char> {
    match t {
        Tables::Tasks => "tasks"@,
        Tables::Projects => "projects"@,
        Tables::TaskAssignments => "task_assignments"@,
    }
}

impl Tables {
    /// The table's name as it appears in statement text.
    pub fn text(&self) -> (r: &'static str)
        ensures
            r@ == table_text(*self),
    {
        match self {
            Tables::Tasks => "tasks",
            Tables::Projects => "projects",
            Tables::TaskAssignments => "task_assignments",
        }
    }
}

/// Status of an item (ie. task or project), persisted as a small integer
/// code.
#[derive(Clone, Copy, PartialEq, Eq, Structural, Debug)]
pub enum ItemStatus {
    Incomplete,
    Complete,
    Archived,
}

/// The integer code under which a status is stored.
pub open spec fn status_code(s: ItemStatus) -> nat {
    match s {
        ItemStatus::Incomplete => 0,
        ItemStatus::Complete => 1,
        ItemStatus::Archived => 2,
    }
}

/// The status a stored code decodes to: any unrecognized code falls back
/// to `Archived`, a defined policy of this layer.
pub open spec fn status_from_code(c: int) -> ItemStatus {
    if c == 0 {
        ItemStatus::Incomplete
    } else if c == 1 {
        ItemStatus::Complete
    } else {
        ItemStatus::Archived
    }
}

/// The lower-case name of a status, for display by outer layers.
pub open spec fn status_text(s: ItemStatus) -> Seq<char> {
    match s {
        ItemStatus::Incomplete => "incomplete"@,
        ItemStatus::Complete => "complete"@,
        ItemStatus::Archived => "archived"@,
    }
}

impl ItemStatus {
    /// The integer code under which this status is stored.
    pub fn code(&self) -> (r: u64)
        ensures
            r as nat == status_code(*self),
    {
        match self {
            ItemStatus::Incomplete => 0,
            ItemStatus::Complete => 1,
            ItemStatus::Archived => 2,
        }
    }

    /// Decodes a stored status code, falling back to `Archived` for any
    /// unrecognized value.
    pub fn from_code(c: i64) -> (r: ItemStatus)
        ensures
            r == status_from_code(c as int),
    {
        if c == 0 {
            ItemStatus::Incomplete
        } else if c == 1 {
            ItemStatus::Complete
        } else {
            ItemStatus::Archived
        }
    }

    /// The status's lower-case name.
    pub fn name(&self) -> (r: &'static str)
        ensures
            r@ == status_text(*self),
    {
        match self {
            ItemStatus::Incomplete => "incomplete",
            ItemStatus::Complete => "complete",
            ItemStatus::Archived => "archived",
        }
    }
}

/// Task row data. Every field besides the identifier may be absent solely
/// because it was not requested by the projection; this layer never
/// fabricates a value for an unselected column.
#[derive(Debug)]
pub struct Task {
    pub id: Option<i64>,
    /// Name of the task
    pub name: Option<String>,
    /// Priority value for task, higher is more important
    pub priority: Option<u64>,
    /// Completion status of task
    pub status: Option<ItemStatus>,
    /// Start time of the task in ISO 8601 format
    pub start_time: Option<String>,
    /// End time of the task in ISO 8601 format
    pub end_time: Option<String>,
    /// Determins whether and how the task repeats
    pub repeat: Option<String>,
    /// Notes for the task
    pub notes: Option<String>,
    /// List of projects the task is associate with
    pub projects: Option<Vec<Project>>,
}

/// Project row data, under the same absent-means-not-projected rule.
#[derive(Debug)]
pub struct Project {
    /// Id of project
    pub id: Option<i64>,
    /// Name of project
    pub name: Option<String>,
    /// Start time of the project in ISO 8601 format
    pub start_time: Option<String>,
    /// End time of the project in ISO 8601 format
    pub end_time: Option<String>,
    /// Notes for the project
    pub notes: Option<String>,
    /// Tasks assigned to the project
    pub tasks: Option<Vec<Task>>,
}

/// Arguments for adding a task to the database.
pub struct AddTaskArgs {
    pub name: String,
    pub priority: u64,
    pub status: ItemStatus,
    pub start_time: Option<String>,
    pub end_time: Option<String>,
    pub repeat: Option<String>,
    pub notes: Option<String>,
}

/// Arguments for adding a project to the database.
pub struct AddProjectArgs {
    pub name: String,
    pub start_time: Option<String>,
    pub end_time: Option<String>,
    pub notes: Option<String>,
}

} // verus!
