//! Argument bundles of the command surface, as plain data. The outer
//! command layer parses the command line into these and hands them in.

use vstd::prelude::*;
use crate::queries::OrderBy;

verus! {

/// Arguments of the search command.
pub struct SearchArgs {
    /// Search term for item
    pub term: String,
    /// Search for tasks (default behaviour)
    pub task: bool,
    /// Search for projects
    pub project: bool,
    /// List all item information
    pub verbose: bool,
}

/// Arguments of the add command.
pub struct AddArgs {
    /// Add new task (default behaviour)
    pub task: bool,
    /// Add new project
    pub project: bool,
    /// Name of item
    pub name: Option<String>,
    /// Priority of item
    pub item_priority: Option<u64>,
    /// Start time of item
    pub start_time: Option<String>,
    /// End time of item
    pub end_time: Option<String>,
    /// Notes to add to item
    pub notes: Option<String>,
    /// Repetition of item (tasks only)
    pub repeat: Option<String>,
    /// Skip optional fields
    pub optional: bool,
}

/// Arguments of the delete command.
pub struct DeleteArgs {
    /// Search term for item to delete
    pub term: Option<String>,
    /// Delete task (default behaviour)
    pub task: bool,
    /// Delete project
    pub project: bool,
}

/// Arguments of the update command.
pub struct UpdateArgs {
    /// Search term for item to update
    pub term: Option<String>,
    /// Update task (default behaviour)
    pub task: bool,
    /// Update project
    pub project: bool,
    /// Update Name of item
    pub name: Option<String>,
    /// Update Priority of item
    pub item_priority: Option<u64>,
    /// Update Start time of item
    pub start_time: Option<NullableString>,
    /// Update End time of item
    pub end_time: Option<NullableString>,
    /// Update item notes
    pub notes: Option<NullableString>,
    /// Update Repetition of item (tasks only)
    pub repeat: Option<NullableString>,
}

impl UpdateArgs {
    /// Returns true if any update value arguments are set for task
    /// values.
    pub fn has_task_update_values(&self) -> (r: bool)
        ensures
            r == (self.name is Some || self.item_priority is Some || self.start_time is Some
                || self.end_time is Some || self.notes is Some || self.repeat is Some),
    {
        self.name.is_some() || self.item_priority.is_some() || self.start_time.is_some()
            || self.end_time.is_some() || self.notes.is_some() || self.repeat.is_some()
    }

    /// Returns true if any update value arguments are set for project
    /// values.
    pub fn has_project_update_values(&self) -> (r: bool)
        ensures
            r == (self.name is Some || self.item_priority is Some || self.start_time is Some
                || self.end_time is Some || self.notes is Some),
    {
        self.name.is_some() || self.item_priority.is_some() || self.start_time.is_some()
            || self.end_time.is_some() || self.notes.is_some()
    }
}

/// Arguments of the list command.
pub struct ListArgs {
    /// List item order
    pub order_by: Option<OrderBy>,
    /// List tasks (default behaviour)
    pub task: bool,
    /// List projects
    pub project: bool,
    /// List all item information
    pub verbose: bool,
    /// List in ascending order
    pub asc: bool,
    /// List in descending order
    pub desc: bool,
    /// Limit the number of items listed
    pub limit: Option<usize>,
    /// Offset start of list
    pub offset: Option<usize>,
    /// List all items
    pub full: bool,
}

/// Arguments of the check command.
pub struct CheckArgs {
    /// Search term for item to check
    pub term: Option<String>,
    /// Mark task as incomplete
    pub incomplete: bool,
}

/// Arguments of the assign command.
pub struct AssignArgs {
    /// Search term for the task, given positionally
    pub task: Option<String>,
    /// Search term for the task, given by flag
    pub task_term: Option<String>,
    /// Search term for the project, given positionally
    pub project: Option<String>,
    /// Search term for the project, given by flag
    pub project_term: Option<String>,
    /// Remove the assignment instead of creating it
    pub unassign: bool,
    /// Skip interactive selection
    pub no_select: bool,
}

/// CLI argument for a string value or Null.
pub enum NullableString {
    Text(String),
    Null,
}

} // verus!
