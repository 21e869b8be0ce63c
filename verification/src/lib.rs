//! Typed construction of SQL statement text for a small task/project tracker,
//! plus the data-access facade that executes the statements against SQLite.
//!
//! Every statement handed to the storage engine is built by a query value
//! whose rendering is specified exactly, character for character.

pub mod commands;
pub mod config;
pub mod db;
pub mod flags;
pub mod laws;
pub mod model;
pub mod parse;
pub mod queries;
pub mod server;
pub mod table;
pub mod text;

pub use model::{AddProjectArgs, AddTaskArgs, ItemStatus, Project, Tables, Task};
pub use queries::{
    AssignTaskQuery, KeyValuePairs, OrderBy, OrderDir, QueryCols, QueryConditions, RowLimit,
    SqlValue, UpdateAction,
};
pub use server::{ProjectRowData, Server, ServerError, TaskRowData, UpdateTaskArgs};
