//! Task tracking core: the data model of tasks, the rules that turn command
//! line arguments into task fields, the name caches for tags, goals and due
//! shorthands, and the messages that the assembler turns into table updates.

pub mod assemble;
pub mod cache;
pub mod cli;
pub mod dispatch;
pub mod errors;
pub mod helpers;
pub mod laws;
pub mod models;
pub mod new_task;
pub mod time;
