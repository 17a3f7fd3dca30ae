//! A personal task and project tracker: the slash-metadata parser, the task
//! and project model, the command dispatcher of the interactive prompt and the
//! tree renderer.

pub mod cli;
pub mod commands;
pub mod decimal;
pub mod due_date;
pub mod metadata;
pub mod project;
pub mod record;
pub mod rejoin;
pub mod repl;
pub mod session;
pub mod task;
pub mod text;
pub mod tree;
