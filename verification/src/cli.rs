//! The task commands, as the argument parser hands them over.

use vstd::prelude::*;

verus! {

/// A command line: at most one task command.
#[derive(Clone, Debug, PartialEq, Eq)]
pub struct Cli {
    pub cmd: Option<Commands>,
}

/// A task command.
#[derive(Clone, Debug, PartialEq, Eq)]
pub enum Commands {
    /// Add a task. `text` is a line of slash metadata; without it the task is
    /// written in the editor.
    Add { parent: Option<u32>, text: Option<String> },
    /// List the tasks as a tree.
    List,
    /// Edit the task `id`. `text` is a line of slash metadata; without it the
    /// task is changed in the editor.
    Edit { id: u32, text: Option<String> },
    /// Remove the task `id`.
    Remove { id: u32 },
    /// Mark the task `id` as done.
    Done { id: u32 },
}

/// The mathematical value of a [`Commands`].
pub enum CommandsView {
    Add { parent: Option<u32>, text: Option<Seq<char>> },
    List,
    Edit { id: u32, text: Option<Seq<char>> },
    Remove { id: u32 },
    Done { id: u32 },
}

impl View for Commands {
    type V = CommandsView;

    open spec fn view(&self) -> CommandsView {
        match self {
            Commands::Add { parent, text } => CommandsView::Add {
                parent: *parent,
                text: text.deep_view(),
            },
            Commands::List => CommandsView::List,
            Commands::Edit { id, text } => CommandsView::Edit { id: *id, text: text.deep_view() },
            Commands::Remove { id } => CommandsView::Remove { id: *id },
            Commands::Done { id } => CommandsView::Done { id: *id },
        }
    }
}

} // verus!
