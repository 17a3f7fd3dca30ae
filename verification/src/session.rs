//! A session at the prompt: what happens after each attempt to read a line,
//! and what is shown when the session begins and ends.

use crate::repl::{
    handle_repl_command, repl_action, repl_context, ReplAction, ReplActionView, ReplContext,
    ReplContextView,
};
use crate::text::{chars_of, prefixed, push_line, string_of, trim, trimmed};
use vstd::prelude::*;

verus! {

/// What came of an attempt to read a line.
#[derive(Clone, Debug)]
pub enum ReplEvent {
    /// The user entered this line.
    Line(String),
    /// The user interrupted the prompt.
    Interrupted,
    /// The input has ended.
    Eof,
    /// The reader failed; the text describes how.
    Failed(String),
}

/// The mathematical value of a [`ReplEvent`].
pub enum ReplEventView {
    Line(Seq<char>),
    Interrupted,
    Eof,
    Failed(Seq<char>),
}

impl View for ReplEvent {
    type V = ReplEventView;

    open spec fn view(&self) -> ReplEventView {
        match self {
            ReplEvent::Line(line) => ReplEventView::Line(line@),
            ReplEvent::Interrupted => ReplEventView::Interrupted,
            ReplEvent::Eof => ReplEventView::Eof,
            ReplEvent::Failed(text) => ReplEventView::Failed(text@),
        }
    }
}

/// Why a session ended.
#[derive(Clone, Copy, Debug, PartialEq, Eq, Structural)]
pub enum ExitReason {
    /// The user asked to quit.
    Command,
    Interrupted,
    Eof,
    /// The reader failed.
    Error,
}

/// What to do after an attempt to read a line.
#[derive(Clone, Debug)]
pub enum SessionStep {
    /// Nothing: read the next line.
    Skip,
    /// Put `entry` in the history, perform `action`, read the next line.
    Handle { entry: String, action: ReplAction },
    /// Put `last_entry`, if any, in the history; print `error`, if any, as an
    /// error; end the session with [`farewell_lines`].
    Stop { last_entry: Option<String>, error: Option<String>, reason: ExitReason },
}

/// The mathematical value of a [`SessionStep`].
pub enum SessionStepView {
    Skip,
    Handle { entry: Seq<char>, action: ReplActionView },
    Stop { last_entry: Option<Seq<char>>, error: Option<Seq<char>>, reason: ExitReason },
}

impl View for SessionStep {
    type V = SessionStepView;

    open spec fn view(&self) -> SessionStepView {
        match self {
            SessionStep::Skip => SessionStepView::Skip,
            SessionStep::Handle { entry, action } => SessionStepView::Handle {
                entry: entry@,
                action: action@,
            },
            SessionStep::Stop { last_entry, error, reason } => SessionStepView::Stop {
                last_entry: last_entry.deep_view(),
                error: error.deep_view(),
                reason: *reason,
            },
        }
    }
}

/// What to do after an attempt to read a line, in the state `context`.
///
/// A blank line is skipped. Any other line is trimmed, remembered and
/// handled as a command; the command to quit ends the session. An interrupt,
/// the end of the input and a failure of the reader end it too.
pub open spec fn step_of(event: ReplEventView, context: ReplContextView) -> SessionStepView {
    match event {
        ReplEventView::Line(line) => {
            let entry = trim(line);
            if entry.len() == 0 {
                SessionStepView::Skip
            } else if repl_action(entry, context) is Quit {
                SessionStepView::Stop {
                    last_entry: Some(entry),
                    error: None,
                    reason: ExitReason::Command,
                }
            } else {
                SessionStepView::Handle { entry, action: repl_action(entry, context) }
            }
        },
        ReplEventView::Interrupted => SessionStepView::Stop {
            last_entry: None,
            error: None,
            reason: ExitReason::Interrupted,
        },
        ReplEventView::Eof => SessionStepView::Stop {
            last_entry: None,
            error: None,
            reason: ExitReason::Eof,
        },
        ReplEventView::Failed(text) => SessionStepView::Stop {
            last_entry: None,
            error: Some("Error: "@ + text),
            reason: ExitReason::Error,
        },
    }
}

/// The state after an attempt to read a line.
pub open spec fn context_after(event: ReplEventView, context: ReplContextView) -> ReplContextView {
    match event {
        ReplEventView::Line(line) => if trim(line).len() == 0 {
            context
        } else {
            repl_context(trim(line), context)
        },
        _ => context,
    }
}

/// Decides what to do after an attempt to read a line, and changes the state
/// as the line says.
pub fn session_step(event: ReplEvent, context: &mut ReplContext) -> (r: SessionStep)
    ensures
        r@ == step_of(event@, old(context)@),
        final(context)@ == context_after(event@, old(context)@),
{
    match event {
        ReplEvent::Line(line) => {
            let raw = chars_of(line.as_str());
            let entry = trimmed(&raw);
            if entry.len() == 0 {
                return SessionStep::Skip;
            }
            let entry = string_of(&entry);
            let action = handle_repl_command(entry.as_str(), context);
            if action.continues() {
                SessionStep::Handle { entry, action }
            } else {
                SessionStep::Stop {
                    last_entry: Some(entry),
                    error: None,
                    reason: ExitReason::Command,
                }
            }
        },
        ReplEvent::Interrupted => SessionStep::Stop {
            last_entry: None,
            error: None,
            reason: ExitReason::Interrupted,
        },
        ReplEvent::Eof => SessionStep::Stop { last_entry: None, error: None, reason: ExitReason::Eof },
        ReplEvent::Failed(text) => {
            let body = chars_of(text.as_str());
            SessionStep::Stop {
                last_entry: None,
                error: Some(prefixed("Error: ", &body)),
                reason: ExitReason::Error,
            }
        },
    }
}

/// The line that tells the user that a command failed.
pub fn error_line(message: &str) -> (r: String)
    ensures
        r@ == "Error: "@ + message@,
{
    let body = chars_of(message);
    prefixed("Error: ", &body)
}

/// The lines shown when a session begins.
pub fn welcome_lines() -> (r: Vec<String>)
    ensures
        r.deep_view() == seq![
            "\u{1f3af} Clara Task Manager REPL"@,
            "Type '/help' for available commands or '/quit' to exit."@,
        ],
{
    let mut r: Vec<String> = Vec::new();
    push_line(&mut r, "\u{1f3af} Clara Task Manager REPL");
    push_line(&mut r, "Type '/help' for available commands or '/quit' to exit.");
    r
}

/// The lines shown when a session ends: the key that ended it, where it was
/// an interrupt or the end of the input, and a goodbye.
pub open spec fn farewell(reason: ExitReason) -> Seq<Seq<char>> {
    match reason {
        ExitReason::Interrupted => seq!["^C"@, "Goodbye! \u{1f44b}"@],
        ExitReason::Eof => seq!["^D"@, "Goodbye! \u{1f44b}"@],
        _ => seq!["Goodbye! \u{1f44b}"@],
    }
}

/// The lines shown when a session ends.
pub fn farewell_lines(reason: ExitReason) -> (r: Vec<String>)
    ensures
        r.deep_view() == farewell(reason),
{
    let mut r: Vec<String> = Vec::new();
    match reason {
        ExitReason::Interrupted => {
            push_line(&mut r, "^C");
        },
        ExitReason::Eof => {
            push_line(&mut r, "^D");
        },
        _ => {},
    }
    push_line(&mut r, "Goodbye! \u{1f44b}");
    r
}

} // verus!
