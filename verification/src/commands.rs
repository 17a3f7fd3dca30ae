//! The task commands: what each one asks of the store, and what is made of
//! the store's answers.
//!
//! A command runs in two steps. The first, [`execute_command`], reads the
//! command and says what is needed: a [`Request`]. The caller asks the store
//! and hands the answers to the functions of the second step, which validate,
//! build the record to write and word the line to show.

use crate::cli::{Commands, CommandsView};
use crate::decimal::{decimal, decimal_chars};
use crate::metadata::{
    clocks_fit, metadata_of, parse_slash_metadata, DueClock, MetadataView, TaskMetadata,
};
use crate::repl::{ReplContext, ReplContextView};
use crate::task::{DraftView, Status, Task, TaskDraft, TaskView};
use crate::text::{append_chars, chars_of, has_prefix, result_view, starts_with, string_of};
use vstd::prelude::*;

verus! {

/// What a task command needs from the store.
#[derive(Clone, Debug)]
pub enum Request {
    /// Nothing: the command fails with this message.
    Reject(String),
    /// Look up the draft's parent, if it names one; make the task with
    /// [`TaskDraft::to_task_under`]; insert it; show [`added_line`].
    Insert(TaskDraft),
    /// Look up the draft's parent, if it names one; let the user fill in the
    /// draft in the editor; then go on as for `Insert`.
    Compose(TaskDraft),
    /// Fetch the tasks and the projects; show
    /// [`crate::tree::task_list_lines`].
    List,
    /// Find the task, or show [`not_found_line`]; read the text with
    /// [`parse_edit`]; look up the parent, if the edit names one; change the
    /// task with [`Task::apply_edit`]; update it; show [`updated_line`].
    Edit { id: u32, text: String },
    /// Find the task, or show [`not_found_line`]; let the user change it in
    /// the editor; update it; show [`updated_line`].
    Revise { id: u32 },
    /// Find the task, or show [`not_found_line`]; delete it; show
    /// [`removed_line`].
    Remove { id: u32 },
    /// Find the task, or show [`not_found_line`]; mark it with
    /// [`Task::mark_done`]; update it; show [`done_line`].
    Complete { id: u32 },
}

/// The mathematical value of a [`Request`].
pub enum RequestView {
    Reject(Seq<char>),
    Insert(DraftView),
    Compose(DraftView),
    List,
    Edit { id: u32, text: Seq<char> },
    Revise { id: u32 },
    Remove { id: u32 },
    Complete { id: u32 },
}

impl View for Request {
    type V = RequestView;

    open spec fn view(&self) -> RequestView {
        match self {
            Request::Reject(message) => RequestView::Reject(message@),
            Request::Insert(draft) => RequestView::Insert(draft@),
            Request::Compose(draft) => RequestView::Compose(draft@),
            Request::List => RequestView::List,
            Request::Edit { id, text } => RequestView::Edit { id: *id, text: text@ },
            Request::Revise { id } => RequestView::Revise { id: *id },
            Request::Remove { id } => RequestView::Remove { id: *id },
            Request::Complete { id } => RequestView::Complete { id: *id },
        }
    }
}

/// The identifier of the current project, if there is one.
pub open spec fn scope_of(context: ReplContextView) -> Option<u32> {
    match context.current_project {
        Some(project) => Some(project.id),
        None => None,
    }
}

/// The draft of the task that a line of metadata describes.
///
/// The parent named in the line wins over the one given with the command. The
/// priority is `medium` where the line names none. The task belongs to the
/// current project.
pub open spec fn draft_of(
    metadata: MetadataView,
    parent: Option<u32>,
    context: ReplContextView,
) -> DraftView {
    DraftView {
        title: metadata.title,
        priority: match metadata.priority {
            Some(token) => token,
            None => "medium"@,
        },
        tags: metadata.tags,
        due_date: metadata.due_date,
        parent_id: match metadata.parent {
            Some(id) => Some(id),
            None => parent,
        },
        project_id: scope_of(context),
    }
}

/// The draft that the editor opens on for a new task.
pub open spec fn template_of(parent: Option<u32>, context: ReplContextView) -> DraftView {
    DraftView { parent_id: parent, project_id: scope_of(context), ..DraftView::blank() }
}

/// What `add` asks for, once its line of metadata is read.
pub open spec fn add_request(
    parsed: Result<MetadataView, Seq<char>>,
    parent: Option<u32>,
    context: ReplContextView,
) -> RequestView {
    match parsed {
        Ok(metadata) => RequestView::Insert(draft_of(metadata, parent, context)),
        Err(message) => RequestView::Reject(message),
    }
}

/// The identifier of the current project, if there is one.
fn current_scope(context: &ReplContext) -> (r: Option<u32>)
    ensures
        r == scope_of(context@),
{
    match &context.current_project {
        Some(project) => Some(project.id),
        None => None,
    }
}

/// The draft of the task that a line of metadata describes: see
/// [`draft_of`].
pub fn draft_from_metadata(
    metadata: TaskMetadata,
    parent_id: Option<u32>,
    context: &ReplContext,
) -> (r: TaskDraft)
    ensures
        r@ == draft_of(metadata@, parent_id, context@),
{
    let priority = match metadata.priority {
        Some(token) => token,
        None => "medium".to_owned(),
    };
    let parent = match metadata.parent {
        Some(id) => Some(id),
        None => parent_id,
    };
    TaskDraft {
        title: metadata.title,
        priority,
        tags: metadata.tags,
        due_date: metadata.due_date,
        parent_id: parent,
        project_id: current_scope(context),
    }
}

/// `add`: with a line of metadata the task is made from the line, without
/// one it is written in the editor.
///
/// Panics where the line writes a due date without a year and the clock
/// stands before 1970.
pub fn add_task(parent_id: Option<u32>, text: Option<String>, context: &ReplContext) -> (r: Request)
    ensures
        match text {
            Some(line) => exists|clocks: Seq<DueClock>|
                clocks_fit(line@, clocks) && #[trigger] add_request(
                    metadata_of(line@, clocks),
                    parent_id,
                    context@,
                ) == r@,
            None => r@ == RequestView::Compose(template_of(parent_id, context@)),
        },
{
    match text {
        Some(line) => {
            let parsed = parse_slash_metadata(line.as_str());
            let ghost clocks = choose|clocks: Seq<DueClock>|
                clocks_fit(line@, clocks) && #[trigger] metadata_of(line@, clocks) == result_view(
                    parsed,
                );
            let r = match parsed {
                Ok(metadata) => Request::Insert(draft_from_metadata(metadata, parent_id, context)),
                Err(message) => Request::Reject(message),
            };
            assert(add_request(metadata_of(line@, clocks), parent_id, context@) == r@);
            r
        },
        None => {
            let mut draft = TaskDraft::new();
            draft.parent_id = parent_id;
            draft.project_id = current_scope(context);
            Request::Compose(draft)
        },
    }
}

/// `edit`: with a line of metadata the task is changed as the line says,
/// without one it is changed in the editor.
pub fn edit_task(id: u32, text: Option<String>) -> (r: Request)
    ensures
        r@ == (match text {
            Some(line) => RequestView::Edit { id, text: line@ },
            None => RequestView::Revise { id },
        }),
{
    match text {
        Some(line) => Request::Edit { id, text: line },
        None => Request::Revise { id },
    }
}

/// `list`.
pub fn list_tasks(_context: &ReplContext) -> (r: Request)
    ensures
        r@ == RequestView::List,
{
    Request::List
}

/// `remove`.
pub fn remove_task(id: u32) -> (r: Request)
    ensures
        r@ == (RequestView::Remove { id }),
{
    Request::Remove { id }
}

/// `done`.
pub fn done_task(id: u32) -> (r: Request)
    ensures
        r@ == (RequestView::Complete { id }),
{
    Request::Complete { id }
}

/// What a command asks for, where reading its text needs no answer from the
/// machine: every command but an `add` with a line of metadata.
pub open spec fn request_of(command: CommandsView, context: ReplContextView) -> RequestView {
    match command {
        CommandsView::Add { parent, text } => RequestView::Compose(template_of(parent, context)),
        CommandsView::List => RequestView::List,
        CommandsView::Edit { id, text } => match text {
            Some(line) => RequestView::Edit { id, text: line },
            None => RequestView::Revise { id },
        },
        CommandsView::Remove { id } => RequestView::Remove { id },
        CommandsView::Done { id } => RequestView::Complete { id },
    }
}

/// The first step of a task command: what it needs from the store.
///
/// Panics where an `add` writes a due date without a year and the clock
/// stands before 1970.
pub fn execute_command(command: Commands, context: &ReplContext) -> (r: Request)
    ensures
        match command@ {
            CommandsView::Add { parent, text: Some(line) } => exists|clocks: Seq<DueClock>|
                clocks_fit(line, clocks) && #[trigger] add_request(
                    metadata_of(line, clocks),
                    parent,
                    context@,
                ) == r@,
            _ => r@ == request_of(command@, context@),
        },
{
    match command {
        Commands::Add { parent, text } => {
            let ghost line = text.deep_view();
            let r = add_task(parent, text, context);
            proof {
                if line is Some {
                    let clocks = choose|clocks: Seq<DueClock>|
                        clocks_fit(line->0, clocks) && #[trigger] add_request(
                            metadata_of(line->0, clocks),
                            parent,
                            context@,
                        ) == r@;
                }
            }
            r
        },
        Commands::List => list_tasks(context),
        Commands::Edit { id, text } => edit_task(id, text),
        Commands::Remove { id } => remove_task(id),
        Commands::Done { id } => done_task(id),
    }
}

/// The line that the metadata parser reads for an edit: the text itself, or,
/// where the text starts with `/` and so has no title, the text behind a
/// title that stands in for one.
pub open spec fn edit_line(text: Seq<char>) -> Seq<char> {
    if starts_with(text, "/"@) {
        "DUMMY_TITLE "@ + text
    } else {
        text
    }
}

/// Reads the text of an `edit`: the metadata, and whether the task gets the
/// title that the metadata holds. It does where the text starts with a title
/// and not with `/`.
///
/// Panics where the text writes a due date without a year and the clock
/// stands before 1970.
pub fn parse_edit(text: &str) -> (r: Result<(TaskMetadata, bool), String>)
    ensures
        exists|clocks: Seq<DueClock>|
            clocks_fit(edit_line(text@), clocks) && #[trigger] metadata_of(
                edit_line(text@),
                clocks,
            ) == (match r {
                Ok((metadata, _)) => Ok::<MetadataView, Seq<char>>(metadata@),
                Err(message) => Err::<MetadataView, Seq<char>>(message@),
            }),
        r matches Ok((_, retitle)) ==> retitle == !starts_with(text@, "/"@),
{
    let raw = chars_of(text);
    let bare = has_prefix(&raw, "/");
    let parsed = if bare {
        let mut line = chars_of("DUMMY_TITLE ");
        append_chars(&mut line, &raw);
        let line = string_of(&line);
        parse_slash_metadata(line.as_str())
    } else {
        parse_slash_metadata(text)
    };
    let ghost clocks = choose|clocks: Seq<DueClock>|
        clocks_fit(edit_line(text@), clocks) && #[trigger] metadata_of(edit_line(text@), clocks)
            == result_view(parsed);
    match parsed {
        Ok(metadata) => Ok((metadata, !bare)),
        Err(message) => Err(message),
    }
}

/// The words that say which project a new task went to.
pub open spec fn project_note(context: ReplContextView) -> Seq<char> {
    match context.current_project {
        Some(project) => " in project '"@ + project.name + "'"@,
        None => Seq::empty(),
    }
}

/// The line shown once a task of the given title is inserted under the
/// given parent.
pub open spec fn added_text_for(
    title: Seq<char>,
    parent: Option<u32>,
    context: ReplContextView,
) -> Seq<char> {
    match parent {
        Some(parent) => "\u{2705} Subtask added to parent #"@ + decimal(parent as nat)
            + project_note(context) + ": '"@ + title + "'"@,
        None => "\u{2705} Task added"@ + project_note(context) + ": '"@ + title + "'"@,
    }
}

/// The line shown once a task is inserted.
pub open spec fn added_text(task: TaskView, context: ReplContextView) -> Seq<char> {
    added_text_for(task.title, task.parent_id, context)
}

/// The line shown once a task of the given title is inserted under the
/// given parent.
pub fn added_line_for(title: &str, parent: Option<u32>, context: &ReplContext) -> (r: String)
    ensures
        r@ == added_text_for(title@, parent, context@),
{
    let mut line = match parent {
        Some(parent) => {
            let mut line = chars_of("\u{2705} Subtask added to parent #");
            let id = decimal_chars(parent as u64);
            append_chars(&mut line, &id);
            line
        },
        None => chars_of("\u{2705} Task added"),
    };
    if let Some(project) = &context.current_project {
        let open = chars_of(" in project '");
        append_chars(&mut line, &open);
        let name = chars_of(project.name.as_str());
        append_chars(&mut line, &name);
        let close = chars_of("'");
        append_chars(&mut line, &close);
    }
    let open = chars_of(": '");
    append_chars(&mut line, &open);
    let title = chars_of(title);
    append_chars(&mut line, &title);
    let close = chars_of("'");
    append_chars(&mut line, &close);
    string_of(&line)
}

/// The line shown once a task is inserted.
pub fn added_line(task: &Task, context: &ReplContext) -> (r: String)
    ensures
        r@ == added_text(task@, context@),
{
    added_line_for(task.title.as_str(), task.parent_id, context)
}

/// A line made of an opening, a task's identifier, a middle part, its title
/// and a closing quote.
fn task_line(opening: &str, id: u32, middle: &str, title: &str) -> (r: String)
    ensures
        r@ == opening@ + decimal(id as nat) + middle@ + title@ + "'"@,
{
    let mut line = chars_of(opening);
    let number = decimal_chars(id as u64);
    append_chars(&mut line, &number);
    let middle = chars_of(middle);
    append_chars(&mut line, &middle);
    let title = chars_of(title);
    append_chars(&mut line, &title);
    let close = chars_of("'");
    append_chars(&mut line, &close);
    string_of(&line)
}

/// The line shown once a task is updated.
pub fn updated_line(task: &Task) -> (r: String)
    ensures
        r@ == "\u{2705} Task "@ + decimal(task.id as nat) + " updated: '"@ + task.title@ + "'"@,
{
    task_line("\u{2705} Task ", task.id, " updated: '", task.title.as_str())
}

/// The line shown once a task is marked as done.
pub fn done_line(task: &Task) -> (r: String)
    ensures
        r@ == "\u{2705} Task "@ + decimal(task.id as nat) + " marked as done: '"@ + task.title@
            + "'"@,
{
    task_line("\u{2705} Task ", task.id, " marked as done: '", task.title.as_str())
}

/// The line shown once a task is removed.
pub fn removed_line(task: &Task) -> (r: String)
    ensures
        r@ == "\u{1f5d1}\u{fe0f}  Task "@ + decimal(task.id as nat) + " removed: '"@ + task.title@
            + "'"@,
{
    task_line("\u{1f5d1}\u{fe0f}  Task ", task.id, " removed: '", task.title.as_str())
}

/// The line shown where the store holds no task of the given identifier.
pub fn not_found_line(id: u32) -> (r: String)
    ensures
        r@ == "\u{274c} Task with ID "@ + decimal(id as nat) + " not found."@,
{
    let number = decimal_chars(id as u64);
    crate::text::framed("\u{274c} Task with ID ", &number, " not found.")
}

/// What a command that needs a task goes on with, given what the store
/// answered when asked for the task: the task, or the line to show where the
/// store holds none. In that case the command ends there, without effect and
/// without error.
pub fn found_task(id: u32, found: Option<Task>) -> (r: Result<Task, String>)
    ensures
        match found {
            Some(task) => r == Ok::<Task, String>(task),
            None => r is Err && r->Err_0@ == "\u{274c} Task with ID "@ + decimal(id as nat)
                + " not found."@,
        },
{
    match found {
        Some(task) => Ok(task),
        None => Err(not_found_line(id)),
    }
}

/// What `remove` leads to, given what the store answered when asked for the
/// task: the identifier to delete, if the task is there, and the line to
/// show.
pub fn remove_found(id: u32, found: Option<Task>) -> (r: (Option<u32>, String))
    ensures
        match found {
            Some(task) => r.0 == Some(id) && r.1@ == "\u{1f5d1}\u{fe0f}  Task "@ + decimal(
                task.id as nat,
            ) + " removed: '"@ + task.title@ + "'"@,
            None => r.0 is None && r.1@ == "\u{274c} Task with ID "@ + decimal(id as nat)
                + " not found."@,
        },
{
    match found {
        Some(task) => (Some(id), removed_line(&task)),
        None => (None, not_found_line(id)),
    }
}

/// What `done` leads to at the time `now`, given what the store answered
/// when asked for the task: the task to write back, marked as done, if the
/// task is there, and the line to show.
pub fn complete_found(id: u32, found: Option<Task>, now: i64) -> (r: (Option<Task>, String))
    ensures
        match found {
            Some(task) => r.0 is Some && r.0->0@ == task@.done(now) && r.0->0.status
                == Status::Done && r.0->0.completed_at is Some && r.1@ == "\u{2705} Task "@
                + decimal(task.id as nat) + " marked as done: '"@ + task.title@ + "'"@,
            None => r.0 is None && r.1@ == "\u{274c} Task with ID "@ + decimal(id as nat)
                + " not found."@,
        },
{
    match found {
        Some(task) => {
            let mut task = task;
            task.mark_done(now);
            let line = done_line(&task);
            (Some(task), line)
        },
        None => (None, not_found_line(id)),
    }
}

} // verus!
