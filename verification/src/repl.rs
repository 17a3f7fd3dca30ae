//! The interactive prompt: its state, and what each line that the user
//! enters leads to.
//!
//! The prompt is in one of two modes, task or project, and may have a current
//! project. A line that starts with `/` is a command to the prompt itself;
//! any other line is a command of the current mode. This module decides: it
//! changes the state and says what is to be shown, asked of the store or run.
//! Reading lines, printing and the store are the caller's.

use crate::cli::{Commands, CommandsView};
use crate::decimal::{decimal, decimal_chars, parse_u32, parse_u32_chars};
use crate::project::{Project, ProjectView};
use crate::text::{
    append_chars, append_lines, chars_of, contains_text, find_char, find_whitespace, framed,
    has_char, has_prefix, has_text, index_of_whitespace, join, join_chars, prefixed, push_line,
    push_string, same_text, slice_of, starts_with, string_of, texts, trim, trim_start, trimmed,
    trimmed_start,
};
use vstd::prelude::*;

verus! {

/// The words that `shell_words::split` cuts `text` into; `None` where it
/// returns its error, which it does where a quote is not closed.
pub uninterp spec fn shell_split_of(text: Seq<char>) -> Option<Seq<Seq<char>>>;

/// The error of `shell_words::split`.
#[verifier::external_type_specification]
#[verifier::external_body]
pub struct ExShellParseError(shell_words::ParseError);

/// Calls `shell_words::split`, which cuts a line into words by the quoting
/// rules of the Unix shell. The contract only names its result.
#[verifier::external_body]
fn shell_split(text: &str) -> (r: Result<Vec<String>, shell_words::ParseError>)
    ensures
        match r {
            Ok(words) => shell_split_of(text@) == Some(words.deep_view()),
            Err(_) => shell_split_of(text@) is None,
        },
{
    shell_words::split(text)
}

/// The text that `shell_words::ParseError` prints as: always the same words.
#[verifier::external_body]
fn shell_error_text(error: &shell_words::ParseError) -> (r: String)
    ensures
        r@ == "missing closing quote"@,
{
    format!("{}", error)
}

/// The mode of the prompt.
#[derive(Clone, Copy, Debug, PartialEq, Eq, Structural)]
pub enum Context {
    Task,
    Project,
}

/// The state of the prompt.
#[derive(Clone, Debug)]
pub struct ReplContext {
    pub mode: Context,
    /// The project that task commands are scoped to, if any.
    pub current_project: Option<Project>,
}

/// The mathematical value of a [`ReplContext`].
pub struct ReplContextView {
    pub mode: Context,
    pub current_project: Option<ProjectView>,
}

impl View for ReplContext {
    type V = ReplContextView;

    open spec fn view(&self) -> ReplContextView {
        ReplContextView {
            mode: self.mode,
            current_project: match self.current_project {
                Some(project) => Some(project@),
                None => None,
            },
        }
    }
}

impl ReplContextView {
    /// The state a session starts in: task mode, no project.
    pub open spec fn initial() -> ReplContextView {
        ReplContextView { mode: Context::Task, current_project: None }
    }

    /// The prompt shown before a line is read.
    pub open spec fn prompt(self) -> Seq<char> {
        match self.mode {
            Context::Task => match self.current_project {
                Some(project) => "task@"@ + project.name + " > "@,
                None => "task > "@,
            },
            Context::Project => "project > "@,
        }
    }
}

impl ReplContext {
    /// The state a session starts in.
    pub fn new() -> (r: ReplContext)
        ensures
            r@ == ReplContextView::initial(),
    {
        ReplContext { mode: Context::Task, current_project: None }
    }

    /// The prompt shown before a line is read.
    pub fn get_prompt(&self) -> (r: String)
        ensures
            r@ == self@.prompt(),
    {
        match self.mode {
            Context::Task => match &self.current_project {
                Some(project) => {
                    let name = chars_of(project.name.as_str());
                    framed("task@", &name, " > ")
                },
                None => "task > ".to_owned(),
            },
            Context::Project => "project > ".to_owned(),
        }
    }

    /// Enters project mode. The current project stays.
    pub fn switch_to_project_mode(&mut self)
        ensures
            final(self)@ == (ReplContextView { mode: Context::Project, ..old(self)@ }),
    {
        self.mode = Context::Project;
    }

    /// Enters task mode. The current project stays.
    pub fn switch_to_task_mode(&mut self)
        ensures
            final(self)@ == (ReplContextView { mode: Context::Task, ..old(self)@ }),
    {
        self.mode = Context::Task;
    }

    /// Sets or clears the current project. The mode stays.
    pub fn set_current_project(&mut self, project: Option<Project>)
        ensures
            final(self).mode == old(self).mode,
            final(self).current_project == project,
    {
        self.current_project = project;
    }
}

/// What a line leads to.
#[derive(Clone, Debug)]
pub enum ReplAction {
    /// Print these lines, then read the next line.
    Show(Vec<String>),
    /// Print this line as an error, then read the next line.
    ShowError(String),
    /// End the session.
    Quit,
    /// Ask the store for the project of this name, then hand the answer to
    /// [`use_project`].
    FindProject(String),
    /// Run the task command given.
    Run(Commands),
    /// Hand these words to the argument parser and run the task command that
    /// it makes of them.
    ParseArguments(Vec<String>),
    /// Ask the store for all projects, then print [`project_list_lines`].
    ListProjects,
    /// Let the user write a new project in the editor.
    AddProject,
}

/// The mathematical value of a [`ReplAction`].
pub enum ReplActionView {
    Show(Seq<Seq<char>>),
    ShowError(Seq<char>),
    Quit,
    FindProject(Seq<char>),
    Run(CommandsView),
    ParseArguments(Seq<Seq<char>>),
    ListProjects,
    AddProject,
}

impl View for ReplAction {
    type V = ReplActionView;

    open spec fn view(&self) -> ReplActionView {
        match self {
            ReplAction::Show(lines) => ReplActionView::Show(lines.deep_view()),
            ReplAction::ShowError(line) => ReplActionView::ShowError(line@),
            ReplAction::Quit => ReplActionView::Quit,
            ReplAction::FindProject(name) => ReplActionView::FindProject(name@),
            ReplAction::Run(command) => ReplActionView::Run(command@),
            ReplAction::ParseArguments(words) => ReplActionView::ParseArguments(words.deep_view()),
            ReplAction::ListProjects => ReplActionView::ListProjects,
            ReplAction::AddProject => ReplActionView::AddProject,
        }
    }
}

impl ReplAction {
    /// Whether the session goes on after this action.
    pub fn continues(&self) -> (r: bool)
        ensures
            r == !(self@ is Quit),
    {
        match self {
            ReplAction::Quit => false,
            _ => true,
        }
    }
}

/// The summary of the task commands.
pub open spec fn task_command_lines() -> Seq<Seq<char>> {
    seq![
        "  add                      - Add a new task (opens editor)"@,
        "  add title /p high /tag work - Add with slash-style metadata"@,
        "  add --parent <id>           - Add a subtask under an existing task"@,
        "  list                        - List all tasks in hierarchical tree structure"@,
        "  edit <id>                   - Edit a task (opens editor)"@,
        "  edit <id> /p high /tag work - Edit with slash-style metadata"@,
        "  remove <id>                 - Remove a task"@,
        "  done <id>                   - Mark a task as done"@,
        ""@,
        "Slash metadata options:"@,
        "  /p <priority>    - Set priority (low, medium, high, urgent)"@,
        "  /due <date>      - Set due date (YYYY-MM-DD, MM/DD/YYYY, MM-DD)"@,
        "  /tag <tags>      - Set tags (comma-separated)"@,
        "  /parent <id>     - Set parent task"@,
        "  /est <estimate>  - Set time estimate"@,
    ]
}

/// The summary of the project commands.
pub open spec fn project_command_lines() -> Seq<Seq<char>> {
    seq![
        "Project commands:"@,
        "  list                 - List all projects"@,
        "  add                  - Add a new project"@,
        "  edit <id>            - Edit a project"@,
        "  remove <id>          - Remove a project"@,
    ]
}

/// The help shown in task mode for a command line that names no command.
pub open spec fn task_help_lines() -> Seq<Seq<char>> {
    seq!["Available task commands:"@] + task_command_lines() + seq![
        ""@,
        "Use any command followed by --help for detailed usage."@,
    ]
}

/// The help shown in project mode.
pub open spec fn project_help_lines() -> Seq<Seq<char>> {
    seq!["Available project commands:"@] + project_command_lines() + seq![
        ""@,
        "Use any command followed by --help for detailed usage."@,
    ]
}

/// The line that heads the task commands in the help of the prompt.
pub open spec fn task_heading(context: ReplContextView) -> Seq<char> {
    match context.current_project {
        Some(project) => "Task commands (in project: "@ + project.name + "):"@,
        None => "Task commands (global mode):"@,
    }
}

/// The help of the prompt: its own commands, then those of the current mode.
pub open spec fn repl_help_lines(context: ReplContextView) -> Seq<Seq<char>> {
    seq![
        "Available REPL commands:"@,
        "  /help              - Show this help message"@,
        "  /quit              - Exit the REPL"@,
        "  /project           - Switch to project mode"@,
        "  /task              - Switch to task mode"@,
        "  /use <project>     - Switch to a specific project context"@,
        "  /clear             - Clear project context (global task mode)"@,
        ""@,
    ] + (match context.mode {
        Context::Task => seq![task_heading(context)] + task_command_lines(),
        Context::Project => project_command_lines(),
    }) + seq![""@, "Use any command followed by --help for detailed usage."@]
}

/// The summary of the task commands.
pub fn print_task_commands() -> (r: Vec<String>)
    ensures
        r.deep_view() == task_command_lines(),
{
    let mut r: Vec<String> = Vec::new();
    push_line(&mut r, "  add                      - Add a new task (opens editor)");
    push_line(&mut r, "  add title /p high /tag work - Add with slash-style metadata");
    push_line(&mut r, "  add --parent <id>           - Add a subtask under an existing task");
    push_line(
        &mut r,
        "  list                        - List all tasks in hierarchical tree structure",
    );
    push_line(&mut r, "  edit <id>                   - Edit a task (opens editor)");
    push_line(&mut r, "  edit <id> /p high /tag work - Edit with slash-style metadata");
    push_line(&mut r, "  remove <id>                 - Remove a task");
    push_line(&mut r, "  done <id>                   - Mark a task as done");
    push_line(&mut r, "");
    push_line(&mut r, "Slash metadata options:");
    push_line(&mut r, "  /p <priority>    - Set priority (low, medium, high, urgent)");
    push_line(&mut r, "  /due <date>      - Set due date (YYYY-MM-DD, MM/DD/YYYY, MM-DD)");
    push_line(&mut r, "  /tag <tags>      - Set tags (comma-separated)");
    push_line(&mut r, "  /parent <id>     - Set parent task");
    push_line(&mut r, "  /est <estimate>  - Set time estimate");
    r
}

/// The summary of the project commands.
pub fn print_project_commands() -> (r: Vec<String>)
    ensures
        r.deep_view() == project_command_lines(),
{
    let mut r: Vec<String> = Vec::new();
    push_line(&mut r, "Project commands:");
    push_line(&mut r, "  list                 - List all projects");
    push_line(&mut r, "  add                  - Add a new project");
    push_line(&mut r, "  edit <id>            - Edit a project");
    push_line(&mut r, "  remove <id>          - Remove a project");
    r
}

/// The help shown in task mode for a command line that names no command.
pub fn print_task_help() -> (r: Vec<String>)
    ensures
        r.deep_view() == task_help_lines(),
{
    let mut r: Vec<String> = Vec::new();
    push_line(&mut r, "Available task commands:");
    append_lines(&mut r, &print_task_commands());
    push_line(&mut r, "");
    push_line(&mut r, "Use any command followed by --help for detailed usage.");
    r
}

/// The help shown in project mode.
pub fn print_project_help() -> (r: Vec<String>)
    ensures
        r.deep_view() == project_help_lines(),
{
    let mut r: Vec<String> = Vec::new();
    push_line(&mut r, "Available project commands:");
    append_lines(&mut r, &print_project_commands());
    push_line(&mut r, "");
    push_line(&mut r, "Use any command followed by --help for detailed usage.");
    r
}

/// The help of the prompt.
pub fn print_repl_help(context: &ReplContext) -> (r: Vec<String>)
    ensures
        r.deep_view() == repl_help_lines(context@),
{
    let mut r: Vec<String> = Vec::new();
    push_line(&mut r, "Available REPL commands:");
    push_line(&mut r, "  /help              - Show this help message");
    push_line(&mut r, "  /quit              - Exit the REPL");
    push_line(&mut r, "  /project           - Switch to project mode");
    push_line(&mut r, "  /task              - Switch to task mode");
    push_line(&mut r, "  /use <project>     - Switch to a specific project context");
    push_line(&mut r, "  /clear             - Clear project context (global task mode)");
    push_line(&mut r, "");
    match context.mode {
        Context::Task => {
            let heading = match &context.current_project {
                Some(project) => {
                    let name = chars_of(project.name.as_str());
                    framed("Task commands (in project: ", &name, "):")
                },
                None => "Task commands (global mode):".to_owned(),
            };
            push_string(&mut r, heading);
            append_lines(&mut r, &print_task_commands());
        },
        Context::Project => {
            append_lines(&mut r, &print_project_commands());
        },
    }
    push_line(&mut r, "");
    push_line(&mut r, "Use any command followed by --help for detailed usage.");
    r
}

/// The first word of a text that does not start with white space: what
/// stands before the first white space.
pub open spec fn first_word(s: Seq<char>) -> Seq<char> {
    s.take(index_of_whitespace(s))
}

/// What stands behind the first word and the white space after it.
pub open spec fn after_first_word(s: Seq<char>) -> Seq<char> {
    trim_start(s.skip(index_of_whitespace(s)))
}

/// The state after a command to the prompt itself.
pub open spec fn internal_context(command: Seq<char>, context: ReplContextView) -> ReplContextView {
    let name = first_word(command);
    if name == "/project"@ {
        ReplContextView { mode: Context::Project, ..context }
    } else if name == "/task"@ {
        ReplContextView { mode: Context::Task, ..context }
    } else if name == "/clear"@ {
        ReplContextView { mode: Context::Task, current_project: None }
    } else {
        context
    }
}

/// What a command to the prompt itself leads to, in the state `context`.
pub open spec fn internal_action(command: Seq<char>, context: ReplContextView) -> ReplActionView {
    let name = first_word(command);
    let argument = first_word(after_first_word(command));
    if name == "/help"@ {
        ReplActionView::Show(repl_help_lines(context))
    } else if name == "/quit"@ {
        ReplActionView::Quit
    } else if name == "/project"@ {
        ReplActionView::Show(seq!["Switched to project mode. Use '/task' to switch back."@])
    } else if name == "/task"@ {
        ReplActionView::Show(
            seq!["Switched to task mode. Use '/project' to switch to project mode."@],
        )
    } else if name == "/use"@ {
        if argument.len() == 0 {
            ReplActionView::Show(seq!["Usage: /use <project_name>"@])
        } else {
            ReplActionView::FindProject(argument)
        }
    } else if name == "/clear"@ {
        ReplActionView::Show(seq!["Cleared project context. Now in global task mode."@])
    } else {
        ReplActionView::Show(
            seq![
                "Unknown REPL command: "@ + command,
                "Available commands: /help, /quit, /project, /task, /use <project>, /clear"@,
            ],
        )
    }
}

/// The names of the commands to the prompt are six different words.
proof fn lemma_command_names_differ()
    ensures
        "/help"@ != "/project"@,
        "/help"@ != "/task"@,
        "/help"@ != "/clear"@,
        "/quit"@ != "/project"@,
        "/quit"@ != "/task"@,
        "/quit"@ != "/clear"@,
        "/use"@ != "/project"@,
        "/use"@ != "/task"@,
        "/use"@ != "/clear"@,
        "/project"@ != "/task"@,
        "/project"@ != "/clear"@,
        "/task"@ != "/clear"@,
{
    reveal_strlit("/help");
    reveal_strlit("/quit");
    reveal_strlit("/project");
    reveal_strlit("/task");
    reveal_strlit("/use");
    reveal_strlit("/clear");
    assert("/help"@.len() == 5 && "/help"@[1] == 'h');
    assert("/quit"@.len() == 5 && "/quit"@[1] == 'q');
    assert("/project"@.len() == 8);
    assert("/task"@.len() == 5 && "/task"@[1] == 't');
    assert("/use"@.len() == 4);
}

/// One line to show.
fn one_line(text: &str) -> (r: ReplAction)
    ensures
        r@ == ReplActionView::Show(seq![text@]),
{
    let mut lines: Vec<String> = Vec::new();
    assert(lines.deep_view() =~= Seq::<Seq<char>>::empty());
    push_line(&mut lines, text);
    ReplAction::Show(lines)
}

/// Handles a command to the prompt itself: a trimmed line that starts with
/// `/`.
pub fn handle_internal_command(command: &str, context: &mut ReplContext) -> (r: ReplAction)
    ensures
        r@ == internal_action(command@, old(context)@),
        final(context)@ == internal_context(command@, old(context)@),
{
    let line = chars_of(command);
    let cut = find_whitespace(&line);
    let name = slice_of(&line, 0, cut);
    proof {
        lemma_command_names_differ();
    }
    if same_text(&name, "/help") {
        ReplAction::Show(print_repl_help(context))
    } else if same_text(&name, "/quit") {
        ReplAction::Quit
    } else if same_text(&name, "/project") {
        context.switch_to_project_mode();
        one_line("Switched to project mode. Use '/task' to switch back.")
    } else if same_text(&name, "/task") {
        context.switch_to_task_mode();
        one_line("Switched to task mode. Use '/project' to switch to project mode.")
    } else if same_text(&name, "/use") {
        let tail = slice_of(&line, cut, line.len());
        let rest = trimmed_start(&tail);
        let end = find_whitespace(&rest);
        let argument = slice_of(&rest, 0, end);
        if argument.len() == 0 {
            one_line("Usage: /use <project_name>")
        } else {
            ReplAction::FindProject(string_of(&argument))
        }
    } else if same_text(&name, "/clear") {
        context.set_current_project(None);
        context.switch_to_task_mode();
        one_line("Cleared project context. Now in global task mode.")
    } else {
        let mut lines: Vec<String> = Vec::new();
        push_string(&mut lines, prefixed("Unknown REPL command: ", &line));
        push_line(
            &mut lines,
            "Available commands: /help, /quit, /project, /task, /use <project>, /clear",
        );
        assert(lines.deep_view() =~= seq![
            "Unknown REPL command: "@ + command@,
            "Available commands: /help, /quit, /project, /task, /use <project>, /clear"@,
        ]);
        ReplAction::Show(lines)
    }
}

/// What the store's answer to [`ReplAction::FindProject`] leads to: the
/// lines to show.
///
/// Where the store holds the project it becomes the current project and the
/// prompt enters task mode. Where it does not, the state stays as it is.
pub fn use_project(context: &mut ReplContext, name: &str, found: Option<Project>) -> (r: Vec<
    String,
>)
    ensures
        match found {
            Some(project) => {
                &&& final(context)@ == (ReplContextView {
                    mode: Context::Task,
                    current_project: Some(project@),
                })
                &&& r.deep_view() == seq!["Switched to project: "@ + project.name@]
            },
            None => {
                &&& final(context)@ == old(context)@
                &&& r.deep_view() == seq![
                    "Project '"@ + name@
                        + "' not found. Use 'project list' to see available projects."@,
                ]
            },
        },
{
    let mut lines: Vec<String> = Vec::new();
    match found {
        Some(project) => {
            let shown = chars_of(project.name.as_str());
            push_string(&mut lines, prefixed("Switched to project: ", &shown));
            context.set_current_project(Some(project));
            context.switch_to_task_mode();
        },
        None => {
            let shown = chars_of(name);
            push_string(
                &mut lines,
                framed(
                    "Project '",
                    &shown,
                    "' not found. Use 'project list' to see available projects.",
                ),
            );
        },
    }
    lines
}

/// Whether one of the words from index `from` on holds a `/`.
pub open spec fn has_slash_word(words: Seq<Seq<char>>, from: int) -> bool {
    exists|k: int| from <= k < words.len() && has_char(#[trigger] words[k], '/')
}

/// The command that `add title /key value ..` stands for, where the line is
/// of that form: it starts with `add `, holds no `--`, and a `/` stands behind
/// the `add `.
pub open spec fn add_shorthand(line: Seq<char>) -> Option<CommandsView> {
    if starts_with(line, "add "@) && !has_text(line, "--"@) && has_char(line.skip(4), '/') {
        Some(CommandsView::Add { parent: None, text: Some(line.skip(4)) })
    } else {
        None
    }
}

/// The words of a line, or the reason it has none: what `shell_words::split`
/// returns, its error as the text it prints.
pub open spec fn words_of(line: Seq<char>) -> Result<Seq<Seq<char>>, Seq<char>> {
    match shell_split_of(line) {
        Some(words) => Ok(words),
        None => Err("missing closing quote"@),
    }
}

/// The view of the words of a line.
pub open spec fn words_view(split: Result<Vec<String>, String>) -> Result<
    Seq<Seq<char>>,
    Seq<char>,
> {
    match split {
        Ok(words) => Ok(words.deep_view()),
        Err(text) => Err(text@),
    }
}

/// The command that the words `edit <id> .. /key value ..` stand for: there
/// are three or more, the second is an identifier and one of those behind it
/// holds a `/`. The text of the edit is those words with a space between
/// neighbours.
pub open spec fn edit_of_words(words: Seq<Seq<char>>) -> Option<CommandsView> {
    if words.len() >= 3 && parse_u32(words[1]) is Some && has_slash_word(words, 2) {
        Some(
            CommandsView::Edit { id: parse_u32(words[1])->0, text: Some(join(words.skip(2), ' ')) },
        )
    } else {
        None
    }
}

/// The command that `edit <id> .. /key value ..` stands for, where the line
/// is of that form: it starts with `edit `, holds no `--`, and its words are
/// as [`edit_of_words`] asks.
pub open spec fn edit_shorthand(line: Seq<char>) -> Option<CommandsView> {
    if starts_with(line, "edit "@) && !has_text(line, "--"@) {
        match words_of(line) {
            Ok(words) => edit_of_words(words),
            Err(_) => None,
        }
    } else {
        None
    }
}

/// What the words of a line lead to in task mode, where the line is not one
/// of the shorthands: they go to the argument parser.
pub open spec fn action_of_words(split: Result<Seq<Seq<char>>, Seq<char>>) -> ReplActionView {
    match split {
        Err(text) => ReplActionView::ShowError("\u{274c} "@ + text),
        Ok(words) => if words.len() == 0 {
            ReplActionView::Show(Seq::empty())
        } else {
            ReplActionView::ParseArguments(words)
        },
    }
}

/// What a line leads to in task mode.
pub open spec fn task_action(input: Seq<char>) -> ReplActionView {
    let line = trim(input);
    if add_shorthand(line) is Some {
        ReplActionView::Run(add_shorthand(line)->0)
    } else if edit_shorthand(line) is Some {
        ReplActionView::Run(edit_shorthand(line)->0)
    } else {
        action_of_words(words_of(input))
    }
}

/// What the words of a line lead to in project mode: the first word is
/// `list`, `add` or `help`; anything else is answered with the summary of the
/// commands.
pub open spec fn project_action_of_words(
    split: Result<Seq<Seq<char>>, Seq<char>>,
) -> ReplActionView {
    match split {
        Err(text) => ReplActionView::ShowError("\u{274c} "@ + text),
        Ok(words) => if words.len() == 0 {
            ReplActionView::Show(Seq::empty())
        } else if words[0] == "list"@ {
            ReplActionView::ListProjects
        } else if words[0] == "add"@ {
            ReplActionView::AddProject
        } else if words[0] == "help"@ || words[0] == "--help"@ {
            ReplActionView::Show(project_help_lines())
        } else {
            ReplActionView::Show(
                seq!["Unknown project command: "@ + words[0]] + project_help_lines(),
            )
        },
    }
}

/// What a line leads to in project mode.
pub open spec fn project_action(input: Seq<char>) -> ReplActionView {
    project_action_of_words(words_of(input))
}

/// The characters of each of `words`.
fn chars_of_words(words: &Vec<String>) -> (r: Vec<Vec<char>>)
    ensures
        texts(r@) == words.deep_view(),
{
    let mut r: Vec<Vec<char>> = Vec::new();
    let mut i: usize = 0;
    while i < words.len()
        invariant
            i <= words.len(),
            r.len() == i,
            forall|j: int| 0 <= j < i ==> r[j]@ == words[j]@,
        decreases words.len() - i,
    {
        r.push(chars_of(words[i].as_str()));
        i += 1;
    }
    r
}

/// Whether one of `words` from index `from` on holds a `/`.
fn any_slash_word(words: &Vec<Vec<char>>, from: usize) -> (r: bool)
    ensures
        r == has_slash_word(texts(words@), from as int),
{
    let mut k: usize = from;
    while k < words.len()
        invariant
            from <= k,
            forall|j: int| from <= j < k && j < words.len() ==> !has_char(
                #[trigger] texts(words@)[j],
                '/',
            ),
        decreases words.len() - k,
    {
        if find_char(&words[k], '/') < words[k].len() {
            assert(has_char(texts(words@)[k as int], '/'));
            return true;
        }
        k += 1;
    }
    false
}

/// The words of `words` from index `from` on.
fn words_from(words: &Vec<Vec<char>>, from: usize) -> (r: Vec<Vec<char>>)
    requires
        from <= words.len(),
    ensures
        texts(r@) == texts(words@).skip(from as int),
{
    let mut r: Vec<Vec<char>> = Vec::new();
    let mut i: usize = from;
    while i < words.len()
        invariant
            from <= i <= words.len(),
            r.len() == i - from,
            forall|j: int| 0 <= j < i - from ==> r[j]@ == words[j + from]@,
        decreases words.len() - i,
    {
        r.push(words[i].clone());
        i += 1;
    }
    r
}

/// Cuts a line into words by the quoting rules of the Unix shell.
pub fn split_words(line: &str) -> (r: Result<Vec<String>, String>)
    ensures
        words_view(r) == words_of(line@),
{
    match shell_split(line) {
        Ok(words) => Ok(words),
        Err(error) => Err(shell_error_text(&error)),
    }
}

/// The command that the words `edit <id> .. /key value ..` stand for, if
/// they are of that form: see [`edit_of_words`].
pub fn edit_from_words(argv: &Vec<String>) -> (r: Option<Commands>)
    ensures
        match r {
            Some(command) => edit_of_words(argv.deep_view()) == Some(command@),
            None => edit_of_words(argv.deep_view()) is None,
        },
{
    if argv.len() < 3 {
        return None;
    }
    let words = chars_of_words(argv);
    match parse_u32_chars(&words[1]) {
        Some(id) => {
            if any_slash_word(&words, 2) {
                let rest = words_from(&words, 2);
                let text = join_chars(&rest, ' ');
                Some(Commands::Edit { id, text: Some(string_of(&text)) })
            } else {
                None
            }
        },
        None => None,
    }
}

/// What the words of a line lead to in task mode, where the line is not one
/// of the shorthands: see [`action_of_words`].
pub fn task_words_action(split: Result<Vec<String>, String>) -> (r: ReplAction)
    ensures
        r@ == action_of_words(words_view(split)),
{
    match split {
        Ok(argv) => {
            if argv.len() == 0 {
                let lines: Vec<String> = Vec::new();
                assert(lines.deep_view() =~= Seq::<Seq<char>>::empty());
                ReplAction::Show(lines)
            } else {
                ReplAction::ParseArguments(argv)
            }
        },
        Err(text) => {
            let body = chars_of(text.as_str());
            ReplAction::ShowError(prefixed("\u{274c} ", &body))
        },
    }
}

/// What the words of a line lead to in project mode: see
/// [`project_action_of_words`].
pub fn project_words_action(split: Result<Vec<String>, String>) -> (r: ReplAction)
    ensures
        r@ == project_action_of_words(words_view(split)),
{
    match split {
        Ok(argv) => {
            if argv.len() == 0 {
                let lines: Vec<String> = Vec::new();
                assert(lines.deep_view() =~= Seq::<Seq<char>>::empty());
                return ReplAction::Show(lines);
            }
            let first = chars_of(argv[0].as_str());
            if same_text(&first, "list") {
                ReplAction::ListProjects
            } else if same_text(&first, "add") {
                ReplAction::AddProject
            } else if same_text(&first, "help") || same_text(&first, "--help") {
                ReplAction::Show(print_project_help())
            } else {
                let mut lines: Vec<String> = Vec::new();
                assert(lines.deep_view() =~= Seq::<Seq<char>>::empty());
                push_string(&mut lines, prefixed("Unknown project command: ", &first));
                append_lines(&mut lines, &print_project_help());
                ReplAction::Show(lines)
            }
        },
        Err(text) => {
            let body = chars_of(text.as_str());
            ReplAction::ShowError(prefixed("\u{274c} ", &body))
        },
    }
}

/// Handles a line in task mode.
///
/// `add title /p high` and `edit 5 /p high` are shorthands: the text behind
/// the command goes to the metadata parser as it stands. Every other line is
/// cut into words for the argument parser.
pub fn handle_task_command(input: &str, _context: &ReplContext) -> (r: ReplAction)
    ensures
        r@ == task_action(input@),
{
    let raw = chars_of(input);
    let line = trimmed(&raw);
    if has_prefix(&line, "add ") && !contains_text(&line, "--") {
        proof {
            reveal_strlit("add ");
        }
        let text = slice_of(&line, 4, line.len());
        if find_char(&text, '/') < text.len() {
            return ReplAction::Run(Commands::Add { parent: None, text: Some(string_of(&text)) });
        }
    }
    if has_prefix(&line, "edit ") && !contains_text(&line, "--") {
        let whole = string_of(&line);
        match split_words(whole.as_str()) {
            Ok(argv) => match edit_from_words(&argv) {
                Some(command) => {
                    return ReplAction::Run(command);
                },
                None => {},
            },
            Err(_) => {},
        }
    }
    task_words_action(split_words(input))
}

/// Handles a line in project mode: its first word is `list`, `add` or
/// `help`; anything else is answered with the summary of the commands.
pub fn handle_project_command(input: &str, _context: &ReplContext) -> (r: ReplAction)
    ensures
        r@ == project_action(input@),
{
    project_words_action(split_words(input))
}

/// The state after a line.
pub open spec fn repl_context(input: Seq<char>, context: ReplContextView) -> ReplContextView {
    let line = trim(input);
    if starts_with(line, "/"@) {
        internal_context(line, context)
    } else {
        context
    }
}

/// What a line leads to in the state `context`.
pub open spec fn repl_action(input: Seq<char>, context: ReplContextView) -> ReplActionView {
    let line = trim(input);
    if starts_with(line, "/"@) {
        internal_action(line, context)
    } else if line.len() == 0 {
        ReplActionView::Show(Seq::empty())
    } else {
        match context.mode {
            Context::Task => task_action(input),
            Context::Project => project_action(input),
        }
    }
}

/// Handles one line of input: changes the state as the line says and returns
/// what is to be done.
pub fn handle_repl_command(input: &str, context: &mut ReplContext) -> (r: ReplAction)
    ensures
        r@ == repl_action(input@, old(context)@),
        final(context)@ == repl_context(input@, old(context)@),
{
    let raw = chars_of(input);
    let line = trimmed(&raw);
    if has_prefix(&line, "/") {
        let command = string_of(&line);
        return handle_internal_command(command.as_str(), context);
    }
    if line.len() == 0 {
        let lines: Vec<String> = Vec::new();
        assert(lines.deep_view() =~= Seq::<Seq<char>>::empty());
        return ReplAction::Show(lines);
    }
    match context.mode {
        Context::Task => handle_task_command(input, context),
        Context::Project => handle_project_command(input, context),
    }
}

/// Only three commands to the prompt change its state by themselves:
/// `/project`, `/task` and `/clear`. Every other line leaves the state as it
/// is, and a command of the current mode always does.
pub proof fn lemma_state_changes(input: Seq<char>, context: ReplContextView)
    ensures
        repl_context(input, context) != context ==> starts_with(trim(input), "/"@) && (first_word(
            trim(input),
        ) == "/project"@ || first_word(trim(input)) == "/task"@ || first_word(trim(input))
            == "/clear"@),
        repl_context(input, context).current_project == context.current_project || repl_context(
            input,
            context,
        ).current_project is None,
{
}

/// The lines that list the projects: identifier and name, and the
/// description below where there is one.
pub open spec fn project_lines(projects: Seq<ProjectView>) -> Seq<Seq<char>>
    decreases projects.len(),
{
    if projects.len() == 0 {
        Seq::empty()
    } else {
        let project = projects.last();
        let entry = "  ["@ + decimal(project.id as nat) + "] "@ + project.name;
        let before = project_lines(projects.drop_last()).push(entry);
        match project.description {
            Some(description) => before.push("      "@ + description),
            None => before,
        }
    }
}

/// What [`ReplAction::ListProjects`] shows for the projects of the store.
pub open spec fn project_list(projects: Seq<ProjectView>) -> Seq<Seq<char>> {
    if projects.len() == 0 {
        seq!["No projects found."@]
    } else {
        seq!["\u{1f4c1} Projects:"@] + project_lines(projects)
    }
}

/// The views of the projects of `projects`, in order.
pub open spec fn project_views(projects: Seq<Project>) -> Seq<ProjectView> {
    Seq::new(projects.len(), |i: int| projects[i]@)
}

/// What [`ReplAction::ListProjects`] shows for the projects of the store.
pub fn project_list_lines(projects: &Vec<Project>) -> (r: Vec<String>)
    ensures
        r.deep_view() == project_list(project_views(projects@)),
{
    let mut r: Vec<String> = Vec::new();
    if projects.len() == 0 {
        push_line(&mut r, "No projects found.");
        return r;
    }
    push_line(&mut r, "\u{1f4c1} Projects:");
    let ghost all = project_views(projects@);
    let mut i: usize = 0;
    while i < projects.len()
        invariant
            i <= projects.len(),
            all == project_views(projects@),
            r.deep_view() == seq!["\u{1f4c1} Projects:"@] + project_lines(all.take(i as int)),
        decreases projects.len() - i,
    {
        let project = &projects[i];
        proof {
            let upto = all.take(i + 1);
            assert(upto.drop_last() =~= all.take(i as int));
        }
        let mut entry = chars_of("  [");
        let id = decimal_chars(project.id as u64);
        append_chars(&mut entry, &id);
        let close = chars_of("] ");
        append_chars(&mut entry, &close);
        let name = chars_of(project.name.as_str());
        append_chars(&mut entry, &name);
        push_string(&mut r, string_of(&entry));
        match &project.description {
            Some(description) => {
                let body = chars_of(description.as_str());
                push_string(&mut r, prefixed("      ", &body));
            },
            None => {},
        }
        i += 1;
    }
    assert(all.take(projects.len() as int) =~= all);
    r
}

/// The line shown once a project is stored.
pub fn project_added_line(project: &Project) -> (r: String)
    ensures
        r@ == "\u{2705} Project added: '"@ + project.name@ + "'"@,
{
    let name = chars_of(project.name.as_str());
    framed("\u{2705} Project added: '", &name, "'")
}

/// The line shown where the store refuses a project because its name is
/// taken.
pub fn project_exists_line(project: &Project) -> (r: String)
    ensures
        r@ == "\u{274c} Project with name '"@ + project.name@ + "' already exists"@,
{
    let name = chars_of(project.name.as_str());
    framed("\u{274c} Project with name '", &name, "' already exists")
}

/// Whether the store's error message says that a name is taken.
pub fn is_duplicate_name(message: &str) -> (r: bool)
    ensures
        r == has_text(message@, "UNIQUE constraint failed"@),
{
    let text = chars_of(message);
    contains_text(&text, "UNIQUE constraint failed")
}

/// The line shown where the editor did not end well; the command ends there,
/// without effect and without error.
pub fn editor_failed_line() -> (r: String)
    ensures
        r@ == "\u{274c} Editor exited with non-zero status"@,
{
    "\u{274c} Editor exited with non-zero status".to_owned()
}

/// What the store's answer to the insert of a project leads to: `failure`
/// is the store's error message, if it refused. A new project and a name
/// that is taken are both answered with a line to show; any other failure
/// is the command's error.
pub open spec fn insert_outcome(name: Seq<char>, failure: Option<Seq<char>>) -> Result<
    Seq<char>,
    Seq<char>,
> {
    match failure {
        None => Ok("\u{2705} Project added: '"@ + name + "'"@),
        Some(message) => if has_text(message, "UNIQUE constraint failed"@) {
            Ok("\u{274c} Project with name '"@ + name + "' already exists"@)
        } else {
            Err(message)
        },
    }
}

/// What the store's answer to the insert of a project leads to: see
/// [`insert_outcome`].
pub fn project_inserted(project: &Project, failure: Option<String>) -> (r: Result<String, String>)
    ensures
        crate::text::result_view(r) == insert_outcome(project.name@, failure.deep_view()),
{
    match failure {
        None => Ok(project_added_line(project)),
        Some(message) => {
            if is_duplicate_name(message.as_str()) {
                Ok(project_exists_line(project))
            } else {
                Err(message)
            }
        },
    }
}

} // verus!
