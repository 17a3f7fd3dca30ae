use clara::cli::Commands;
use clara::project::Project;
use clara::repl::{
    edit_from_words, editor_failed_line, handle_internal_command, handle_project_command, handle_repl_command,
    handle_task_command, is_duplicate_name, print_project_commands, print_project_help,
    print_repl_help, print_task_commands, print_task_help, project_added_line,
    project_exists_line, project_inserted, project_list_lines, project_words_action, split_words,
    task_words_action, use_project, Context, ReplAction, ReplContext,
};

fn project(id: u32, name: &str, description: Option<&str>) -> Project {
    Project {
        id,
        name: name.to_string(),
        description: description.map(|s| s.to_string()),
        created_at: 1,
        updated_at: 1,
        extras: None,
    }
}

fn shown(action: ReplAction) -> Vec<String> {
    match action {
        ReplAction::Show(lines) => lines,
        other => panic!("expected lines to show, got {:?}", other),
    }
}

fn words(items: &[&str]) -> Vec<String> {
    items.iter().map(|s| s.to_string()).collect()
}

#[test]
fn session_starts_in_task_mode_without_project() {
    let context = ReplContext::new();
    assert_eq!(context.mode, Context::Task);
    assert!(context.current_project.is_none());
    assert_eq!(context.get_prompt(), "task > ");
}

#[test]
fn prompt_shows_mode_and_project() {
    let mut context = ReplContext::new();
    context.set_current_project(Some(project(1, "home", None)));
    assert_eq!(context.get_prompt(), "task@home > ");
    context.switch_to_project_mode();
    assert_eq!(context.mode, Context::Project);
    assert_eq!(context.get_prompt(), "project > ");
    assert_eq!(context.current_project, Some(project(1, "home", None)));
    context.switch_to_task_mode();
    assert_eq!(context.mode, Context::Task);
    context.set_current_project(None);
    assert_eq!(context.get_prompt(), "task > ");
}

#[test]
fn quit_ends_the_session() {
    let mut context = ReplContext::new();
    let action = handle_repl_command("  /quit  ", &mut context);
    assert!(matches!(action, ReplAction::Quit));
    assert!(!action.continues());
    assert!(ReplAction::Show(Vec::new()).continues());
}

#[test]
fn empty_line_does_nothing() {
    let mut context = ReplContext::new();
    assert_eq!(shown(handle_repl_command("   ", &mut context)), Vec::<String>::new());
    assert_eq!(shown(handle_repl_command("", &mut context)), Vec::<String>::new());
    assert_eq!(context.mode, Context::Task);
}

#[test]
fn project_and_task_switch_the_mode_and_keep_the_project() {
    let mut context = ReplContext::new();
    context.set_current_project(Some(project(1, "home", None)));
    let lines = shown(handle_repl_command("/project", &mut context));
    assert_eq!(lines, vec!["Switched to project mode. Use '/task' to switch back."]);
    assert_eq!(context.mode, Context::Project);
    assert!(context.current_project.is_some());
    let lines = shown(handle_repl_command("/task extra words", &mut context));
    assert_eq!(lines, vec!["Switched to task mode. Use '/project' to switch to project mode."]);
    assert_eq!(context.mode, Context::Task);
    assert!(context.current_project.is_some());
}

#[test]
fn clear_drops_the_project_and_enters_task_mode() {
    let mut context = ReplContext::new();
    context.set_current_project(Some(project(1, "home", None)));
    context.switch_to_project_mode();
    let lines = shown(handle_repl_command("/clear", &mut context));
    assert_eq!(lines, vec!["Cleared project context. Now in global task mode."]);
    assert_eq!(context.mode, Context::Task);
    assert!(context.current_project.is_none());
}

#[test]
fn use_asks_the_store_for_the_project() {
    let mut context = ReplContext::new();
    context.switch_to_project_mode();
    match handle_repl_command("/use   home  and more", &mut context) {
        ReplAction::FindProject(name) => assert_eq!(name, "home"),
        other => panic!("unexpected action {:?}", other),
    }
    assert_eq!(context.mode, Context::Project);
    let lines = shown(handle_repl_command("/use", &mut context));
    assert_eq!(lines, vec!["Usage: /use <project_name>"]);
    let lines = shown(handle_repl_command("/use   ", &mut context));
    assert_eq!(lines, vec!["Usage: /use <project_name>"]);
}

#[test]
fn use_of_an_unknown_project_changes_nothing() {
    let mut context = ReplContext::new();
    context.set_current_project(Some(project(1, "home", None)));
    context.switch_to_project_mode();
    let lines = use_project(&mut context, "unknownproject", None);
    assert_eq!(
        lines,
        vec!["Project 'unknownproject' not found. Use 'project list' to see available projects."]
    );
    assert_eq!(context.mode, Context::Project);
    assert_eq!(context.current_project, Some(project(1, "home", None)));
}

#[test]
fn use_of_a_real_project_sets_it_and_enters_task_mode() {
    let mut context = ReplContext::new();
    context.switch_to_project_mode();
    let lines = use_project(&mut context, "realproject", Some(project(4, "realproject", None)));
    assert_eq!(lines, vec!["Switched to project: realproject"]);
    assert_eq!(context.mode, Context::Task);
    assert_eq!(context.current_project, Some(project(4, "realproject", None)));
    assert_eq!(context.get_prompt(), "task@realproject > ");
}

#[test]
fn unknown_command_to_the_prompt_is_answered() {
    let mut context = ReplContext::new();
    let lines = shown(handle_repl_command(" /bogus now ", &mut context));
    assert_eq!(
        lines,
        vec![
            "Unknown REPL command: /bogus now",
            "Available commands: /help, /quit, /project, /task, /use <project>, /clear",
        ]
    );
    assert_eq!(context.mode, Context::Task);
    let lines = shown(handle_internal_command("/helpme", &mut context));
    assert_eq!(lines[0], "Unknown REPL command: /helpme");
}

#[test]
fn help_lists_the_commands_of_the_mode() {
    let mut context = ReplContext::new();
    let lines = shown(handle_repl_command("/help", &mut context));
    assert_eq!(lines.len(), 8 + 1 + 15 + 2);
    assert_eq!(lines[0], "Available REPL commands:");
    assert_eq!(lines[7], "");
    assert_eq!(lines[8], "Task commands (global mode):");
    assert_eq!(lines[9], "  add                      - Add a new task (opens editor)");
    assert_eq!(lines[25], "Use any command followed by --help for detailed usage.");
    assert_eq!(lines, print_repl_help(&context));

    context.set_current_project(Some(project(1, "home", None)));
    let lines = print_repl_help(&context);
    assert_eq!(lines[8], "Task commands (in project: home):");

    context.switch_to_project_mode();
    let lines = print_repl_help(&context);
    assert_eq!(lines.len(), 8 + 5 + 2);
    assert_eq!(lines[8], "Project commands:");
    assert_eq!(lines[12], "  remove <id>          - Remove a project");
    assert_eq!(lines[13], "");
}

#[test]
fn help_texts() {
    assert_eq!(print_task_commands().len(), 15);
    assert_eq!(print_task_commands()[14], "  /est <estimate>  - Set time estimate");
    assert_eq!(print_project_commands().len(), 5);
    let help = print_task_help();
    assert_eq!(help.len(), 18);
    assert_eq!(help[0], "Available task commands:");
    assert_eq!(help[16], "");
    let help = print_project_help();
    assert_eq!(help.len(), 8);
    assert_eq!(help[0], "Available project commands:");
    assert_eq!(help[1], "Project commands:");
    assert_eq!(help[7], "Use any command followed by --help for detailed usage.");
}

#[test]
fn add_with_slash_metadata_is_a_shorthand() {
    let context = ReplContext::new();
    match handle_task_command("  add Fix bug /p high /tag work ", &context) {
        ReplAction::Run(Commands::Add { parent, text }) => {
            assert_eq!(parent, None);
            assert_eq!(text, Some("Fix bug /p high /tag work".to_string()));
        },
        other => panic!("unexpected action {:?}", other),
    }
}

#[test]
fn add_without_slash_or_with_flags_goes_to_the_argument_parser() {
    let context = ReplContext::new();
    match handle_task_command("add \"Fix bug\"", &context) {
        ReplAction::ParseArguments(argv) => assert_eq!(argv, words(&["add", "Fix bug"])),
        other => panic!("unexpected action {:?}", other),
    }
    match handle_task_command("add --parent 3 'Fix /p high'", &context) {
        ReplAction::ParseArguments(argv) => {
            assert_eq!(argv, words(&["add", "--parent", "3", "Fix /p high"]))
        },
        other => panic!("unexpected action {:?}", other),
    }
    match handle_task_command("list", &context) {
        ReplAction::ParseArguments(argv) => assert_eq!(argv, words(&["list"])),
        other => panic!("unexpected action {:?}", other),
    }
}

#[test]
fn edit_with_slash_metadata_is_a_shorthand() {
    let context = ReplContext::new();
    match handle_task_command("edit 5 /p urgent", &context) {
        ReplAction::Run(Commands::Edit { id, text }) => {
            assert_eq!(id, 5);
            assert_eq!(text, Some("/p urgent".to_string()));
        },
        other => panic!("unexpected action {:?}", other),
    }
    match handle_task_command("edit 5 \"New title\"   /p urgent", &context) {
        ReplAction::Run(Commands::Edit { id, text }) => {
            assert_eq!(id, 5);
            assert_eq!(text, Some("New title /p urgent".to_string()));
        },
        other => panic!("unexpected action {:?}", other),
    }
    match handle_task_command("edit 5 x a/b", &context) {
        ReplAction::Run(Commands::Edit { id, text }) => {
            assert_eq!(id, 5);
            assert_eq!(text, Some("x a/b".to_string()));
        },
        other => panic!("unexpected action {:?}", other),
    }
}

#[test]
fn edit_without_identifier_or_slash_goes_to_the_argument_parser() {
    let context = ReplContext::new();
    match handle_task_command("edit five /p urgent", &context) {
        ReplAction::ParseArguments(argv) => {
            assert_eq!(argv, words(&["edit", "five", "/p", "urgent"]))
        },
        other => panic!("unexpected action {:?}", other),
    }
    match handle_task_command("edit 5 title", &context) {
        ReplAction::ParseArguments(argv) => assert_eq!(argv, words(&["edit", "5", "title"])),
        other => panic!("unexpected action {:?}", other),
    }
    match handle_task_command("edit 5", &context) {
        ReplAction::ParseArguments(argv) => assert_eq!(argv, words(&["edit", "5"])),
        other => panic!("unexpected action {:?}", other),
    }
}

#[test]
fn unclosed_quote_is_shown_as_an_error() {
    let context = ReplContext::new();
    match handle_task_command("done \"5", &context) {
        ReplAction::ShowError(line) => assert_eq!(line, "\u{274c} missing closing quote"),
        other => panic!("unexpected action {:?}", other),
    }
    match handle_task_command("edit 5 '/p high", &context) {
        ReplAction::ShowError(line) => assert_eq!(line, "\u{274c} missing closing quote"),
        other => panic!("unexpected action {:?}", other),
    }
    match handle_project_command("list 'x", &context) {
        ReplAction::ShowError(line) => assert_eq!(line, "\u{274c} missing closing quote"),
        other => panic!("unexpected action {:?}", other),
    }
}

#[test]
fn line_of_comment_only_does_nothing() {
    let context = ReplContext::new();
    assert_eq!(shown(handle_task_command("# nothing", &context)), Vec::<String>::new());
    assert_eq!(shown(handle_project_command("# nothing", &context)), Vec::<String>::new());
}

#[test]
fn project_mode_knows_list_add_and_help() {
    let mut context = ReplContext::new();
    context.switch_to_project_mode();
    assert!(matches!(handle_repl_command("list", &mut context), ReplAction::ListProjects));
    assert!(matches!(handle_repl_command(" add now", &mut context), ReplAction::AddProject));
    assert_eq!(shown(handle_repl_command("help", &mut context)), print_project_help());
    assert_eq!(shown(handle_repl_command("--help", &mut context)), print_project_help());
    let lines = shown(handle_repl_command("remove 3", &mut context));
    assert_eq!(lines[0], "Unknown project command: remove");
    assert_eq!(lines[1..].to_vec(), print_project_help());
    assert_eq!(context.mode, Context::Project);
}

#[test]
fn lines_are_dispatched_by_mode() {
    let mut context = ReplContext::new();
    match handle_repl_command("list", &mut context) {
        ReplAction::ParseArguments(argv) => assert_eq!(argv, words(&["list"])),
        other => panic!("unexpected action {:?}", other),
    }
    match handle_repl_command("add T /p low", &mut context) {
        ReplAction::Run(Commands::Add { parent, text }) => {
            assert_eq!(parent, None);
            assert_eq!(text, Some("T /p low".to_string()));
        },
        other => panic!("unexpected action {:?}", other),
    }
}

#[test]
fn projects_are_listed_with_their_descriptions() {
    assert_eq!(project_list_lines(&Vec::new()), vec!["No projects found."]);
    let projects = vec![
        project(1, "home", Some("chores")),
        project(12, "work", None),
        project(3, "zoo", Some("")),
    ];
    assert_eq!(
        project_list_lines(&projects),
        vec![
            "\u{1f4c1} Projects:",
            "  [1] home",
            "      chores",
            "  [12] work",
            "  [3] zoo",
            "      ",
        ]
    );
}

#[test]
fn lines_about_a_new_project() {
    let p = project(0, "home", None);
    assert_eq!(project_added_line(&p), "\u{2705} Project added: 'home'");
    assert_eq!(project_exists_line(&p), "\u{274c} Project with name 'home' already exists");
    assert!(is_duplicate_name("UNIQUE constraint failed: projects.name"));
    assert!(!is_duplicate_name("disk I/O error"));
}

#[test]
fn words_are_cut_by_the_rules_of_the_shell() {
    assert_eq!(split_words("edit 5 \"New title\" /p high"), Ok(words(&["edit", "5", "New title", "/p", "high"])));
    assert_eq!(split_words("a 'b c' d\\ e # rest"), Ok(words(&["a", "b c", "d e"])));
    assert_eq!(split_words("  "), Ok(Vec::new()));
    assert_eq!(split_words("say 'hello"), Err("missing closing quote".to_string()));
}

#[test]
fn edit_shorthand_needs_identifier_and_slash() {
    assert_eq!(
        edit_from_words(&words(&["edit", "5", "New title", "/p", "high"])),
        Some(Commands::Edit { id: 5, text: Some("New title /p high".to_string()) })
    );
    assert_eq!(
        edit_from_words(&words(&["anything", "+7", "a/b"])),
        Some(Commands::Edit { id: 7, text: Some("a/b".to_string()) })
    );
    assert_eq!(edit_from_words(&words(&["edit", "5"])), None);
    assert_eq!(edit_from_words(&words(&["edit", "5", "title"])), None);
    assert_eq!(edit_from_words(&words(&["edit", "x", "/p", "high"])), None);
    assert_eq!(edit_from_words(&words(&["edit", "/5", "title"])), None);
    assert_eq!(edit_from_words(&Vec::new()), None);
}

#[test]
fn words_lead_to_actions() {
    match task_words_action(Ok(words(&["done", "5"]))) {
        ReplAction::ParseArguments(argv) => assert_eq!(argv, words(&["done", "5"])),
        other => panic!("unexpected action {:?}", other),
    }
    assert_eq!(shown(task_words_action(Ok(Vec::new()))), Vec::<String>::new());
    match task_words_action(Err("bad quote".to_string())) {
        ReplAction::ShowError(line) => assert_eq!(line, "\u{274c} bad quote"),
        other => panic!("unexpected action {:?}", other),
    }
    assert!(matches!(project_words_action(Ok(words(&["list"]))), ReplAction::ListProjects));
    assert!(matches!(project_words_action(Ok(words(&["add", "x"]))), ReplAction::AddProject));
    assert_eq!(shown(project_words_action(Ok(words(&["help"])))), print_project_help());
    assert_eq!(shown(project_words_action(Ok(Vec::new()))), Vec::<String>::new());
    assert_eq!(shown(project_words_action(Ok(words(&["ls"]))))[0], "Unknown project command: ls");
    match project_words_action(Err("bad quote".to_string())) {
        ReplAction::ShowError(line) => assert_eq!(line, "\u{274c} bad quote"),
        other => panic!("unexpected action {:?}", other),
    }
}

#[test]
fn insert_of_a_project_leads_to_a_line_or_an_error() {
    let p = project(0, "home", None);
    assert_eq!(project_inserted(&p, None), Ok("\u{2705} Project added: 'home'".to_string()));
    assert_eq!(
        project_inserted(&p, Some("UNIQUE constraint failed: projects.name".to_string())),
        Ok("\u{274c} Project with name 'home' already exists".to_string())
    );
    assert_eq!(
        project_inserted(&p, Some("disk I/O error".to_string())),
        Err("disk I/O error".to_string())
    );
    assert_eq!(editor_failed_line(), "\u{274c} Editor exited with non-zero status");
}
