use clara::project::Project;
use clara::record::{ProjectRow, TaskRow};
use clara::session::{
    error_line, farewell_lines, session_step, welcome_lines, ExitReason, ReplEvent, SessionStep,
};
use clara::repl::{Context, ReplAction, ReplContext};
use clara::task::{Priority, Status, Task, ValidationError};

fn sample_task() -> Task {
    Task {
        id: 7,
        title: "Write \"the\" report".to_string(),
        status: Status::InProgress,
        priority: Priority::High,
        tags: vec!["work".to_string(), "a,b".to_string(), "q\"\\".to_string()],
        due_date: Some(1_000),
        parent_id: Some(3),
        project_id: None,
        created_at: 10,
        updated_at: 20,
        completed_at: None,
    }
}

#[test]
fn task_is_written_as_a_row() {
    let row = sample_task().to_row();
    assert_eq!(
        row,
        TaskRow {
            id: 7,
            title: "Write \"the\" report".to_string(),
            status: "doing".to_string(),
            priority: "high".to_string(),
            tags: "[\"work\",\"a,b\",\"q\\\"\\\\\"]".to_string(),
            due_date: Some(1_000),
            parent_id: Some(3),
            project_id: None,
            created_at: 10,
            updated_at: 20,
            completed_at: None,
        }
    );
}

#[test]
fn task_survives_the_row() {
    let task = sample_task();
    assert_eq!(Task::from_row(&task.to_row()), Ok(task));
    let mut done = sample_task();
    done.mark_done(99);
    done.tags = Vec::new();
    assert_eq!(done.to_row().tags, "[]");
    assert_eq!(Task::from_row(&done.to_row()), Ok(done));
}

#[test]
fn row_with_unknown_words() {
    let mut row = sample_task().to_row();
    row.status = "paused".to_string();
    row.tags = "not json".to_string();
    let task = Task::from_row(&row).unwrap();
    assert_eq!(task.status, Status::Todo);
    assert!(task.tags.is_empty());
    row.tags = "[1, 2]".to_string();
    assert!(Task::from_row(&row).unwrap().tags.is_empty());
    row.tags = " [ \"x\" ] ".to_string();
    assert_eq!(Task::from_row(&row).unwrap().tags, vec!["x"]);
    row.priority = "1".to_string();
    assert_eq!(Task::from_row(&row), Err(ValidationError::InvalidPriority("1".to_string())));
}

#[test]
fn project_row_carries_the_extra_fields_as_they_are() {
    let row = ProjectRow {
        id: 2,
        name: "home".to_string(),
        description: Some("chores".to_string()),
        created_at: 1,
        updated_at: 2,
        extras: Some(" { \"color\" : \"red\" } ".to_string()),
    };
    let project = Project::from_row(&row);
    assert_eq!(
        project,
        Project {
            id: 2,
            name: "home".to_string(),
            description: Some("chores".to_string()),
            created_at: 1,
            updated_at: 2,
            extras: Some(" { \"color\" : \"red\" } ".to_string()),
        }
    );
    assert_eq!(project.to_row(), row);
}

#[test]
fn task_in_one_line() {
    let mut task = sample_task();
    task.title = "Write clara repl".to_string();
    assert_eq!(
        task.to_string(),
        "Task ID: 7, Title: Write clara repl, Status: InProgress, Created At: 10"
    );
    task.status = Status::Todo;
    task.created_at = -5;
    assert_eq!(task.to_string(), "Task ID: 7, Title: Write clara repl, Status: Todo, Created At: -5");
    task.status = Status::Done;
    assert!(task.to_string().contains("Status: Done"));
}

#[test]
fn session_begins_and_ends_with_words() {
    assert_eq!(
        welcome_lines(),
        vec![
            "\u{1f3af} Clara Task Manager REPL",
            "Type '/help' for available commands or '/quit' to exit.",
        ]
    );
    assert_eq!(error_line("Task title cannot be empty"), "Error: Task title cannot be empty");
    assert_eq!(farewell_lines(ExitReason::Command), vec!["Goodbye! \u{1f44b}"]);
    assert_eq!(farewell_lines(ExitReason::Error), vec!["Goodbye! \u{1f44b}"]);
    assert_eq!(farewell_lines(ExitReason::Interrupted), vec!["^C", "Goodbye! \u{1f44b}"]);
    assert_eq!(farewell_lines(ExitReason::Eof), vec!["^D", "Goodbye! \u{1f44b}"]);
}

#[test]
fn blank_lines_are_skipped() {
    let mut context = ReplContext::new();
    assert!(matches!(session_step(ReplEvent::Line("  \t".to_string()), &mut context), SessionStep::Skip));
    assert!(matches!(session_step(ReplEvent::Line(String::new()), &mut context), SessionStep::Skip));
}

#[test]
fn lines_are_trimmed_remembered_and_handled() {
    let mut context = ReplContext::new();
    match session_step(ReplEvent::Line("  /project ".to_string()), &mut context) {
        SessionStep::Handle { entry, action } => {
            assert_eq!(entry, "/project");
            assert!(matches!(action, ReplAction::Show(_)));
        }
        other => panic!("unexpected step {:?}", other),
    }
    assert_eq!(context.mode, Context::Project);
}

#[test]
fn quit_interrupt_end_and_failure_stop_the_session() {
    let mut context = ReplContext::new();
    match session_step(ReplEvent::Line(" /quit".to_string()), &mut context) {
        SessionStep::Stop { last_entry: entry, error, reason } => {
            assert_eq!(entry, Some("/quit".to_string()));
            assert_eq!(error, None);
            assert_eq!(reason, ExitReason::Command);
        }
        other => panic!("unexpected step {:?}", other),
    }
    match session_step(ReplEvent::Interrupted, &mut context) {
        SessionStep::Stop { last_entry: entry, error, reason } => {
            assert_eq!((entry, error, reason), (None, None, ExitReason::Interrupted));
        }
        other => panic!("unexpected step {:?}", other),
    }
    match session_step(ReplEvent::Eof, &mut context) {
        SessionStep::Stop { last_entry: entry, error, reason } => {
            assert_eq!((entry, error, reason), (None, None, ExitReason::Eof));
        }
        other => panic!("unexpected step {:?}", other),
    }
    match session_step(ReplEvent::Failed("Io(broken)".to_string()), &mut context) {
        SessionStep::Stop { last_entry: entry, error, reason } => {
            assert_eq!(entry, None);
            assert_eq!(error, Some("Error: Io(broken)".to_string()));
            assert_eq!(reason, ExitReason::Error);
        }
        other => panic!("unexpected step {:?}", other),
    }
}

#[test]
fn row_follows_what_reading_and_writing_the_tags_gave() {
    let task = sample_task();
    let row = task.to_row_with(None);
    assert_eq!(row.tags, "[]");
    assert_eq!(row.status, "doing");
    let row = task.to_row_with(Some("[\"x\"]".to_string()));
    assert_eq!(row.tags, "[\"x\"]");
    let read = Task::from_row_with(&row, None).unwrap();
    assert!(read.tags.is_empty());
    assert_eq!(read.title, task.title);
    let read = Task::from_row_with(&row, Some(vec!["y".to_string()])).unwrap();
    assert_eq!(read.tags, vec!["y"]);
    let mut bad = row.clone();
    bad.priority = "top".to_string();
    assert_eq!(
        Task::from_row_with(&bad, Some(Vec::new())),
        Err(ValidationError::InvalidPriority("top".to_string()))
    );
}
