use clara::metadata::{parse_segment, parse_slash_metadata, MetadataField, TaskMetadata};
use clara::task::{Priority, TaskDraft};

#[test]
fn test_parse_simple_title() {
    let result = parse_slash_metadata("Fix the bug").unwrap();
    assert_eq!(result.title, "Fix the bug");
    assert_eq!(result.priority, None);
    assert_eq!(result.tags, Vec::<String>::new());
}

#[test]
fn test_parse_with_priority() {
    let result = parse_slash_metadata("Fix the bug /p high").unwrap();
    assert_eq!(result.title, "Fix the bug");
    assert_eq!(result.priority, Some("high".to_string()));
}

#[test]
fn test_parse_priority_variations() {
    let result1 = parse_slash_metadata("Task /p low").unwrap();
    assert_eq!(result1.priority, Some("low".to_string()));

    let result2 = parse_slash_metadata("Task /p medium").unwrap();
    assert_eq!(result2.priority, Some("medium".to_string()));

    let result3 = parse_slash_metadata("Task /p high").unwrap();
    assert_eq!(result3.priority, Some("high".to_string()));

    let result4 = parse_slash_metadata("Task /p urgent").unwrap();
    assert_eq!(result4.priority, Some("urgent".to_string()));

    let result5 = parse_slash_metadata("Task /priority urgent").unwrap();
    assert_eq!(result5.priority, Some("urgent".to_string()));
}

#[test]
fn test_parse_with_tags() {
    let result = parse_slash_metadata("Fix the bug /tag work,urgent").unwrap();
    assert_eq!(result.title, "Fix the bug");
    assert_eq!(result.tags, vec!["work", "urgent"]);
}

#[test]
fn test_parse_multiple_metadata() {
    let result =
        parse_slash_metadata("Prepare slides /p 1 /due 2025-08-10 /tag work,presentation /est 2h")
            .unwrap();
    assert_eq!(result.title, "Prepare slides");
    assert_eq!(result.priority, Some("1".to_string()));
    assert_eq!(result.tags, vec!["work", "presentation"]);
    assert_eq!(result.estimate, Some("2h".to_string()));
    assert!(result.due_date.is_some());
}

#[test]
fn test_parse_with_parent() {
    let result = parse_slash_metadata("Subtask /parent 5").unwrap();
    assert_eq!(result.title, "Subtask");
    assert_eq!(result.parent, Some(5));
}

#[test]
fn test_full_task_creation_with_priority() {
    // Parse metadata
    let metadata = parse_slash_metadata("Test task /p high").unwrap();

    // Create TaskDraft
    let mut draft = TaskDraft::new();
    draft.title = metadata.title;
    if let Some(priority) = metadata.priority {
        draft.priority = priority;
    }

    // Convert to Task
    let task = draft.to_task().unwrap();

    // Check the priority was set correctly
    assert_eq!(task.title, "Test task");

    // The priority should be High, not Medium (the default)
    match task.priority {
        Priority::High => assert!(true),
        other => panic!("Expected Priority::High, got {:?}", other),
    }
}

#[test]
fn test_edit_metadata_only() {
    // Test parsing metadata-only for edit command (starts with /)
    let dummy_input = format!("DUMMY_TITLE {}", "/p urgent /tag critical");
    let metadata = parse_slash_metadata(&dummy_input).unwrap();

    assert_eq!(metadata.title, "DUMMY_TITLE");
    assert_eq!(metadata.priority, Some("urgent".to_string()));
    assert_eq!(metadata.tags, vec!["critical"]);
}

#[test]
fn test_edit_title_and_metadata() {
    // Test parsing title + metadata for edit command
    let metadata = parse_slash_metadata("New task title /p high /tag updated").unwrap();

    assert_eq!(metadata.title, "New task title");
    assert_eq!(metadata.priority, Some("high".to_string()));
    assert_eq!(metadata.tags, vec!["updated"]);
}

#[test]
fn new_metadata_holds_only_the_title() {
    let m = TaskMetadata::new("Write report".to_string());
    assert_eq!(m.title, "Write report");
    assert_eq!(m.priority, None);
    assert_eq!(m.due_date, None);
    assert!(m.tags.is_empty());
    assert_eq!(m.estimate, None);
    assert_eq!(m.parent, None);
}

#[test]
fn title_is_what_stands_before_the_first_slash_trimmed() {
    let m = parse_slash_metadata("  \tPlan trip \u{a0} /p low / /est 3d").unwrap();
    assert_eq!(m.title, "Plan trip");
    assert_eq!(m.priority, Some("low".to_string()));
    assert_eq!(m.estimate, Some("3d".to_string()));
}

#[test]
fn segment_without_value_is_a_format_error() {
    let e = parse_slash_metadata("Title /p").unwrap_err();
    assert_eq!(e, "Invalid metadata format: /p");
    let e = parse_slash_metadata("Title /p   /tag a").unwrap_err();
    assert_eq!(e, "Invalid metadata format: /p");
}

#[test]
fn unknown_key_is_an_unknown_key_error() {
    let e = parse_slash_metadata("Title /bogus x").unwrap_err();
    assert_eq!(e, "Unknown metadata key: bogus");
}

#[test]
fn empty_title_is_refused() {
    assert_eq!(parse_slash_metadata("").unwrap_err(), "Task title cannot be empty");
    assert_eq!(parse_slash_metadata("   ").unwrap_err(), "Task title cannot be empty");
    assert_eq!(parse_slash_metadata("/p high").unwrap_err(), "Task title cannot be empty");
    assert_eq!(parse_slash_metadata("  /bogus").unwrap_err(), "Task title cannot be empty");
}

#[test]
fn parent_must_be_an_unsigned_number() {
    assert_eq!(parse_slash_metadata("T /parent x5").unwrap_err(), "Invalid parent ID: x5");
    assert_eq!(parse_slash_metadata("T /parent -5").unwrap_err(), "Invalid parent ID: -5");
    assert_eq!(
        parse_slash_metadata("T /parent 4294967296").unwrap_err(),
        "Invalid parent ID: 4294967296"
    );
    assert_eq!(parse_slash_metadata("T /parent  5").unwrap_err(), "Invalid parent ID:  5");
    assert_eq!(parse_slash_metadata("T /parent 4294967295").unwrap().parent, Some(4294967295));
    assert_eq!(parse_slash_metadata("T /parent +7").unwrap().parent, Some(7));
    assert_eq!(parse_slash_metadata("T /parent 007").unwrap().parent, Some(7));
}

#[test]
fn later_keys_overwrite_earlier_ones() {
    let m = parse_slash_metadata("T /p low /tag a,b /p high /tags c /parent 1 /parent 2").unwrap();
    assert_eq!(m.priority, Some("high".to_string()));
    assert_eq!(m.tags, vec!["c"]);
    assert_eq!(m.parent, Some(2));
}

#[test]
fn first_error_from_the_left_wins() {
    let e = parse_slash_metadata("T /bogus x /p").unwrap_err();
    assert_eq!(e, "Unknown metadata key: bogus");
    let e = parse_slash_metadata("T /p /bogus x").unwrap_err();
    assert_eq!(e, "Invalid metadata format: /p");
    let e = parse_slash_metadata("T /due nonsense /bogus x").unwrap_err();
    assert_eq!(e, "Invalid date format: nonsense. Use YYYY-MM-DD, MM/DD/YYYY, or MM-DD");
}

#[test]
fn tags_are_trimmed_and_empty_ones_dropped() {
    let m = parse_slash_metadata("T /tag  work , ,urgent,,  home  ").unwrap();
    assert_eq!(m.tags, vec!["work", "urgent", "home"]);
    let m = parse_slash_metadata("T /tag ,").unwrap();
    assert!(m.tags.is_empty());
    let m = parse_slash_metadata("T /tag a,a").unwrap();
    assert_eq!(m.tags, vec!["a", "a"]);
}

#[test]
fn key_and_value_are_cut_at_the_first_white_space() {
    let m = parse_slash_metadata("T /p\thigh").unwrap();
    assert_eq!(m.priority, Some("high".to_string()));
    let m = parse_slash_metadata("T /est  2 h").unwrap();
    assert_eq!(m.estimate, Some(" 2 h".to_string()));
}

#[test]
fn segments_are_read_one_by_one() {
    assert!(parse_segment("   ").unwrap().is_none());
    match parse_segment(" p high ").unwrap() {
        Some(MetadataField::Priority(v)) => assert_eq!(v, "high"),
        other => panic!("unexpected field {:?}", other),
    }
    match parse_segment("due 2025-08-10").unwrap() {
        Some(MetadataField::Due(v)) => assert_eq!(v, "2025-08-10"),
        other => panic!("unexpected field {:?}", other),
    }
    match parse_segment("tags a, b").unwrap() {
        Some(MetadataField::Tags(v)) => assert_eq!(v, vec!["a", "b"]),
        other => panic!("unexpected field {:?}", other),
    }
    match parse_segment("estimate 2h").unwrap() {
        Some(MetadataField::Estimate(v)) => assert_eq!(v, "2h"),
        other => panic!("unexpected field {:?}", other),
    }
    match parse_segment("parent 12").unwrap() {
        Some(MetadataField::Parent(v)) => assert_eq!(v, 12),
        other => panic!("unexpected field {:?}", other),
    }
    assert_eq!(parse_segment("P high").unwrap_err(), "Unknown metadata key: P");
    assert_eq!(parse_segment("due").unwrap_err(), "Invalid metadata format: /due");
}

#[test]
fn line_written_back_reads_the_same() {
    let first = parse_slash_metadata("  Fix the bug / p  high /tag work , ,urgent / /parent +05 /est 2 h ")
        .unwrap();
    let again = parse_slash_metadata("Fix the bug/p  high/tag work,urgent/ /parent 5/est 2 h").unwrap();
    assert_eq!(first.title, again.title);
    assert_eq!(first.priority, again.priority);
    assert_eq!(first.tags, again.tags);
    assert_eq!(first.estimate, again.estimate);
    assert_eq!(first.parent, again.parent);
    assert_eq!(first.due_date, again.due_date);
    assert_eq!(again.title, "Fix the bug");
    assert_eq!(again.priority, Some(" high".to_string()));
    assert_eq!(again.tags, vec!["work", "urgent"]);
    assert_eq!(again.parent, Some(5));
    assert_eq!(again.estimate, Some("2 h".to_string()));

    let empty = parse_slash_metadata("T /tag a /tag ,").unwrap();
    assert!(empty.tags.is_empty());
    let same = parse_slash_metadata("T/tag a/tag ,").unwrap();
    assert!(same.tags.is_empty());
}
