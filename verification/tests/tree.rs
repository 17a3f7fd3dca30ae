use clara::project::Project;
use clara::repl::ReplContext;
use clara::task::{Priority, Status, Task};
use clara::tree::{
    build_tree_prefix, find_children, find_root_tasks, get_task_display_info, print_task_tree,
    project_names, render_task_line, task_list_lines,
};
use std::collections::HashMap;

fn project(id: u32, name: &str) -> Project {
    Project {
        id,
        name: name.to_string(),
        description: None,
        created_at: 1,
        updated_at: 1,
        extras: None,
    }
}

fn task(id: u32, title: &str, parent: Option<u32>, project: Option<u32>) -> Task {
    Task {
        id,
        title: title.to_string(),
        status: Status::Todo,
        priority: Priority::Medium,
        tags: Vec::new(),
        due_date: None,
        parent_id: parent,
        project_id: project,
        created_at: 1,
        updated_at: 1,
        completed_at: None,
    }
}

#[test]
fn root_has_no_prefix() {
    assert_eq!(build_tree_prefix(0, false, &vec![]), (String::new(), ""));
    assert_eq!(build_tree_prefix(0, true, &vec![true]), (String::new(), ""));
}

#[test]
fn depth_one_has_only_the_branch() {
    assert_eq!(build_tree_prefix(1, false, &vec![]), (String::new(), "\u{251c}\u{2500} "));
    assert_eq!(build_tree_prefix(1, true, &vec![]), (String::new(), "\u{2514}\u{2500} "));
}

#[test]
fn deeper_levels_have_one_column_for_each_ancestor() {
    assert_eq!(
        build_tree_prefix(3, false, &vec![false, true]),
        ("\u{2502}     ".to_string(), "\u{251c}\u{2500} ")
    );
    assert_eq!(
        build_tree_prefix(3, true, &vec![true, false]),
        ("   \u{2502}  ".to_string(), "\u{2514}\u{2500} ")
    );
    assert_eq!(
        build_tree_prefix(3, true, &vec![]),
        ("\u{2502}  \u{2502}  ".to_string(), "\u{2514}\u{2500} ")
    );
}

#[test]
fn display_info_shows_status_project_and_priority() {
    let projects = project_names(&vec![project(1, "home"), project(2, "work")]);
    let mut t = task(5, "T", None, Some(2));
    assert_eq!(
        get_task_display_info(&t, &projects, true),
        ("\u{23f3}".to_string(), " @work".to_string(), " !medium".to_string())
    );
    t.status = Status::InProgress;
    t.priority = Priority::Low;
    assert_eq!(
        get_task_display_info(&t, &projects, false),
        ("\u{1f504}".to_string(), "".to_string(), " !low".to_string())
    );
    t.status = Status::Done;
    t.priority = Priority::Urgent;
    t.project_id = Some(9);
    assert_eq!(
        get_task_display_info(&t, &projects, true),
        ("\u{2705}".to_string(), "".to_string(), " !urgent".to_string())
    );
    t.priority = Priority::High;
    t.project_id = None;
    assert_eq!(get_task_display_info(&t, &projects, true).2, " !high");
    assert_eq!(get_task_display_info(&t, &projects, true).1, "");
}

#[test]
fn later_project_of_the_same_identifier_counts() {
    let projects = project_names(&vec![project(1, "old"), project(1, "new")]);
    let t = task(5, "T", None, Some(1));
    assert_eq!(get_task_display_info(&t, &projects, true).1, " @new");
}

#[test]
fn line_of_a_task() {
    let projects = project_names(&vec![project(2, "work")]);
    let t = task(5, "Fix bug", Some(1), Some(2));
    assert_eq!(
        render_task_line(&t, &projects, true, 2, true, &vec![false]),
        "\u{2502}  \u{2514}\u{2500} \u{23f3}[5] Fix bug !medium @work"
    );
    assert_eq!(
        render_task_line(&t, &projects, false, 0, false, &vec![]),
        "\u{23f3}[5] Fix bug !medium"
    );
}

#[test]
fn two_children_get_a_tee_and_a_corner() {
    let tasks = vec![
        task(1, "Parent", None, None),
        task(2, "First", Some(1), None),
        task(3, "Second", Some(1), None),
    ];
    let lines = print_task_tree(&tasks, &tasks[0], &HashMap::new(), true);
    assert_eq!(
        lines,
        vec![
            "\u{23f3}[1] Parent !medium",
            "\u{251c}\u{2500} \u{23f3}[2] First !medium",
            "\u{2514}\u{2500} \u{23f3}[3] Second !medium",
        ]
    );
}

#[test]
fn grandchildren_are_drawn_under_their_parents() {
    let tasks = vec![
        task(1, "Root", None, None),
        task(2, "A", Some(1), None),
        task(3, "B", Some(1), None),
        task(4, "A1", Some(2), None),
        task(5, "A2", Some(2), None),
        task(6, "B1", Some(3), None),
        task(7, "A1x", Some(4), None),
        task(8, "B1x", Some(6), None),
    ];
    let lines = print_task_tree(&tasks, &tasks[0], &HashMap::new(), false);
    assert_eq!(
        lines,
        vec![
            "\u{23f3}[1] Root !medium",
            "\u{251c}\u{2500} \u{23f3}[2] A !medium",
            "\u{2502}  \u{251c}\u{2500} \u{23f3}[4] A1 !medium",
            "\u{2502}  \u{2502}  \u{2514}\u{2500} \u{23f3}[7] A1x !medium",
            "\u{2502}  \u{2514}\u{2500} \u{23f3}[5] A2 !medium",
            "\u{2514}\u{2500} \u{23f3}[3] B !medium",
            "   \u{2514}\u{2500} \u{23f3}[6] B1 !medium",
            "      \u{2514}\u{2500} \u{23f3}[8] B1x !medium",
        ]
    );
}

#[test]
fn children_and_roots_keep_the_order_of_the_store() {
    let tasks = vec![
        task(4, "d", Some(1), None),
        task(1, "a", None, Some(7)),
        task(3, "c", Some(1), None),
        task(2, "b", None, None),
        task(5, "e", Some(2), Some(7)),
    ];
    let ids = |found: Vec<&Task>| found.iter().map(|t| t.id).collect::<Vec<u32>>();
    assert_eq!(ids(find_children(&tasks, 1)), vec![4, 3]);
    assert_eq!(ids(find_children(&tasks, 2)), vec![5]);
    assert_eq!(ids(find_children(&tasks, 9)), Vec::<u32>::new());
    assert_eq!(ids(find_root_tasks(&tasks, None)), vec![1, 2]);
    assert_eq!(ids(find_root_tasks(&tasks, Some(7))), vec![1]);
    assert_eq!(ids(find_root_tasks(&tasks, Some(8))), Vec::<u32>::new());
}

#[test]
fn list_of_all_tasks_shows_projects() {
    let context = ReplContext::new();
    let projects = vec![project(7, "home")];
    let tasks = vec![
        task(1, "a", None, Some(7)),
        task(2, "b", None, None),
        task(3, "c", Some(1), Some(7)),
    ];
    assert_eq!(
        task_list_lines(&context, &tasks, &projects),
        vec![
            "\u{1f4cb} All tasks:",
            "\u{23f3}[1] a !medium @home",
            "\u{2514}\u{2500} \u{23f3}[3] c !medium @home",
            "\u{23f3}[2] b !medium",
        ]
    );
}

#[test]
fn list_in_a_project_holds_its_roots_and_hides_the_names() {
    let mut context = ReplContext::new();
    context.set_current_project(Some(project(7, "home")));
    let projects = vec![project(7, "home")];
    let tasks = vec![
        task(1, "a", None, Some(7)),
        task(2, "b", None, None),
        task(3, "c", Some(1), None),
    ];
    assert_eq!(
        task_list_lines(&context, &tasks, &projects),
        vec![
            "\u{1f4cb} Tasks in project 'home':",
            "\u{23f3}[1] a !medium",
            "\u{2514}\u{2500} \u{23f3}[3] c !medium",
        ]
    );
}

#[test]
fn empty_list_says_so() {
    let mut context = ReplContext::new();
    assert_eq!(
        task_list_lines(&context, &vec![], &vec![]),
        vec!["\u{1f4cb} All tasks:", "No tasks found."]
    );
    context.set_current_project(Some(project(7, "home")));
    let tasks = vec![task(2, "b", None, None), task(3, "c", Some(9), Some(7))];
    assert_eq!(
        task_list_lines(&context, &tasks, &vec![]),
        vec!["\u{1f4cb} Tasks in project 'home':", "No tasks found."]
    );
}

#[test]
fn parent_links_in_a_circle_are_cut() {
    let tasks = vec![task(1, "a", Some(2), None), task(2, "b", Some(1), None)];
    let lines = print_task_tree(&tasks, &tasks[0], &HashMap::new(), false);
    assert_eq!(lines.len(), 3);
    assert_eq!(lines[0], "\u{23f3}[1] a !medium");
    assert_eq!(lines[1], "\u{2514}\u{2500} \u{23f3}[2] b !medium");
    assert_eq!(lines[2], "   \u{2514}\u{2500} \u{23f3}[1] a !medium");
}

#[test]
fn project_names_are_kept_by_identifier() {
    let names = project_names(&vec![project(1, "home"), project(2, "work"), project(1, "house")]);
    assert_eq!(names.len(), 2);
    assert_eq!(names.get(&1), Some(&"house".to_string()));
    assert_eq!(names.get(&2), Some(&"work".to_string()));
    assert_eq!(names.get(&3), None);
    assert!(project_names(&Vec::new()).is_empty());
}
