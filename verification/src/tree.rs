//! The list of tasks, drawn as a tree.
//!
//! Each root task heads a tree; the children of a task are the tasks that
//! name it as parent, in the order in which the store returned them. A task
//! at depth 0 has no prefix. A task further down has one column for each
//! ancestor below the root, `│  ` where that ancestor has a sibling after it
//! and blank where it is the last, and then `├─ ` or `└─ ` for itself.
//!
//! The depth of a tree is bounded by the number of tasks at hand, so that
//! drawing ends even where parent links form a cycle. Where they form none,
//! a bound that is large enough cuts nothing: see [`lemma_depth_suffices`].

use crate::decimal::{decimal, decimal_chars};
use crate::project::{Project, ProjectView};
use crate::repl::{project_views, ReplContext, ReplContextView};
use crate::task::{Priority, Status, Task, TaskView};
use crate::text::{append_chars, append_lines, chars_of, framed, push_line, push_string, string_of};
use std::collections::HashMap;
use vstd::prelude::*;
use vstd::std_specs::hash::group_hash_axioms;

verus! {

broadcast use group_hash_axioms;

/// The sign that shows a status.
pub open spec fn status_mark(status: Status) -> Seq<char> {
    match status {
        Status::Todo => "\u{23f3}"@,
        Status::InProgress => "\u{1f504}"@,
        Status::Done => "\u{2705}"@,
    }
}

/// The words that show a priority.
pub open spec fn priority_mark(priority: Priority) -> Seq<char> {
    match priority {
        Priority::Low => " !low"@,
        Priority::Medium => " !medium"@,
        Priority::High => " !high"@,
        Priority::Urgent => " !urgent"@,
    }
}

/// The names of the projects by identifier. Where several projects have one
/// identifier, the one that comes last counts.
pub open spec fn name_map(projects: Seq<ProjectView>) -> Map<u32, Seq<char>>
    decreases projects.len(),
{
    if projects.len() == 0 {
        Map::empty()
    } else {
        name_map(projects.drop_last()).insert(projects.last().id, projects.last().name)
    }
}

/// The names that a map of projects holds, as texts.
pub open spec fn names_of(project_map: Map<u32, String>) -> Map<u32, Seq<char>> {
    Map::new(|id: u32| project_map.contains_key(id), |id: u32| project_map[id]@)
}

/// The words that show a task's project: ` @name` where projects are shown,
/// the task has one and it is among `names`; nothing else.
pub open spec fn project_mark(task: TaskView, names: Map<u32, Seq<char>>, show: bool) -> Seq<char> {
    if show && task.project_id is Some && names.contains_key(task.project_id->0) {
        " @"@ + names[task.project_id->0]
    } else {
        Seq::empty()
    }
}

/// The names of the projects by identifier: see [`name_map`].
pub fn project_names(projects: &Vec<Project>) -> (r: HashMap<u32, String>)
    ensures
        names_of(r@) == name_map(project_views(projects@)),
{
    let ghost all = project_views(projects@);
    let mut r: HashMap<u32, String> = HashMap::new();
    let mut i: usize = 0;
    while i < projects.len()
        invariant
            i <= projects.len(),
            all == project_views(projects@),
            names_of(r@) == name_map(all.take(i as int)),
        decreases projects.len() - i,
    {
        r.insert(projects[i].id, projects[i].name.clone());
        proof {
            let upto = all.take(i + 1);
            assert(upto.drop_last() =~= all.take(i as int));
        }
        i += 1;
    }
    assert(all.take(projects.len() as int) =~= all);
    r
}

/// What is shown of a task besides its identifier and title: the sign of its
/// status, the words for its project and the words for its priority.
pub fn get_task_display_info(
    task: &Task,
    project_map: &HashMap<u32, String>,
    show_project: bool,
) -> (r: (String, String, String))
    ensures
        r.0@ == status_mark(task.status),
        r.1@ == project_mark(task@, names_of(project_map@), show_project),
        r.2@ == priority_mark(task.priority),
{
    let status = match task.status {
        Status::Todo => "\u{23f3}".to_owned(),
        Status::InProgress => "\u{1f504}".to_owned(),
        Status::Done => "\u{2705}".to_owned(),
    };
    let project = match (show_project, task.project_id) {
        (true, Some(id)) => match project_map.get(&id) {
            Some(name) => {
                let name = chars_of(name.as_str());
                crate::text::prefixed(" @", &name)
            },
            None => String::new(),
        },
        _ => String::new(),
    };
    let priority = match task.priority {
        Priority::Low => " !low".to_owned(),
        Priority::Medium => " !medium".to_owned(),
        Priority::High => " !high".to_owned(),
        Priority::Urgent => " !urgent".to_owned(),
    };
    (status, project, priority)
}

/// The column drawn for the ancestor at depth `column + 1`: blank where that
/// ancestor is the last of its siblings, a bar where it is not or where
/// nothing is known of it.
pub open spec fn column_of(ancestors_last: Seq<bool>, column: int) -> Seq<char> {
    if 0 <= column < ancestors_last.len() && ancestors_last[column] {
        "   "@
    } else {
        "\u{2502}  "@
    }
}

/// The columns in front of a task at depth `level`: one for each ancestor
/// below the root.
pub open spec fn indent_of(ancestors_last: Seq<bool>, level: int) -> Seq<char>
    decreases level,
{
    if level <= 1 {
        Seq::empty()
    } else {
        indent_of(ancestors_last, level - 1) + column_of(ancestors_last, level - 2)
    }
}

/// The branch drawn right before a task: none at depth 0, else `└─ ` for the
/// last of its siblings and `├─ ` for any other.
pub open spec fn branch_of(level: int, is_last: bool) -> Seq<char> {
    if level <= 0 {
        Seq::empty()
    } else if is_last {
        "\u{2514}\u{2500} "@
    } else {
        "\u{251c}\u{2500} "@
    }
}

/// The prefix of a task's line: the columns of its ancestors, and its own
/// branch.
///
/// `ancestors_last[k]` says whether the ancestor at depth `k + 1` is the last
/// of its siblings.
pub fn build_tree_prefix(indent_level: usize, is_last: bool, ancestors_last: &Vec<bool>) -> (r: (
    String,
    &'static str,
))
    ensures
        r.0@ == indent_of(ancestors_last@, indent_level as int),
        r.1@ == branch_of(indent_level as int, is_last),
{
    if indent_level == 0 {
        proof {
            reveal_strlit("");
        }
        return (String::new(), "");
    }
    let mut indent: Vec<char> = Vec::new();
    let mut column: usize = 0;
    while column < indent_level - 1
        invariant
            indent_level >= 1,
            column <= indent_level - 1,
            indent@ == indent_of(ancestors_last@, column + 1),
        decreases indent_level - column,
    {
        let blank = column < ancestors_last.len() && ancestors_last[column];
        let piece = if blank {
            chars_of("   ")
        } else {
            chars_of("\u{2502}  ")
        };
        append_chars(&mut indent, &piece);
        column += 1;
    }
    let branch = if is_last {
        "\u{2514}\u{2500} "
    } else {
        "\u{251c}\u{2500} "
    };
    (string_of(&indent), branch)
}

/// The line of a task in the tree.
pub open spec fn task_line(
    task: TaskView,
    names: Map<u32, Seq<char>>,
    show_project: bool,
    level: int,
    is_last: bool,
    ancestors_last: Seq<bool>,
) -> Seq<char> {
    indent_of(ancestors_last, level) + branch_of(level, is_last) + status_mark(task.status)
        + "["@ + decimal(task.id as nat) + "] "@ + task.title + priority_mark(task.priority)
        + project_mark(task, names, show_project)
}

/// The line of a task in the tree.
pub fn render_task_line(
    task: &Task,
    project_map: &HashMap<u32, String>,
    show_project: bool,
    indent_level: usize,
    is_last: bool,
    ancestors_last: &Vec<bool>,
) -> (r: String)
    ensures
        r@ == task_line(
            task@,
            names_of(project_map@),
            show_project,
            indent_level as int,
            is_last,
            ancestors_last@,
        ),
{
    let (status, project, priority) = get_task_display_info(task, project_map, show_project);
    let (indent, branch) = build_tree_prefix(indent_level, is_last, ancestors_last);
    let mut line = chars_of(indent.as_str());
    let branch = chars_of(branch);
    append_chars(&mut line, &branch);
    let status = chars_of(status.as_str());
    append_chars(&mut line, &status);
    let open = chars_of("[");
    append_chars(&mut line, &open);
    let id = decimal_chars(task.id as u64);
    append_chars(&mut line, &id);
    let close = chars_of("] ");
    append_chars(&mut line, &close);
    let title = chars_of(task.title.as_str());
    append_chars(&mut line, &title);
    let priority = chars_of(priority.as_str());
    append_chars(&mut line, &priority);
    let project = chars_of(project.as_str());
    append_chars(&mut line, &project);
    string_of(&line)
}

/// The views of the tasks of `tasks`, in order.
pub open spec fn task_views(tasks: Seq<Task>) -> Seq<TaskView> {
    Seq::new(tasks.len(), |i: int| tasks[i]@)
}

/// Whether `task` is a child of the task with the identifier `parent`.
pub open spec fn is_child(task: TaskView, parent: u32) -> bool {
    task.parent_id == Some(parent)
}

/// The children of the task with the identifier `parent` among `tasks`, in
/// the order of `tasks`.
pub open spec fn children_of(tasks: Seq<TaskView>, parent: u32) -> Seq<TaskView>
    decreases tasks.len(),
{
    if tasks.len() == 0 {
        Seq::empty()
    } else if is_child(tasks.last(), parent) {
        children_of(tasks.drop_last(), parent).push(tasks.last())
    } else {
        children_of(tasks.drop_last(), parent)
    }
}

/// Whether `task` heads a tree of the list: it has no parent and, where the
/// list is scoped to a project, belongs to that project.
pub open spec fn is_root(task: TaskView, scope: Option<u32>) -> bool {
    task.parent_id is None && (scope is Some ==> task.project_id == scope)
}

/// The tasks among `tasks` that head a tree of the list, in the order of
/// `tasks`.
pub open spec fn roots_of(tasks: Seq<TaskView>, scope: Option<u32>) -> Seq<TaskView>
    decreases tasks.len(),
{
    if tasks.len() == 0 {
        Seq::empty()
    } else if is_root(tasks.last(), scope) {
        roots_of(tasks.drop_last(), scope).push(tasks.last())
    } else {
        roots_of(tasks.drop_last(), scope)
    }
}

/// What is known of the ancestors of the children of a task at depth
/// `level`: what is known of the task's own, and of the task itself where it
/// is not the root.
pub open spec fn ancestors_below(ancestors_last: Seq<bool>, level: int, is_last: bool) -> Seq<
    bool,
> {
    if level <= 0 {
        ancestors_last
    } else {
        ancestors_last.push(is_last)
    }
}

/// The lines of the tree under `task`, `task` included, no deeper than
/// `depth` levels below it.
pub open spec fn subtree_lines(
    tasks: Seq<TaskView>,
    names: Map<u32, Seq<char>>,
    show_project: bool,
    task: TaskView,
    level: int,
    is_last: bool,
    ancestors_last: Seq<bool>,
    depth: nat,
) -> Seq<Seq<char>>
    decreases depth, 0nat, 0nat,
{
    let line = task_line(task, names, show_project, level, is_last, ancestors_last);
    if depth == 0 {
        seq![line]
    } else {
        let children = children_of(tasks, task.id);
        seq![line] + forest_lines(
            tasks,
            names,
            show_project,
            children,
            children.len(),
            level + 1,
            ancestors_below(ancestors_last, level, is_last),
            (depth - 1) as nat,
        )
    }
}

/// The lines of the trees under the first `count` of `siblings`, one tree
/// after the other. The last of `siblings` is drawn as the last.
pub open spec fn forest_lines(
    tasks: Seq<TaskView>,
    names: Map<u32, Seq<char>>,
    show_project: bool,
    siblings: Seq<TaskView>,
    count: nat,
    level: int,
    ancestors_last: Seq<bool>,
    depth: nat,
) -> Seq<Seq<char>>
    decreases depth, 1nat, count,
{
    if count == 0 || count > siblings.len() {
        Seq::empty()
    } else {
        forest_lines(
            tasks,
            names,
            show_project,
            siblings,
            (count - 1) as nat,
            level,
            ancestors_last,
            depth,
        ) + subtree_lines(
            tasks,
            names,
            show_project,
            siblings[count - 1],
            level,
            count == siblings.len(),
            ancestors_last,
            depth,
        )
    }
}

/// The lines of the trees under the first `count` of `roots`. A root has no
/// prefix, so none is drawn as the last.
pub open spec fn root_lines(
    tasks: Seq<TaskView>,
    names: Map<u32, Seq<char>>,
    show_project: bool,
    roots: Seq<TaskView>,
    count: nat,
) -> Seq<Seq<char>>
    decreases count,
{
    if count == 0 || count > roots.len() {
        Seq::empty()
    } else {
        root_lines(tasks, names, show_project, roots, (count - 1) as nat) + subtree_lines(
            tasks,
            names,
            show_project,
            roots[count - 1],
            0,
            false,
            Seq::empty(),
            tasks.len(),
        )
    }
}

/// The line that heads the list.
pub open spec fn list_heading(context: ReplContextView) -> Seq<char> {
    match context.current_project {
        Some(project) => "\u{1f4cb} Tasks in project '"@ + project.name + "':"@,
        None => "\u{1f4cb} All tasks:"@,
    }
}

/// The list of tasks: the heading, then the tree of each root task, or a
/// line that says there is none.
///
/// With a current project the list holds the root tasks of that project and
/// leaves the projects' names out; without one it holds every root task and
/// shows the name of each task's project.
pub open spec fn task_list(
    context: ReplContextView,
    tasks: Seq<TaskView>,
    projects: Seq<ProjectView>,
) -> Seq<Seq<char>> {
    let scope = match context.current_project {
        Some(project) => Some(project.id),
        None => None,
    };
    let roots = roots_of(tasks, scope);
    if roots.len() == 0 {
        seq![list_heading(context), "No tasks found."@]
    } else {
        seq![list_heading(context)] + root_lines(
            tasks,
            name_map(projects),
            context.current_project is None,
            roots,
            roots.len(),
        )
    }
}

/// The views of the tasks that `found` refers to, in order.
pub open spec fn found_views(found: Seq<&Task>) -> Seq<TaskView> {
    Seq::new(found.len(), |i: int| found[i]@)
}

/// The children of the task with the identifier `parent` among `tasks`.
pub fn find_children<'a>(tasks: &'a Vec<Task>, parent: u32) -> (r: Vec<&'a Task>)
    ensures
        found_views(r@) == children_of(task_views(tasks@), parent),
{
    let ghost all = task_views(tasks@);
    let mut r: Vec<&'a Task> = Vec::new();
    let mut i: usize = 0;
    while i < tasks.len()
        invariant
            i <= tasks.len(),
            all == task_views(tasks@),
            found_views(r@) == children_of(all.take(i as int), parent),
        decreases tasks.len() - i,
    {
        proof {
            let upto = all.take(i + 1);
            assert(upto.drop_last() =~= all.take(i as int));
        }
        let task = &tasks[i];
        let child = match task.parent_id {
            Some(id) => id == parent,
            None => false,
        };
        if child {
            r.push(task);
        }
        i += 1;
    }
    assert(all.take(tasks.len() as int) =~= all);
    r
}

/// The tasks among `tasks` that head a tree of the list.
pub fn find_root_tasks<'a>(tasks: &'a Vec<Task>, scope: Option<u32>) -> (r: Vec<&'a Task>)
    ensures
        found_views(r@) == roots_of(task_views(tasks@), scope),
{
    let ghost all = task_views(tasks@);
    let mut r: Vec<&'a Task> = Vec::new();
    let mut i: usize = 0;
    while i < tasks.len()
        invariant
            i <= tasks.len(),
            all == task_views(tasks@),
            found_views(r@) == roots_of(all.take(i as int), scope),
        decreases tasks.len() - i,
    {
        proof {
            let upto = all.take(i + 1);
            assert(upto.drop_last() =~= all.take(i as int));
        }
        let task = &tasks[i];
        let in_scope = match scope {
            Some(project) => match task.project_id {
                Some(id) => id == project,
                None => false,
            },
            None => true,
        };
        if task.parent_id.is_none() && in_scope {
            r.push(task);
        }
        i += 1;
    }
    assert(all.take(tasks.len() as int) =~= all);
    r
}

/// Adds to `lines` the tree under `task`, `task` included, no deeper than
/// `depth` levels below it.
fn print_task_tree_with_prefix(
    tasks: &Vec<Task>,
    task: &Task,
    indent_level: usize,
    is_last: bool,
    ancestors_last: &Vec<bool>,
    project_map: &HashMap<u32, String>,
    show_project: bool,
    depth: usize,
    lines: &mut Vec<String>,
)
    requires
        indent_level + depth <= usize::MAX,
    ensures
        final(lines).deep_view() == old(lines).deep_view() + subtree_lines(
            task_views(tasks@),
            names_of(project_map@),
            show_project,
            task@,
            indent_level as int,
            is_last,
            ancestors_last@,
            depth as nat,
        ),
    decreases depth, 0nat, 0nat,
{
    let line = render_task_line(
        task,
        project_map,
        show_project,
        indent_level,
        is_last,
        ancestors_last,
    );
    push_string(lines, line);
    if depth > 0 {
        let mut below: Vec<bool> = ancestors_last.clone();
        if indent_level > 0 {
            below.push(is_last);
        }
        let children = find_children(tasks, task.id);
        print_task_children(
            tasks,
            &children,
            children.len(),
            indent_level + 1,
            &below,
            project_map,
            show_project,
            depth - 1,
            lines,
        );
    }
}

/// Adds to `lines` the trees under the first `count` of `siblings`.
fn print_task_children(
    tasks: &Vec<Task>,
    siblings: &Vec<&Task>,
    count: usize,
    indent_level: usize,
    ancestors_last: &Vec<bool>,
    project_map: &HashMap<u32, String>,
    show_project: bool,
    depth: usize,
    lines: &mut Vec<String>,
)
    requires
        count <= siblings.len(),
        indent_level + depth <= usize::MAX,
    ensures
        final(lines).deep_view() == old(lines).deep_view() + forest_lines(
            task_views(tasks@),
            names_of(project_map@),
            show_project,
            found_views(siblings@),
            count as nat,
            indent_level as int,
            ancestors_last@,
            depth as nat,
        ),
    decreases depth, 1nat, count,
{
    if count == 0 {
        return ;
    }
    print_task_children(
        tasks,
        siblings,
        count - 1,
        indent_level,
        ancestors_last,
        project_map,
        show_project,
        depth,
        lines,
    );
    let task: &Task = siblings[count - 1];
    print_task_tree_with_prefix(
        tasks,
        task,
        indent_level,
        count == siblings.len(),
        ancestors_last,
        project_map,
        show_project,
        depth,
        lines,
    );
}

/// The lines of the tree under `task`, which is drawn as a root.
pub fn print_task_tree(
    tasks: &Vec<Task>,
    task: &Task,
    project_map: &HashMap<u32, String>,
    show_project: bool,
) -> (r: Vec<String>)
    ensures
        r.deep_view() == subtree_lines(
            task_views(tasks@),
            names_of(project_map@),
            show_project,
            task@,
            0,
            false,
            Seq::empty(),
            tasks.len() as nat,
        ),
{
    let mut lines: Vec<String> = Vec::new();
    let none: Vec<bool> = Vec::new();
    print_task_tree_with_prefix(
        tasks,
        task,
        0,
        false,
        &none,
        project_map,
        show_project,
        tasks.len(),
        &mut lines,
    );
    lines
}

/// The list of tasks, as lines to show: see [`task_list`]. `tasks` is every
/// task of the store and `projects` every project.
pub fn task_list_lines(context: &ReplContext, tasks: &Vec<Task>, projects: &Vec<Project>) -> (r:
    Vec<String>)
    ensures
        r.deep_view() == task_list(context@, task_views(tasks@), project_views(projects@)),
{
    let mut lines: Vec<String> = Vec::new();
    let scope = match &context.current_project {
        Some(project) => {
            let name = chars_of(project.name.as_str());
            push_string(&mut lines, framed("\u{1f4cb} Tasks in project '", &name, "':"));
            Some(project.id)
        },
        None => {
            push_line(&mut lines, "\u{1f4cb} All tasks:");
            None
        },
    };
    let show_project = context.current_project.is_none();
    let project_map = project_names(projects);
    let roots = find_root_tasks(tasks, scope);
    if roots.len() == 0 {
        push_line(&mut lines, "No tasks found.");
        return lines;
    }
    let ghost heading = lines.deep_view();
    let mut i: usize = 0;
    while i < roots.len()
        invariant
            i <= roots.len(),
            lines.deep_view() == heading + root_lines(
                task_views(tasks@),
                names_of(project_map@),
                show_project,
                found_views(roots@),
                i as nat,
            ),
        decreases roots.len() - i,
    {
        let task: &Task = roots[i];
        let tree = print_task_tree(tasks, task, &project_map, show_project);
        append_lines(&mut lines, &tree);
        i += 1;
    }
    lines
}

/// Whether `rank` gives every task that has a parent a number smaller than
/// its parent's. Where there is such a numbering, no task is its own
/// ancestor.
pub open spec fn ranks_descend(tasks: Seq<TaskView>, rank: spec_fn(u32) -> nat) -> bool {
    forall|k: int|
        0 <= k < tasks.len() && (#[trigger] tasks[k]).parent_id is Some ==> rank(tasks[k].id)
            < rank(tasks[k].parent_id->0)
}

/// Every child of a task is one of the tasks and names the task as parent.
pub proof fn lemma_children(tasks: Seq<TaskView>, parent: u32)
    ensures
        forall|j: int|
            0 <= j < children_of(tasks, parent).len() ==> is_child(
                #[trigger] children_of(tasks, parent)[j],
                parent,
            ) && tasks.contains(children_of(tasks, parent)[j]),
    decreases tasks.len(),
{
    if tasks.len() > 0 {
        let front = tasks.drop_last();
        lemma_children(front, parent);
        let before = children_of(front, parent);
        let all = children_of(tasks, parent);
        assert forall|j: int| 0 <= j < all.len() implies is_child(#[trigger] all[j], parent)
            && tasks.contains(all[j]) by {
            if j < before.len() {
                let k = choose|k: int| 0 <= k < front.len() && front[k] == before[j];
            }
        }
    }
}

/// Where no task is its own ancestor, a bound on the depth that is at least
/// the task's number cuts nothing: any other such bound draws the same tree.
pub proof fn lemma_depth_suffices(
    tasks: Seq<TaskView>,
    names: Map<u32, Seq<char>>,
    show_project: bool,
    task: TaskView,
    level: int,
    is_last: bool,
    ancestors_last: Seq<bool>,
    rank: spec_fn(u32) -> nat,
    depth: nat,
    other: nat,
)
    requires
        ranks_descend(tasks, rank),
        rank(task.id) <= depth,
        rank(task.id) <= other,
    ensures
        subtree_lines(tasks, names, show_project, task, level, is_last, ancestors_last, depth)
            == subtree_lines(
            tasks,
            names,
            show_project,
            task,
            level,
            is_last,
            ancestors_last,
            other,
        ),
    decreases depth, 0nat, 0nat,
{
    let children = children_of(tasks, task.id);
    lemma_children(tasks, task.id);
    assert forall|j: int| 0 <= j < children.len() implies rank(#[trigger] children[j].id) < rank(
        task.id,
    ) by {
        let k = choose|k: int| 0 <= k < tasks.len() && tasks[k] == children[j];
    }
    let below = ancestors_below(ancestors_last, level, is_last);
    if depth == 0 || other == 0 {
        // The task's number is 0, so it has no children.
    } else {
        lemma_forest_depth_suffices(
            tasks,
            names,
            show_project,
            children,
            children.len(),
            level + 1,
            below,
            rank,
            (depth - 1) as nat,
            (other - 1) as nat,
        );
    }
}

/// [`lemma_depth_suffices`] for the trees under the first `count` of
/// `siblings`.
pub proof fn lemma_forest_depth_suffices(
    tasks: Seq<TaskView>,
    names: Map<u32, Seq<char>>,
    show_project: bool,
    siblings: Seq<TaskView>,
    count: nat,
    level: int,
    ancestors_last: Seq<bool>,
    rank: spec_fn(u32) -> nat,
    depth: nat,
    other: nat,
)
    requires
        ranks_descend(tasks, rank),
        forall|j: int|
            0 <= j < siblings.len() ==> rank(#[trigger] siblings[j].id) <= depth && rank(
                siblings[j].id,
            ) <= other,
    ensures
        forest_lines(tasks, names, show_project, siblings, count, level, ancestors_last, depth)
            == forest_lines(
            tasks,
            names,
            show_project,
            siblings,
            count,
            level,
            ancestors_last,
            other,
        ),
    decreases depth, 1nat, count,
{
    if 0 < count <= siblings.len() {
        lemma_forest_depth_suffices(
            tasks,
            names,
            show_project,
            siblings,
            (count - 1) as nat,
            level,
            ancestors_last,
            rank,
            depth,
            other,
        );
        lemma_depth_suffices(
            tasks,
            names,
            show_project,
            siblings[count - 1],
            level,
            count == siblings.len(),
            ancestors_last,
            rank,
            depth,
            other,
        );
    }
}

} // verus!
