//! Records as the store holds them: rows of plain columns.
//!
//! A task's status and priority are stored as words and its tags as a JSON
//! array of strings. serde_json writes and reads the array; what it returns
//! is a function of what it is given and has a name here. A project's extra
//! fields are JSON text that is carried along as it is.

use crate::project::{Project, ProjectView};
use crate::task::{
    lemma_priority_round_trip, lemma_status_round_trip, Priority, Status, Task, TaskView,
    ValidationError, ValidationErrorView,
};
use crate::text::result_view;
use vstd::prelude::*;

verus! {

/// The JSON text that `serde_json::to_string` writes for a list of strings;
/// `None` where it returns an error.
pub uninterp spec fn json_of_strings(items: Seq<Seq<char>>) -> Option<Seq<char>>;

/// The list of strings that `serde_json::from_str` reads in a JSON text;
/// `None` where it returns an error.
pub uninterp spec fn strings_of_json(text: Seq<char>) -> Option<Seq<Seq<char>>>;

/// Calls `serde_json::to_string` on a list of strings. The contract only
/// names its result.
#[verifier::external_body]
fn write_strings(items: &Vec<String>) -> (r: Option<String>)
    ensures
        r.deep_view() == json_of_strings(items.deep_view()),
{
    serde_json::to_string(items).ok()
}

/// Calls `serde_json::from_str` for a list of strings. The contract only
/// names its result.
#[verifier::external_body]
fn read_strings(text: &str) -> (r: Option<Vec<String>>)
    ensures
        r.deep_view() == strings_of_json(text@),
{
    serde_json::from_str::<Vec<String>>(text).ok()
}

/// A task as a row of the store.
#[derive(Clone, Debug, PartialEq, Eq)]
pub struct TaskRow {
    pub id: u32,
    pub title: String,
    /// `todo`, `doing` or `done`.
    pub status: String,
    /// `low`, `medium`, `high` or `urgent`.
    pub priority: String,
    /// A JSON array of strings.
    pub tags: String,
    pub due_date: Option<i64>,
    pub parent_id: Option<u32>,
    pub project_id: Option<u32>,
    pub created_at: i64,
    pub updated_at: i64,
    pub completed_at: Option<i64>,
}

/// The mathematical value of a [`TaskRow`].
pub struct TaskRowView {
    pub id: u32,
    pub title: Seq<char>,
    pub status: Seq<char>,
    pub priority: Seq<char>,
    pub tags: Seq<char>,
    pub due_date: Option<i64>,
    pub parent_id: Option<u32>,
    pub project_id: Option<u32>,
    pub created_at: i64,
    pub updated_at: i64,
    pub completed_at: Option<i64>,
}

impl View for TaskRow {
    type V = TaskRowView;

    open spec fn view(&self) -> TaskRowView {
        TaskRowView {
            id: self.id,
            title: self.title@,
            status: self.status@,
            priority: self.priority@,
            tags: self.tags@,
            due_date: self.due_date,
            parent_id: self.parent_id,
            project_id: self.project_id,
            created_at: self.created_at,
            updated_at: self.updated_at,
            completed_at: self.completed_at,
        }
    }
}

/// The column that holds a list of tags, given what writing the list as
/// JSON gave: that text; an empty array where the list could not be written.
pub open spec fn tags_column(written: Option<Seq<char>>) -> Seq<char> {
    match written {
        Some(text) => text,
        None => "[]"@,
    }
}

/// The list of tags that a column holds, given what reading the column as
/// JSON gave: that list; none where the column could not be read.
pub open spec fn tags_in_column(read: Option<Seq<Seq<char>>>) -> Seq<Seq<char>> {
    match read {
        Some(tags) => tags,
        None => Seq::empty(),
    }
}

impl TaskView {
    /// The row that holds the task, given what writing its tags as JSON
    /// gave.
    pub open spec fn row_with(self, written: Option<Seq<char>>) -> TaskRowView {
        TaskRowView {
            id: self.id,
            title: self.title,
            status: self.status.text(),
            priority: self.priority.token(),
            tags: tags_column(written),
            due_date: self.due_date,
            parent_id: self.parent_id,
            project_id: self.project_id,
            created_at: self.created_at,
            updated_at: self.updated_at,
            completed_at: self.completed_at,
        }
    }

    /// The row that holds the task.
    pub open spec fn row(self) -> TaskRowView {
        self.row_with(json_of_strings(self.tags))
    }
}

impl TaskRowView {
    /// The task that the row holds, given what reading its tags as JSON gave.
    /// A status word that is not known stands for `Todo`; a priority token
    /// that is not known is an error.
    pub open spec fn task_with(self, read: Option<Seq<Seq<char>>>) -> Result<
        TaskView,
        ValidationErrorView,
    > {
        match Priority::of_token(self.priority) {
            None => Err(ValidationErrorView::InvalidPriority(self.priority)),
            Some(priority) => Ok(
                TaskView {
                    id: self.id,
                    title: self.title,
                    status: Status::of_text(self.status),
                    priority,
                    tags: tags_in_column(read),
                    due_date: self.due_date,
                    parent_id: self.parent_id,
                    project_id: self.project_id,
                    created_at: self.created_at,
                    updated_at: self.updated_at,
                    completed_at: self.completed_at,
                },
            ),
        }
    }

    /// The task that the row holds.
    pub open spec fn task(self) -> Result<TaskView, ValidationErrorView> {
        self.task_with(strings_of_json(self.tags))
    }
}

impl Task {
    /// The row that holds the task, given what writing its tags as JSON
    /// gave.
    pub fn to_row_with(&self, written: Option<String>) -> (r: TaskRow)
        ensures
            r@ == self@.row_with(written.deep_view()),
    {
        let tags = match written {
            Some(text) => text,
            None => "[]".to_owned(),
        };
        TaskRow {
            id: self.id,
            title: self.title.clone(),
            status: self.status.to_string(),
            priority: self.priority.to_string(),
            tags,
            due_date: self.due_date,
            parent_id: self.parent_id,
            project_id: self.project_id,
            created_at: self.created_at,
            updated_at: self.updated_at,
            completed_at: self.completed_at,
        }
    }

    /// The row that holds the task.
    pub fn to_row(&self) -> (r: TaskRow)
        ensures
            r@ == self@.row(),
    {
        self.to_row_with(write_strings(&self.tags))
    }

    /// The task that a row holds, given what reading its tags as JSON gave.
    pub fn from_row_with(row: &TaskRow, read: Option<Vec<String>>) -> (r: Result<
        Task,
        ValidationError,
    >)
        ensures
            result_view(r) == row@.task_with(read.deep_view()),
    {
        let priority = match Priority::from_token(row.priority.as_str()) {
            Some(priority) => priority,
            None => {
                return Err(ValidationError::InvalidPriority(row.priority.clone()));
            },
        };
        let tags = match read {
            Some(tags) => tags,
            None => {
                let none: Vec<String> = Vec::new();
                assert(none.deep_view() =~= Seq::<Seq<char>>::empty());
                none
            },
        };
        Ok(
            Task {
                id: row.id,
                title: row.title.clone(),
                status: Status::from_string(row.status.as_str()),
                priority,
                tags,
                due_date: row.due_date,
                parent_id: row.parent_id,
                project_id: row.project_id,
                created_at: row.created_at,
                updated_at: row.updated_at,
                completed_at: row.completed_at,
            },
        )
    }

    /// The task that a row holds.
    pub fn from_row(row: &TaskRow) -> (r: Result<Task, ValidationError>)
        ensures
            result_view(r) == row@.task(),
    {
        Task::from_row_with(row, read_strings(row.tags.as_str()))
    }
}

/// A task written as a row and read back is the task, where its tags are
/// written as JSON and read back as they were.
pub proof fn lemma_task_row_round_trip(task: TaskView)
    requires
        json_of_strings(task.tags) is Some,
        strings_of_json(json_of_strings(task.tags)->0) == Some(task.tags),
    ensures
        task.row().task() == Ok::<TaskView, ValidationErrorView>(task),
{
    lemma_status_round_trip(task.status);
    lemma_priority_round_trip(task.priority);
}

/// A project written as a row and read back is the project.
pub proof fn lemma_project_row_round_trip(project: ProjectView)
    ensures
        project.row().project() == project,
{
}

/// A project as a row of the store.
#[derive(Clone, Debug, PartialEq, Eq)]
pub struct ProjectRow {
    pub id: u32,
    pub name: String,
    pub description: Option<String>,
    pub created_at: i64,
    pub updated_at: i64,
    /// JSON text, as the store holds it.
    pub extras: Option<String>,
}

/// The mathematical value of a [`ProjectRow`].
pub struct ProjectRowView {
    pub id: u32,
    pub name: Seq<char>,
    pub description: Option<Seq<char>>,
    pub created_at: i64,
    pub updated_at: i64,
    pub extras: Option<Seq<char>>,
}

impl View for ProjectRow {
    type V = ProjectRowView;

    open spec fn view(&self) -> ProjectRowView {
        ProjectRowView {
            id: self.id,
            name: self.name@,
            description: self.description.deep_view(),
            created_at: self.created_at,
            updated_at: self.updated_at,
            extras: self.extras.deep_view(),
        }
    }
}

impl ProjectView {
    /// The row that holds the project: column for column what the project
    /// holds.
    pub open spec fn row(self) -> ProjectRowView {
        ProjectRowView {
            id: self.id,
            name: self.name,
            description: self.description,
            created_at: self.created_at,
            updated_at: self.updated_at,
            extras: self.extras,
        }
    }
}

impl ProjectRowView {
    /// The project that the row holds: column for column what the row holds.
    pub open spec fn project(self) -> ProjectView {
        ProjectView {
            id: self.id,
            name: self.name,
            description: self.description,
            created_at: self.created_at,
            updated_at: self.updated_at,
            extras: self.extras,
        }
    }
}

impl Project {
    /// The row that holds the project.
    pub fn to_row(&self) -> (r: ProjectRow)
        ensures
            r@ == self@.row(),
    {
        ProjectRow {
            id: self.id,
            name: self.name.clone(),
            description: self.description.clone(),
            created_at: self.created_at,
            updated_at: self.updated_at,
            extras: self.extras.clone(),
        }
    }

    /// The project that a row holds.
    pub fn from_row(row: &ProjectRow) -> (r: Project)
        ensures
            r@ == row@.project(),
    {
        Project {
            id: row.id,
            name: row.name.clone(),
            description: row.description.clone(),
            created_at: row.created_at,
            updated_at: row.updated_at,
            extras: row.extras.clone(),
        }
    }
}

} // verus!
