//! Tasks: the record, the draft it is made from, and the rules by which a
//! draft becomes a task and an edit changes one.
//!
//! Priority tokens are `low`, `medium`, `high` and `urgent`, in lower case and
//! nothing else: a numeric token such as `1` is refused. Tags are a set: a
//! task keeps the first occurrence of each label, in the order given.

use crate::decimal::{decimal, decimal_chars, signed_decimal, signed_decimal_chars};
use crate::metadata::{MetadataView, TaskMetadata};
use crate::text::{append_chars, chars_of, framed, same_text, string_of, trim, trimmed};
use chrono::Utc;
use vstd::prelude::*;

verus! {

/// How far a task has come.
#[derive(Clone, Copy, Debug, PartialEq, Eq, Structural)]
pub enum Status {
    Todo,
    InProgress,
    Done,
}

impl Status {
    /// The status that a stored word stands for. A word that is none of
    /// `todo`, `doing` and `done` stands for `Todo`.
    pub open spec fn of_text(s: Seq<char>) -> Status {
        if s == "doing"@ {
            Status::InProgress
        } else if s == "done"@ {
            Status::Done
        } else {
            Status::Todo
        }
    }

    /// The word that a status is stored and shown as.
    pub open spec fn text(self) -> Seq<char> {
        match self {
            Status::Todo => "todo"@,
            Status::InProgress => "doing"@,
            Status::Done => "done"@,
        }
    }

    /// The status that a stored word stands for.
    pub fn from_string(s: &str) -> (r: Status)
        ensures
            r == Status::of_text(s@),
    {
        let word = chars_of(s);
        if same_text(&word, "doing") {
            Status::InProgress
        } else if same_text(&word, "done") {
            Status::Done
        } else {
            Status::Todo
        }
    }

    /// The word that a status is stored and shown as.
    pub fn to_string(&self) -> (r: String)
        ensures
            r@ == self.text(),
    {
        match self {
            Status::Todo => "todo".to_owned(),
            Status::InProgress => "doing".to_owned(),
            Status::Done => "done".to_owned(),
        }
    }

    /// The name of a status.
    pub open spec fn name(self) -> Seq<char> {
        match self {
            Status::Todo => "Todo"@,
            Status::InProgress => "InProgress"@,
            Status::Done => "Done"@,
        }
    }
}

/// A status survives being written as a word and read back.
pub proof fn lemma_status_round_trip(status: Status)
    ensures
        Status::of_text(status.text()) == status,
{
    reveal_strlit("todo");
    reveal_strlit("doing");
    reveal_strlit("done");
    assert("doing"@.len() == 5);
    assert("todo"@[0] == 't');
}

/// How pressing a task is.
#[derive(Clone, Copy, Debug, PartialEq, Eq, Structural)]
pub enum Priority {
    Low,
    Medium,
    High,
    Urgent,
}

impl Priority {
    /// The priority that a token names, if it names one.
    pub open spec fn of_token(s: Seq<char>) -> Option<Priority> {
        if s == "low"@ {
            Some(Priority::Low)
        } else if s == "medium"@ {
            Some(Priority::Medium)
        } else if s == "high"@ {
            Some(Priority::High)
        } else if s == "urgent"@ {
            Some(Priority::Urgent)
        } else {
            None
        }
    }

    /// The token that names a priority.
    pub open spec fn token(self) -> Seq<char> {
        match self {
            Priority::Low => "low"@,
            Priority::Medium => "medium"@,
            Priority::High => "high"@,
            Priority::Urgent => "urgent"@,
        }
    }

    /// The priority that a token names, if it names one.
    pub fn from_token(s: &str) -> (r: Option<Priority>)
        ensures
            r == Priority::of_token(s@),
    {
        let word = chars_of(s);
        if same_text(&word, "low") {
            Some(Priority::Low)
        } else if same_text(&word, "medium") {
            Some(Priority::Medium)
        } else if same_text(&word, "high") {
            Some(Priority::High)
        } else if same_text(&word, "urgent") {
            Some(Priority::Urgent)
        } else {
            None
        }
    }

    /// The token that names a priority.
    pub fn to_string(&self) -> (r: String)
        ensures
            r@ == self.token(),
    {
        match self {
            Priority::Low => "low".to_owned(),
            Priority::Medium => "medium".to_owned(),
            Priority::High => "high".to_owned(),
            Priority::Urgent => "urgent".to_owned(),
        }
    }
}

/// A priority survives being written as a token and read back.
pub proof fn lemma_priority_round_trip(priority: Priority)
    ensures
        Priority::of_token(priority.token()) == Some(priority),
{
    reveal_strlit("low");
    reveal_strlit("medium");
    reveal_strlit("high");
    reveal_strlit("urgent");
    assert("low"@.len() == 3);
    assert("high"@.len() == 4);
    assert("medium"@[0] == 'm');
}

/// Why a draft cannot become a record.
#[derive(Clone, Debug, PartialEq, Eq)]
pub enum ValidationError {
    /// The task's title is blank.
    EmptyTitle,
    /// The project's name is blank.
    EmptyName,
    /// The priority token names no priority.
    InvalidPriority(String),
    /// No task has the identifier given as parent.
    ParentNotFound(u32),
}

/// The mathematical value of a [`ValidationError`].
pub enum ValidationErrorView {
    EmptyTitle,
    EmptyName,
    InvalidPriority(Seq<char>),
    ParentNotFound(u32),
}

impl View for ValidationError {
    type V = ValidationErrorView;

    open spec fn view(&self) -> ValidationErrorView {
        match self {
            ValidationError::EmptyTitle => ValidationErrorView::EmptyTitle,
            ValidationError::EmptyName => ValidationErrorView::EmptyName,
            ValidationError::InvalidPriority(token) => ValidationErrorView::InvalidPriority(
                token@,
            ),
            ValidationError::ParentNotFound(id) => ValidationErrorView::ParentNotFound(*id),
        }
    }
}

impl ValidationErrorView {
    /// The line that tells the user of the error.
    pub open spec fn message(self) -> Seq<char> {
        match self {
            ValidationErrorView::EmptyTitle => "Task title cannot be empty"@,
            ValidationErrorView::EmptyName => "Project name cannot be empty"@,
            ValidationErrorView::InvalidPriority(token) => "Invalid priority: "@ + token
                + ". Use low, medium, high, or urgent"@,
            ValidationErrorView::ParentNotFound(id) => "Parent task with ID "@ + decimal(
                id as nat,
            ) + " not found"@,
        }
    }
}

impl ValidationError {
    /// The line that tells the user of the error.
    pub fn message(&self) -> (r: String)
        ensures
            r@ == self@.message(),
    {
        match self {
            ValidationError::EmptyTitle => "Task title cannot be empty".to_owned(),
            ValidationError::EmptyName => "Project name cannot be empty".to_owned(),
            ValidationError::InvalidPriority(token) => {
                let body = chars_of(token.as_str());
                framed("Invalid priority: ", &body, ". Use low, medium, high, or urgent")
            },
            ValidationError::ParentNotFound(id) => {
                let body = decimal_chars(*id as u64);
                framed("Parent task with ID ", &body, " not found")
            },
        }
    }
}

/// Whether a text holds nothing but white space.
pub open spec fn is_blank(s: Seq<char>) -> bool {
    trim(s).len() == 0
}

/// Executable form of [`is_blank`].
pub fn blank(s: &str) -> (r: bool)
    ensures
        r == is_blank(s@),
{
    let v = chars_of(s);
    trimmed(&v).len() == 0
}

/// The labels of `tags` without repetition: the first occurrence of each, in
/// the order given.
pub open spec fn distinct(tags: Seq<Seq<char>>) -> Seq<Seq<char>>
    decreases tags.len(),
{
    if tags.len() == 0 {
        Seq::empty()
    } else {
        let before = distinct(tags.drop_last());
        if before.contains(tags.last()) {
            before
        } else {
            before.push(tags.last())
        }
    }
}

/// [`distinct`] repeats no label, adds none and loses none.
pub proof fn lemma_distinct(tags: Seq<Seq<char>>)
    ensures
        distinct(tags).no_duplicates(),
        forall|label: Seq<char>|
            #![trigger distinct(tags).contains(label)]
            #![trigger tags.contains(label)]
            distinct(tags).contains(label) <==> tags.contains(label),
        tags.no_duplicates() ==> distinct(tags) == tags,
    decreases tags.len(),
{
    if tags.len() > 0 {
        let front = tags.drop_last();
        let last = tags.last();
        lemma_distinct(front);
        let before = distinct(front);
        let after = distinct(tags);
        assert forall|label: Seq<char>| after.contains(label) implies tags.contains(label) by {
            let k = choose|k: int| 0 <= k < after.len() && after[k] == label;
            if k < before.len() {
                assert(before.contains(label));
            }
        }
        assert forall|label: Seq<char>| tags.contains(label) implies after.contains(label) by {
            let j = choose|j: int| 0 <= j < tags.len() && tags[j] == label;
            if j < front.len() {
                assert(front[j] == label);
                assert(front.contains(label));
                let k = choose|k: int| 0 <= k < before.len() && before[k] == label;
                assert(after[k] == label);
            } else if !before.contains(last) {
                assert(after[after.len() - 1] == label);
            }
        }
    }
}

/// Whether `label` is one of `tags`.
fn holds_label(tags: &Vec<String>, label: &String) -> (r: bool)
    ensures
        r == tags.deep_view().contains(label@),
{
    let mut i: usize = 0;
    while i < tags.len()
        invariant
            i <= tags.len(),
            forall|j: int| 0 <= j < i ==> tags[j]@ != label@,
        decreases tags.len() - i,
    {
        if tags[i] == *label {
            assert(tags.deep_view()[i as int] == label@);
            return true;
        }
        i += 1;
    }
    false
}

/// The labels of `tags` without repetition.
pub fn distinct_tags(tags: &Vec<String>) -> (r: Vec<String>)
    ensures
        r.deep_view() == distinct(tags.deep_view()),
{
    let mut r: Vec<String> = Vec::new();
    let mut i: usize = 0;
    let ghost all = tags.deep_view();
    while i < tags.len()
        invariant
            i <= tags.len(),
            all == tags.deep_view(),
            r.deep_view() == distinct(all.take(i as int)),
        decreases tags.len() - i,
    {
        proof {
            let upto = all.take(i + 1);
            assert(upto.drop_last() =~= all.take(i as int));
        }
        if !holds_label(&r, &tags[i]) {
            r.push(tags[i].clone());
        }
        i += 1;
    }
    assert(all.take(tags.len() as int) =~= all);
    r
}

/// A copy of `tags`.
pub fn copy_tags(tags: &Vec<String>) -> (r: Vec<String>)
    ensures
        r.deep_view() == tags.deep_view(),
{
    let mut r: Vec<String> = Vec::new();
    let mut i: usize = 0;
    while i < tags.len()
        invariant
            i <= tags.len(),
            r.len() == i,
            forall|j: int| 0 <= j < i ==> r[j]@ == tags[j]@,
        decreases tags.len() - i,
    {
        r.push(tags[i].clone());
        i += 1;
    }
    r
}

/// A task as it is stored.
#[derive(Clone, Debug, PartialEq, Eq)]
pub struct Task {
    /// The store's identifier; `0` until the store has assigned one.
    pub id: u32,
    pub title: String,
    pub status: Status,
    pub priority: Priority,
    pub tags: Vec<String>,
    /// Seconds since the epoch.
    pub due_date: Option<i64>,
    /// The parent task; a root task has none.
    pub parent_id: Option<u32>,
    /// The project that the task belongs to; a global task has none.
    pub project_id: Option<u32>,
    pub created_at: i64,
    pub updated_at: i64,
    pub completed_at: Option<i64>,
}

/// The mathematical value of a [`Task`].
pub struct TaskView {
    pub id: u32,
    pub title: Seq<char>,
    pub status: Status,
    pub priority: Priority,
    pub tags: Seq<Seq<char>>,
    pub due_date: Option<i64>,
    pub parent_id: Option<u32>,
    pub project_id: Option<u32>,
    pub created_at: i64,
    pub updated_at: i64,
    pub completed_at: Option<i64>,
}

impl View for Task {
    type V = TaskView;

    open spec fn view(&self) -> TaskView {
        TaskView {
            id: self.id,
            title: self.title@,
            status: self.status,
            priority: self.priority,
            tags: self.tags.deep_view(),
            due_date: self.due_date,
            parent_id: self.parent_id,
            project_id: self.project_id,
            created_at: self.created_at,
            updated_at: self.updated_at,
            completed_at: self.completed_at,
        }
    }
}

impl TaskView {
    /// What every task made or changed by this library keeps: a title that is
    /// not blank, and no label twice.
    pub open spec fn wf(self) -> bool {
        &&& !is_blank(self.title)
        &&& self.tags.no_duplicates()
    }

    /// The task once it is done at the time `now`. A task that is done
    /// already, with the time it was completed on record, stays as it is.
    pub open spec fn done(self, now: i64) -> TaskView {
        if self.status == Status::Done && self.completed_at is Some {
            self
        } else {
            TaskView { status: Status::Done, completed_at: Some(now), updated_at: now, ..self }
        }
    }

    /// The draft that holds what the task holds.
    pub open spec fn draft(self) -> DraftView {
        DraftView {
            title: self.title,
            priority: self.priority.token(),
            tags: self.tags,
            due_date: self.due_date,
            parent_id: self.parent_id,
            project_id: self.project_id,
        }
    }

    /// The task after it was rewritten as `draft` at the time `now`: what the
    /// draft becomes, with the identifier and the time of creation of the
    /// task as it was.
    pub open spec fn revised(self, draft: DraftView, now: i64) -> Result<
        TaskView,
        ValidationErrorView,
    > {
        match draft.task(now) {
            Ok(task) => Ok(TaskView { id: self.id, created_at: self.created_at, ..task }),
            Err(e) => Err(e),
        }
    }

    /// The task after an edit at the time `now`.
    ///
    /// Only what the edit sets is written over: the title where `retitle`
    /// says so, the priority, the due date and the parent where the edit has
    /// one, the labels where it has any. `parent_found` says whether the store
    /// holds the parent that the edit names.
    pub open spec fn edited(
        self,
        edit: MetadataView,
        retitle: bool,
        parent_found: bool,
        now: i64,
    ) -> Result<TaskView, ValidationErrorView> {
        let title = if retitle && edit.title.len() > 0 {
            edit.title
        } else {
            self.title
        };
        let tags = if edit.tags.len() > 0 {
            distinct(edit.tags)
        } else {
            self.tags
        };
        let due_date = if edit.due_date is Some {
            edit.due_date
        } else {
            self.due_date
        };
        let parent_id = if edit.parent is Some {
            edit.parent
        } else {
            self.parent_id
        };
        if edit.priority is Some && Priority::of_token(edit.priority->0) is None {
            Err(ValidationErrorView::InvalidPriority(edit.priority->0))
        } else if edit.parent is Some && !parent_found {
            Err(ValidationErrorView::ParentNotFound(edit.parent->0))
        } else {
            let priority = if edit.priority is Some {
                Priority::of_token(edit.priority->0)->0
            } else {
                self.priority
            };
            Ok(TaskView { title, priority, tags, due_date, parent_id, updated_at: now, ..self })
        }
    }
}

/// A task that is not yet validated.
#[derive(Clone, Debug, PartialEq, Eq)]
pub struct TaskDraft {
    pub title: String,
    /// The priority token as written.
    pub priority: String,
    pub tags: Vec<String>,
    pub due_date: Option<i64>,
    pub parent_id: Option<u32>,
    pub project_id: Option<u32>,
}

/// The mathematical value of a [`TaskDraft`].
pub struct DraftView {
    pub title: Seq<char>,
    pub priority: Seq<char>,
    pub tags: Seq<Seq<char>>,
    pub due_date: Option<i64>,
    pub parent_id: Option<u32>,
    pub project_id: Option<u32>,
}

impl View for TaskDraft {
    type V = DraftView;

    open spec fn view(&self) -> DraftView {
        DraftView {
            title: self.title@,
            priority: self.priority@,
            tags: self.tags.deep_view(),
            due_date: self.due_date,
            parent_id: self.parent_id,
            project_id: self.project_id,
        }
    }
}

impl DraftView {
    /// The draft that a new task starts from: no title yet, priority `medium`.
    pub open spec fn blank() -> DraftView {
        DraftView {
            title: Seq::empty(),
            priority: "medium"@,
            tags: Seq::empty(),
            due_date: None,
            parent_id: None,
            project_id: None,
        }
    }

    /// The task that the draft becomes at the time `now`, or why it becomes
    /// none: a blank title, then a token that names no priority.
    pub open spec fn task(self, now: i64) -> Result<TaskView, ValidationErrorView> {
        if is_blank(self.title) {
            Err(ValidationErrorView::EmptyTitle)
        } else {
            match Priority::of_token(self.priority) {
                None => Err(ValidationErrorView::InvalidPriority(self.priority)),
                Some(priority) => Ok(
                    TaskView {
                        id: 0,
                        title: self.title,
                        status: Status::Todo,
                        priority,
                        tags: distinct(self.tags),
                        due_date: self.due_date,
                        parent_id: self.parent_id,
                        project_id: self.project_id,
                        created_at: now,
                        updated_at: now,
                        completed_at: None,
                    },
                ),
            }
        }
    }

    /// Whether the draft's parent is there: `parent_found` says whether the
    /// store holds it. A parent that is named and not found is an error.
    pub open spec fn parent_checked(self, parent_found: bool) -> Result<(), ValidationErrorView> {
        if self.parent_id is Some && !parent_found {
            Err(ValidationErrorView::ParentNotFound(self.parent_id->0))
        } else {
            Ok(())
        }
    }

    /// The task that the draft becomes once the store has been asked for its
    /// parent: `parent_found` says whether the store holds it. A parent that
    /// is named and not found is the first error.
    pub open spec fn task_under(self, parent_found: bool, now: i64) -> Result<
        TaskView,
        ValidationErrorView,
    > {
        match self.parent_checked(parent_found) {
            Err(e) => Err(e),
            Ok(_) => self.task(now),
        }
    }
}

/// The seconds since the epoch of `chrono::Utc::now()`. It depends on the
/// clock, so nothing is promised of it. chrono panics where the clock stands
/// before 1970.
#[verifier::external_body]
pub(crate) fn current_timestamp() -> i64 {
    Utc::now().timestamp()
}

impl TaskDraft {
    /// The draft that a new task starts from.
    pub fn new() -> (r: TaskDraft)
        ensures
            r@ == DraftView::blank(),
    {
        let r = TaskDraft {
            title: String::new(),
            priority: "medium".to_owned(),
            tags: Vec::new(),
            due_date: None,
            parent_id: None,
            project_id: None,
        };
        assert(r.tags.deep_view() =~= Seq::<Seq<char>>::empty());
        r
    }

    /// The task that the draft becomes at the time `now`.
    pub fn to_task_at(&self, now: i64) -> (r: Result<Task, ValidationError>)
        ensures
            crate::text::result_view(r) == self@.task(now),
            r matches Ok(task) ==> task@.wf(),
    {
        if blank(self.title.as_str()) {
            return Err(ValidationError::EmptyTitle);
        }
        match Priority::from_token(self.priority.as_str()) {
            None => Err(ValidationError::InvalidPriority(self.priority.clone())),
            Some(priority) => {
                proof {
                    lemma_distinct(self.tags.deep_view());
                }
                Ok(
                    Task {
                        id: 0,
                        title: self.title.clone(),
                        status: Status::Todo,
                        priority,
                        tags: distinct_tags(&self.tags),
                        due_date: self.due_date,
                        parent_id: self.parent_id,
                        project_id: self.project_id,
                        created_at: now,
                        updated_at: now,
                        completed_at: None,
                    },
                )
            },
        }
    }

    /// The task that the draft becomes now: [`TaskDraft::to_task_at`] at the
    /// time the clock shows.
    ///
    /// Panics where the clock stands before 1970: chrono, which reads it,
    /// does. [`TaskDraft::to_task_at`] reads no clock.
    pub fn to_task(&self) -> (r: Result<Task, ValidationError>)
        ensures
            exists|now: i64| #[trigger] self@.task(now) == crate::text::result_view(r),
            r matches Ok(task) ==> task@.wf(),
    {
        let now = current_timestamp();
        let r = self.to_task_at(now);
        r
    }

    /// Whether the draft's parent is there, given what the store answered
    /// when asked for it: an error exactly where the draft names a parent and
    /// the store holds none.
    pub fn check_parent(&self, parent: Option<&Task>) -> (r: Result<(), ValidationError>)
        ensures
            crate::text::result_view(r) == self@.parent_checked(parent is Some),
    {
        match self.parent_id {
            Some(id) if parent.is_none() => Err(ValidationError::ParentNotFound(id)),
            _ => Ok(()),
        }
    }

    /// The task that the draft becomes at the time `now`, given what the
    /// store answered when asked for the draft's parent.
    pub fn to_task_under(&self, parent: Option<&Task>, now: i64) -> (r: Result<
        Task,
        ValidationError,
    >)
        ensures
            crate::text::result_view(r) == self@.task_under(parent is Some, now),
            r matches Ok(task) ==> task@.wf(),
    {
        match self.check_parent(parent) {
            Err(e) => Err(e),
            Ok(()) => self.to_task_at(now),
        }
    }
}

impl TaskView {
    /// The task in one line: identifier, title, status and time of creation.
    pub open spec fn summary(self) -> Seq<char> {
        "Task ID: "@ + decimal(self.id as nat) + ", Title: "@ + self.title + ", Status: "@
            + self.status.name() + ", Created At: "@ + signed_decimal(self.created_at as int)
    }
}

impl Task {
    /// The task in one line: identifier, title, status and time of creation.
    pub fn to_string(&self) -> (r: String)
        ensures
            r@ == self@.summary(),
    {
        let mut line = chars_of("Task ID: ");
        let id = decimal_chars(self.id as u64);
        append_chars(&mut line, &id);
        let part = chars_of(", Title: ");
        append_chars(&mut line, &part);
        let title = chars_of(self.title.as_str());
        append_chars(&mut line, &title);
        let part = chars_of(", Status: ");
        append_chars(&mut line, &part);
        let status = match self.status {
            Status::Todo => chars_of("Todo"),
            Status::InProgress => chars_of("InProgress"),
            Status::Done => chars_of("Done"),
        };
        append_chars(&mut line, &status);
        let part = chars_of(", Created At: ");
        append_chars(&mut line, &part);
        let created = signed_decimal_chars(self.created_at);
        append_chars(&mut line, &created);
        string_of(&line)
    }

    /// The draft that holds what the task holds.
    pub fn to_draft(&self) -> (r: TaskDraft)
        ensures
            r@ == self@.draft(),
    {
        TaskDraft {
            title: self.title.clone(),
            priority: self.priority.to_string(),
            tags: copy_tags(&self.tags),
            due_date: self.due_date,
            parent_id: self.parent_id,
            project_id: self.project_id,
        }
    }

    /// The task after it was rewritten as `draft` at the time `now`: see
    /// [`TaskView::revised`].
    pub fn revised(&self, draft: &TaskDraft, now: i64) -> (r: Result<Task, ValidationError>)
        ensures
            crate::text::result_view(r) == self@.revised(draft@, now),
            r matches Ok(task) ==> task@.wf(),
    {
        match draft.to_task_at(now) {
            Ok(task) => {
                let mut task = task;
                task.id = self.id;
                task.created_at = self.created_at;
                Ok(task)
            },
            Err(e) => Err(e),
        }
    }

    /// Marks the task done at the time `now`.
    pub fn mark_done(&mut self, now: i64)
        ensures
            final(self)@ == old(self)@.done(now),
            final(self).status == Status::Done,
            final(self).completed_at is Some,
            old(self)@.wf() ==> final(self)@.wf(),
    {
        let settled = match (self.status, self.completed_at) {
            (Status::Done, Some(_)) => true,
            _ => false,
        };
        if !settled {
            self.status = Status::Done;
            self.completed_at = Some(now);
            self.updated_at = now;
        }
    }

    /// The task after an edit at the time `now`: see [`TaskView::edited`].
    /// `parent` is what the store answered when asked for the parent that the
    /// edit names.
    pub fn apply_edit(
        &self,
        edit: &TaskMetadata,
        retitle: bool,
        parent: Option<&Task>,
        now: i64,
    ) -> (r: Result<Task, ValidationError>)
        ensures
            crate::text::result_view(r) == self@.edited(edit@, retitle, parent is Some, now),
            r matches Ok(task) ==> (self@.wf() && (retitle ==> !is_blank(edit.title@))
                ==> task@.wf()),
    {
        let priority = match &edit.priority {
            Some(token) => match Priority::from_token(token.as_str()) {
                Some(priority) => priority,
                None => {
                    return Err(ValidationError::InvalidPriority(token.clone()));
                },
            },
            None => self.priority,
        };
        let parent_id = match edit.parent {
            Some(id) => {
                if parent.is_none() {
                    return Err(ValidationError::ParentNotFound(id));
                }
                Some(id)
            },
            None => self.parent_id,
        };
        let title = if retitle && edit.title.as_str().unicode_len() > 0 {
            edit.title.clone()
        } else {
            self.title.clone()
        };
        let tags = if edit.tags.len() > 0 {
            proof {
                lemma_distinct(edit.tags.deep_view());
            }
            distinct_tags(&edit.tags)
        } else {
            copy_tags(&self.tags)
        };
        let due_date = match edit.due_date {
            Some(seconds) => Some(seconds),
            None => self.due_date,
        };
        Ok(
            Task {
                id: self.id,
                title,
                status: self.status,
                priority,
                tags,
                due_date,
                parent_id,
                project_id: self.project_id,
                created_at: self.created_at,
                updated_at: now,
                completed_at: self.completed_at,
            },
        )
    }
}

/// Marking a task done twice is marking it done once: the second time changes
/// nothing, whatever the clock shows by then.
pub proof fn lemma_done_is_idempotent(task: TaskView, first: i64, second: i64)
    ensures
        task.done(first).status == Status::Done,
        task.done(first).completed_at is Some,
        task.done(first).done(second) == task.done(first),
{
}

/// A draft that names a parent becomes no task where the store does not hold
/// the parent, and the error names it. Where the store holds the parent, the
/// draft becomes what it would become without the question, and the task
/// keeps the parent.
pub proof fn lemma_parent_is_checked(draft: DraftView, parent: u32, found: bool, now: i64)
    requires
        draft.parent_id == Some(parent),
    ensures
        !found ==> draft.task_under(found, now) == Err::<TaskView, ValidationErrorView>(
            ValidationErrorView::ParentNotFound(parent),
        ),
        found ==> draft.task_under(found, now) == draft.task(now),
        found && Priority::of_token(draft.priority) is Some && !is_blank(draft.title)
            ==> draft.task_under(found, now) is Ok && draft.task_under(found, now)->Ok_0.parent_id
            == Some(parent),
{
}

} // verus!
