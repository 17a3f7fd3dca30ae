//! Projects: named groups of tasks.

use crate::task::{blank, current_timestamp, is_blank, ValidationError, ValidationErrorView};
use crate::text::result_view;
use vstd::prelude::*;

verus! {

/// A project as it is stored.
#[derive(Clone, Debug, PartialEq, Eq)]
pub struct Project {
    /// The store's identifier; `0` until the store has assigned one.
    pub id: u32,
    /// Unique among the projects of a store.
    pub name: String,
    pub description: Option<String>,
    pub created_at: i64,
    pub updated_at: i64,
    /// Fields that this library does not model, as the store holds them. They
    /// are carried along and never read.
    pub extras: Option<String>,
}

/// The mathematical value of a [`Project`].
pub struct ProjectView {
    pub id: u32,
    pub name: Seq<char>,
    pub description: Option<Seq<char>>,
    pub created_at: i64,
    pub updated_at: i64,
    pub extras: Option<Seq<char>>,
}

impl View for Project {
    type V = ProjectView;

    open spec fn view(&self) -> ProjectView {
        ProjectView {
            id: self.id,
            name: self.name@,
            description: self.description.deep_view(),
            created_at: self.created_at,
            updated_at: self.updated_at,
            extras: self.extras.deep_view(),
        }
    }
}

/// A project that is not yet validated.
#[derive(Clone, Debug, PartialEq, Eq)]
pub struct ProjectDraft {
    pub name: String,
    pub description: Option<String>,
}

/// The mathematical value of a [`ProjectDraft`].
pub struct ProjectDraftView {
    pub name: Seq<char>,
    pub description: Option<Seq<char>>,
}

impl View for ProjectDraft {
    type V = ProjectDraftView;

    open spec fn view(&self) -> ProjectDraftView {
        ProjectDraftView { name: self.name@, description: self.description.deep_view() }
    }
}

impl ProjectDraftView {
    /// The project that the draft becomes at the time `now`, or why it
    /// becomes none: a blank name.
    pub open spec fn project(self, now: i64) -> Result<ProjectView, ValidationErrorView> {
        if is_blank(self.name) {
            Err(ValidationErrorView::EmptyName)
        } else {
            Ok(
                ProjectView {
                    id: 0,
                    name: self.name,
                    description: self.description,
                    created_at: now,
                    updated_at: now,
                    extras: None,
                },
            )
        }
    }
}

impl ProjectDraft {
    /// The draft that a new project starts from: no name, no description.
    pub fn new() -> (r: ProjectDraft)
        ensures
            r@ == (ProjectDraftView { name: Seq::empty(), description: None }),
    {
        ProjectDraft { name: String::new(), description: None }
    }

    /// The project that the draft becomes at the time `now`.
    pub fn to_project_at(&self, now: i64) -> (r: Result<Project, ValidationError>)
        ensures
            result_view(r) == self@.project(now),
    {
        if blank(self.name.as_str()) {
            return Err(ValidationError::EmptyName);
        }
        Ok(
            Project {
                id: 0,
                name: self.name.clone(),
                description: self.description.clone(),
                created_at: now,
                updated_at: now,
                extras: None,
            },
        )
    }

    /// The project that the draft becomes now: [`ProjectDraft::to_project_at`]
    /// at the time the clock shows.
    ///
    /// Panics where the clock stands before 1970: chrono, which reads it,
    /// does. [`ProjectDraft::to_project_at`] reads no clock.
    pub fn to_project(&self) -> (r: Result<Project, ValidationError>)
        ensures
            exists|now: i64| #[trigger] self@.project(now) == result_view(r),
    {
        let now = current_timestamp();
        let r = self.to_project_at(now);
        r
    }
}

} // verus!
