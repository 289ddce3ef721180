//! A project: a workstream serving an objective, made of tasks.
use crate::calendar::Timestamp;
use crate::error::{is_transition_error, DomainError};
use crate::ids::{is_version_7, ObjectiveId, ProjectId};
use crate::status::{EnsureActive, ProjectStatus};
use crate::text::{empty_to_none, opt_non_blank, opt_text};
use crate::title::Title;
use vstd::prelude::*;

verus! {

/// Spec counterpart of a `Project`.
pub struct ProjectView {
    pub id: u128,
    pub objective_id: u128,
    pub title: Seq<char>,
    pub description: Option<Seq<char>>,
    pub status: ProjectStatus,
    pub created_at: int,
    pub updated_at: int,
}

#[derive(Debug, Clone, PartialEq, Eq)]
pub struct Project {
    id: ProjectId,
    objective_id: ObjectiveId,
    title: Title,
    description: Option<String>,
    status: ProjectStatus,
    created_at: Timestamp,
    updated_at: Timestamp,
}

impl View for Project {
    type V = ProjectView;

    closed spec fn view(&self) -> ProjectView {
        ProjectView {
            id: self.id@,
            objective_id: self.objective_id@,
            title: self.title@,
            description: opt_text(self.description),
            status: self.status,
            created_at: self.created_at@,
            updated_at: self.updated_at@,
        }
    }
}

impl ProjectView {
    pub open spec fn with_status(self, status: ProjectStatus, now: int) -> ProjectView {
        ProjectView { status, updated_at: now, ..self }
    }

    /// Completed and archived projects accept no edits.
    pub open spec fn is_frozen(self) -> bool {
        self.status == ProjectStatus::Completed || self.status == ProjectStatus::Archived
    }

    pub open spec fn ensure_active_outcome(self) -> Option<EnsureActive> {
        match self.status {
            ProjectStatus::Draft => Some(EnsureActive::Activated),
            ProjectStatus::Active => Some(EnsureActive::AlreadyActive),
            _ => None,
        }
    }

    pub open spec fn ensured_active(self, now: int) -> ProjectView {
        if self.status == ProjectStatus::Draft {
            self.with_status(ProjectStatus::Active, now)
        } else {
            self
        }
    }
}

impl Project {
    /// A new draft project of an objective. A blank description counts as none.
    pub fn create(objective_id: ObjectiveId, title: Title, description: Option<String>, now: Timestamp) -> (r: Project)
        ensures
            is_version_7(r@.id),
            r@ == (ProjectView {
                id: r@.id,
                objective_id: objective_id@,
                title: title@,
                description: opt_non_blank(opt_text(description)),
                status: ProjectStatus::Draft,
                created_at: now@,
                updated_at: now@,
            }),
    {
        Project {
            id: ProjectId::new(),
            objective_id,
            title,
            description: empty_to_none(description),
            status: ProjectStatus::Draft,
            created_at: now,
            updated_at: now,
        }
    }

    /// A project rebuilt from stored fields, as they are.
    pub fn reconstitute(
        id: ProjectId,
        objective_id: ObjectiveId,
        title: Title,
        description: Option<String>,
        status: ProjectStatus,
        created_at: Timestamp,
        updated_at: Timestamp,
    ) -> (r: Project)
        ensures
            r@ == (ProjectView {
                id: id@,
                objective_id: objective_id@,
                title: title@,
                description: opt_text(description),
                status,
                created_at: created_at@,
                updated_at: updated_at@,
            }),
    {
        Project { id, objective_id, title, description, status, created_at, updated_at }
    }

    /// Edit a project that is neither completed nor archived.
    pub fn update(&mut self, title: Title, description: Option<String>, now: Timestamp) -> (r: Result<(), DomainError>)
        ensures
            old(self)@.is_frozen() ==> (r matches Err(e) && is_transition_error(
                e,
                old(self)@.status.text(),
                old(self)@.status.text(),
            )),
            r is Ok <==> !old(self)@.is_frozen(),
            r is Ok ==> final(self)@ == (ProjectView {
                title: title@,
                description: opt_non_blank(opt_text(description)),
                updated_at: now@,
                ..old(self)@
            }),
            r is Err ==> final(self)@ == old(self)@,
    {
        if self.status == ProjectStatus::Completed || self.status == ProjectStatus::Archived {
            return Err(
                DomainError::InvalidStatusTransition {
                    from: self.status.as_str(),
                    to: self.status.as_str(),
                },
            );
        }
        self.title = title;
        self.description = empty_to_none(description);
        self.updated_at = now;
        Ok(())
    }

    /// Draft becomes active.
    pub fn activate(&mut self, now: Timestamp) -> (r: Result<(), DomainError>)
        ensures
            r is Ok <==> old(self)@.status == ProjectStatus::Draft,
            r is Ok ==> final(self)@ == old(self)@.with_status(ProjectStatus::Active, now@),
            r matches Err(e) ==> is_transition_error(e, old(self)@.status.text(), "active"@)
                && final(self)@ == old(self)@,
    {
        if self.status != ProjectStatus::Draft {
            return Err(
                DomainError::InvalidStatusTransition {
                    from: self.status.as_str(),
                    to: ProjectStatus::Active.as_str(),
                },
            );
        }
        self.status = ProjectStatus::Active;
        self.updated_at = now;
        Ok(())
    }

    /// Active becomes completed.
    pub fn complete(&mut self, now: Timestamp) -> (r: Result<(), DomainError>)
        ensures
            r is Ok <==> old(self)@.status == ProjectStatus::Active,
            r is Ok ==> final(self)@ == old(self)@.with_status(ProjectStatus::Completed, now@),
            r matches Err(e) ==> is_transition_error(e, old(self)@.status.text(), "completed"@)
                && final(self)@ == old(self)@,
    {
        if self.status != ProjectStatus::Active {
            return Err(
                DomainError::InvalidStatusTransition {
                    from: self.status.as_str(),
                    to: ProjectStatus::Completed.as_str(),
                },
            );
        }
        self.status = ProjectStatus::Completed;
        self.updated_at = now;
        Ok(())
    }

    /// Any status but archived becomes archived.
    pub fn archive(&mut self, now: Timestamp) -> (r: Result<(), DomainError>)
        ensures
            r is Ok <==> old(self)@.status != ProjectStatus::Archived,
            r is Ok ==> final(self)@ == old(self)@.with_status(ProjectStatus::Archived, now@),
            r matches Err(e) ==> is_transition_error(e, "archived"@, "archived"@) && final(self)@
                == old(self)@,
    {
        if self.status == ProjectStatus::Archived {
            return Err(
                DomainError::InvalidStatusTransition {
                    from: self.status.as_str(),
                    to: ProjectStatus::Archived.as_str(),
                },
            );
        }
        self.status = ProjectStatus::Archived;
        self.updated_at = now;
        Ok(())
    }

    /// Make the project active if it is still a draft; an active one is left
    /// as it is; a completed or archived one is refused.
    pub fn ensure_active(&mut self, now: Timestamp) -> (r: Result<EnsureActive, DomainError>)
        ensures
            match old(self)@.ensure_active_outcome() {
                Some(change) => r == Ok::<EnsureActive, DomainError>(change) && final(self)@
                    == old(self)@.ensured_active(now@),
                None => r matches Err(e) && is_transition_error(
                    e,
                    old(self)@.status.text(),
                    "active"@,
                ) && final(self)@ == old(self)@,
            },
    {
        match self.status {
            ProjectStatus::Draft => {
                self.status = ProjectStatus::Active;
                self.updated_at = now;
                Ok(EnsureActive::Activated)
            },
            ProjectStatus::Active => Ok(EnsureActive::AlreadyActive),
            _ => Err(
                DomainError::InvalidStatusTransition {
                    from: self.status.as_str(),
                    to: ProjectStatus::Active.as_str(),
                },
            ),
        }
    }

    pub fn objective_id(&self) -> (r: ObjectiveId)
        ensures
            r@ == self@.objective_id,
    {
        self.objective_id
    }

    pub fn id(&self) -> (r: ProjectId)
        ensures
            r@ == self@.id,
    {
        self.id
    }

    pub fn title(&self) -> (r: &Title)
        ensures
            r@ == self@.title,
    {
        &self.title
    }

    pub fn description(&self) -> (r: Option<&str>)
        ensures
            match r {
                Some(d) => self@.description == Some(d@),
                None => self@.description is None,
            },
    {
        match &self.description {
            Some(d) => Some(d.as_str()),
            None => None,
        }
    }

    pub fn status(&self) -> (r: ProjectStatus)
        ensures
            r == self@.status,
    {
        self.status
    }

    pub fn created_at(&self) -> (r: Timestamp)
        ensures
            r@ == self@.created_at,
    {
        self.created_at
    }

    pub fn updated_at(&self) -> (r: Timestamp)
        ensures
            r@ == self@.updated_at,
    {
        self.updated_at
    }
}

} // verus!
