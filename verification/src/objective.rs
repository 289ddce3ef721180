//! An objective: an outcome pursued within a cycle.
use crate::calendar::{Date, Timestamp};
use crate::error::{is_transition_error, DomainError};
use crate::ids::{is_version_7, CycleId, ObjectiveId};
use crate::status::{EnsureActive, ObjectiveStatus};
use crate::text::{empty_to_none, opt_non_blank, opt_text};
use crate::title::Title;
use crate::util::{dates_within_cycle, opt_day, within_cycle_outcome};
use vstd::prelude::*;

verus! {

/// Spec counterpart of an `Objective`.
pub struct ObjectiveView {
    pub id: u128,
    pub cycle_id: u128,
    pub title: Seq<char>,
    pub description: Option<Seq<char>>,
    pub status: ObjectiveStatus,
    pub start_on: Option<int>,
    pub end_on: Option<int>,
    pub created_at: int,
    pub updated_at: int,
}

#[derive(Debug, Clone, PartialEq, Eq)]
pub struct Objective {
    id: ObjectiveId,
    cycle_id: CycleId,
    title: Title,
    description: Option<String>,
    status: ObjectiveStatus,
    start_on: Option<Date>,
    end_on: Option<Date>,
    created_at: Timestamp,
    updated_at: Timestamp,
}

impl View for Objective {
    type V = ObjectiveView;

    closed spec fn view(&self) -> ObjectiveView {
        ObjectiveView {
            id: self.id@,
            cycle_id: self.cycle_id@,
            title: self.title@,
            description: opt_text(self.description),
            status: self.status,
            start_on: opt_day(self.start_on),
            end_on: opt_day(self.end_on),
            created_at: self.created_at@,
            updated_at: self.updated_at@,
        }
    }
}

impl ObjectiveView {
    pub open spec fn with_status(self, status: ObjectiveStatus, now: int) -> ObjectiveView {
        ObjectiveView { status, updated_at: now, ..self }
    }

    /// Completed and archived objectives accept no edits.
    pub open spec fn is_frozen(self) -> bool {
        self.status == ObjectiveStatus::Completed || self.status == ObjectiveStatus::Archived
    }

    pub open spec fn ensure_active_outcome(self) -> Option<EnsureActive> {
        match self.status {
            ObjectiveStatus::Draft => Some(EnsureActive::Activated),
            ObjectiveStatus::Active => Some(EnsureActive::AlreadyActive),
            _ => None,
        }
    }

    pub open spec fn ensured_active(self, now: int) -> ObjectiveView {
        if self.status == ObjectiveStatus::Draft {
            self.with_status(ObjectiveStatus::Active, now)
        } else {
            self
        }
    }
}

impl Objective {
    /// A new draft objective of a cycle; its optional dates must be ordered and
    /// fall within the cycle's dates. A blank description counts as none.
    pub fn create(
        cycle_id: CycleId,
        title: Title,
        description: Option<String>,
        start_on: Option<Date>,
        end_on: Option<Date>,
        cycle_start: Date,
        cycle_end: Date,
        now: Timestamp,
    ) -> (r: Result<Objective, DomainError>)
        ensures
            ({
                let outcome = within_cycle_outcome(
                    cycle_start@,
                    cycle_end@,
                    opt_day(start_on),
                    opt_day(end_on),
                );
                &&& r is Ok <==> outcome is Ok
                &&& outcome matches Err(e) ==> r == Err::<Objective, DomainError>(e)
            }),
            r matches Ok(o) ==> is_version_7(o@.id) && o@ == (ObjectiveView {
                id: o@.id,
                cycle_id: cycle_id@,
                title: title@,
                description: opt_non_blank(opt_text(description)),
                status: ObjectiveStatus::Draft,
                start_on: opt_day(start_on),
                end_on: opt_day(end_on),
                created_at: now@,
                updated_at: now@,
            }),
    {
        dates_within_cycle(cycle_start, cycle_end, start_on, end_on)?;
        Ok(
            Objective {
                id: ObjectiveId::new(),
                cycle_id,
                title,
                description: empty_to_none(description),
                status: ObjectiveStatus::Draft,
                start_on,
                end_on,
                created_at: now,
                updated_at: now,
            },
        )
    }

    /// An objective rebuilt from stored fields, as they are.
    pub fn reconstitute(
        id: ObjectiveId,
        cycle_id: CycleId,
        title: Title,
        description: Option<String>,
        status: ObjectiveStatus,
        start_on: Option<Date>,
        end_on: Option<Date>,
        created_at: Timestamp,
        updated_at: Timestamp,
    ) -> (r: Objective)
        ensures
            r@ == (ObjectiveView {
                id: id@,
                cycle_id: cycle_id@,
                title: title@,
                description: opt_text(description),
                status,
                start_on: opt_day(start_on),
                end_on: opt_day(end_on),
                created_at: created_at@,
                updated_at: updated_at@,
            }),
    {
        Objective {
            id,
            cycle_id,
            title,
            description,
            status,
            start_on,
            end_on,
            created_at,
            updated_at,
        }
    }

    /// Edit an objective that is neither completed nor archived; the dates are
    /// checked against the cycle's as on creation.
    pub fn update(
        &mut self,
        title: Title,
        description: Option<String>,
        start_on: Option<Date>,
        end_on: Option<Date>,
        cycle_start: Date,
        cycle_end: Date,
        now: Timestamp,
    ) -> (r: Result<(), DomainError>)
        ensures
            ({
                let outcome = within_cycle_outcome(
                    cycle_start@,
                    cycle_end@,
                    opt_day(start_on),
                    opt_day(end_on),
                );
                &&& old(self)@.is_frozen() ==> (r matches Err(e) && is_transition_error(
                    e,
                    old(self)@.status.text(),
                    old(self)@.status.text(),
                ))
                &&& !old(self)@.is_frozen() ==> (r is Ok <==> outcome is Ok)
                &&& !old(self)@.is_frozen() ==> (outcome matches Err(e) ==> r == Err::<
                    (),
                    DomainError,
                >(e))
            }),
            r is Ok ==> final(self)@ == (ObjectiveView {
                title: title@,
                description: opt_non_blank(opt_text(description)),
                start_on: opt_day(start_on),
                end_on: opt_day(end_on),
                updated_at: now@,
                ..old(self)@
            }),
            r is Err ==> final(self)@ == old(self)@,
    {
        if self.status == ObjectiveStatus::Completed || self.status == ObjectiveStatus::Archived {
            return Err(
                DomainError::InvalidStatusTransition {
                    from: self.status.as_str(),
                    to: self.status.as_str(),
                },
            );
        }
        dates_within_cycle(cycle_start, cycle_end, start_on, end_on)?;
        self.title = title;
        self.description = empty_to_none(description);
        self.start_on = start_on;
        self.end_on = end_on;
        self.updated_at = now;
        Ok(())
    }

    /// Draft becomes active.
    pub fn activate(&mut self, now: Timestamp) -> (r: Result<(), DomainError>)
        ensures
            r is Ok <==> old(self)@.status == ObjectiveStatus::Draft,
            r is Ok ==> final(self)@ == old(self)@.with_status(ObjectiveStatus::Active, now@),
            r matches Err(e) ==> is_transition_error(e, old(self)@.status.text(), "active"@)
                && final(self)@ == old(self)@,
    {
        if self.status != ObjectiveStatus::Draft {
            return Err(
                DomainError::InvalidStatusTransition {
                    from: self.status.as_str(),
                    to: ObjectiveStatus::Active.as_str(),
                },
            );
        }
        self.status = ObjectiveStatus::Active;
        self.updated_at = now;
        Ok(())
    }

    /// Active becomes completed.
    pub fn complete(&mut self, now: Timestamp) -> (r: Result<(), DomainError>)
        ensures
            r is Ok <==> old(self)@.status == ObjectiveStatus::Active,
            r is Ok ==> final(self)@ == old(self)@.with_status(ObjectiveStatus::Completed, now@),
            r matches Err(e) ==> is_transition_error(e, old(self)@.status.text(), "completed"@)
                && final(self)@ == old(self)@,
    {
        if self.status != ObjectiveStatus::Active {
            return Err(
                DomainError::InvalidStatusTransition {
                    from: self.status.as_str(),
                    to: ObjectiveStatus::Completed.as_str(),
                },
            );
        }
        self.status = ObjectiveStatus::Completed;
        self.updated_at = now;
        Ok(())
    }

    /// Any status but archived becomes archived.
    pub fn archive(&mut self, now: Timestamp) -> (r: Result<(), DomainError>)
        ensures
            r is Ok <==> old(self)@.status != ObjectiveStatus::Archived,
            r is Ok ==> final(self)@ == old(self)@.with_status(ObjectiveStatus::Archived, now@),
            r matches Err(e) ==> is_transition_error(e, "archived"@, "archived"@) && final(self)@
                == old(self)@,
    {
        if self.status == ObjectiveStatus::Archived {
            return Err(
                DomainError::InvalidStatusTransition {
                    from: self.status.as_str(),
                    to: ObjectiveStatus::Archived.as_str(),
                },
            );
        }
        self.status = ObjectiveStatus::Archived;
        self.updated_at = now;
        Ok(())
    }

    /// Make the objective active if it is still a draft; an active one is left
    /// as it is; a completed or archived one is refused.
    pub fn ensure_active(&mut self, now: Timestamp) -> (r: Result<EnsureActive, DomainError>)
        ensures
            match old(self)@.ensure_active_outcome() {
                Some(change) => r == Ok::<EnsureActive, DomainError>(change) && final(self)@
                    == old(self)@.ensured_active(now@),
                None => r matches Err(e) && is_transition_error(
                    e,
                    old(self)@.status.text(),
                    "active"@,
                ) && final(self)@ == old(self)@,
            },
    {
        match self.status {
            ObjectiveStatus::Draft => {
                self.status = ObjectiveStatus::Active;
                self.updated_at = now;
                Ok(EnsureActive::Activated)
            },
            ObjectiveStatus::Active => Ok(EnsureActive::AlreadyActive),
            _ => Err(
                DomainError::InvalidStatusTransition {
                    from: self.status.as_str(),
                    to: ObjectiveStatus::Active.as_str(),
                },
            ),
        }
    }

    pub fn id(&self) -> (r: ObjectiveId)
        ensures
            r@ == self@.id,
    {
        self.id
    }

    pub fn cycle_id(&self) -> (r: CycleId)
        ensures
            r@ == self@.cycle_id,
    {
        self.cycle_id
    }

    pub fn title(&self) -> (r: &Title)
        ensures
            r@ == self@.title,
    {
        &self.title
    }

    pub fn description(&self) -> (r: Option<&str>)
        ensures
            match r {
                Some(d) => self@.description == Some(d@),
                None => self@.description is None,
            },
    {
        match &self.description {
            Some(d) => Some(d.as_str()),
            None => None,
        }
    }

    pub fn status(&self) -> (r: ObjectiveStatus)
        ensures
            r == self@.status,
    {
        self.status
    }

    pub fn start_on(&self) -> (r: Option<Date>)
        ensures
            opt_day(r) == self@.start_on,
    {
        self.start_on
    }

    pub fn end_on(&self) -> (r: Option<Date>)
        ensures
            opt_day(r) == self@.end_on,
    {
        self.end_on
    }

    pub fn created_at(&self) -> (r: Timestamp)
        ensures
            r@ == self@.created_at,
    {
        self.created_at
    }

    pub fn updated_at(&self) -> (r: Timestamp)
        ensures
            r@ == self@.updated_at,
    {
        self.updated_at
    }
}

} // verus!
