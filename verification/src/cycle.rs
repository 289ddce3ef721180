//! A planning cycle: a named date range that objectives belong to.
use crate::calendar::{Date, Timestamp};
use crate::error::{is_transition_error, DomainError};
use crate::ids::{is_version_7, CycleId};
use crate::status::{CycleStatus, EnsureActive};
use crate::title::Title;
use crate::util::require_date_range;
use vstd::prelude::*;

verus! {

/// Spec counterpart of a `Cycle`: dates as Julian days, instants as nanoseconds.
pub struct CycleView {
    pub id: u128,
    pub name: Seq<char>,
    pub start_on: int,
    pub end_on: int,
    pub status: CycleStatus,
    pub created_at: int,
    pub updated_at: int,
}

#[derive(Debug, Clone, PartialEq, Eq)]
pub struct Cycle {
    id: CycleId,
    name: Title,
    start_on: Date,
    end_on: Date,
    status: CycleStatus,
    created_at: Timestamp,
    updated_at: Timestamp,
}

impl View for Cycle {
    type V = CycleView;

    closed spec fn view(&self) -> CycleView {
        CycleView {
            id: self.id@,
            name: self.name@,
            start_on: self.start_on@,
            end_on: self.end_on@,
            status: self.status,
            created_at: self.created_at@,
            updated_at: self.updated_at@,
        }
    }
}

impl CycleView {
    /// The cycle after a successful status change at `now`.
    pub open spec fn with_status(self, status: CycleStatus, now: int) -> CycleView {
        CycleView { status, updated_at: now, ..self }
    }

    /// The outcome of `Cycle::ensure_active`: whether it succeeds, and how.
    pub open spec fn ensure_active_outcome(self) -> Option<EnsureActive> {
        match self.status {
            CycleStatus::Planning => Some(EnsureActive::Activated),
            CycleStatus::Active => Some(EnsureActive::AlreadyActive),
            _ => None,
        }
    }

    /// The cycle after `ensure_active` at `now` succeeded.
    pub open spec fn ensured_active(self, now: int) -> CycleView {
        if self.status == CycleStatus::Planning {
            self.with_status(CycleStatus::Active, now)
        } else {
            self
        }
    }
}

impl Cycle {
    /// A new cycle in planning, with a fresh identifier; the end may not precede
    /// the start.
    pub fn create(name: Title, start_on: Date, end_on: Date, now: Timestamp) -> (r: Result<
        Cycle,
        DomainError,
    >)
        ensures
            r is Ok <==> start_on@ <= end_on@,
            r is Err ==> r == Err::<Cycle, DomainError>(DomainError::InvalidDateRange),
            r matches Ok(c) ==> is_version_7(c@.id) && c@ == (CycleView {
                id: c@.id,
                name: name@,
                start_on: start_on@,
                end_on: end_on@,
                status: CycleStatus::Planning,
                created_at: now@,
                updated_at: now@,
            }),
    {
        require_date_range(start_on, end_on)?;
        Ok(
            Cycle {
                id: CycleId::new(),
                name,
                start_on,
                end_on,
                status: CycleStatus::Planning,
                created_at: now,
                updated_at: now,
            },
        )
    }

    /// A cycle rebuilt from stored fields, as they are.
    pub fn reconstitute(
        id: CycleId,
        name: Title,
        start_on: Date,
        end_on: Date,
        status: CycleStatus,
        created_at: Timestamp,
        updated_at: Timestamp,
    ) -> (r: Cycle)
        ensures
            r@ == (CycleView {
                id: id@,
                name: name@,
                start_on: start_on@,
                end_on: end_on@,
                status,
                created_at: created_at@,
                updated_at: updated_at@,
            }),
    {
        Cycle { id, name, start_on, end_on, status, created_at, updated_at }
    }

    /// Rename and re-date a cycle that is neither closed nor archived.
    pub fn update(&mut self, name: Title, start_on: Date, end_on: Date, now: Timestamp) -> (r:
        Result<(), DomainError>)
        ensures
            (old(self)@.status == CycleStatus::Closed || old(self)@.status == CycleStatus::Archived)
                ==> (r matches Err(e) && is_transition_error(
                e,
                old(self)@.status.text(),
                old(self)@.status.text(),
            )),
            !(old(self)@.status == CycleStatus::Closed || old(self)@.status
                == CycleStatus::Archived) && end_on@ < start_on@ ==> r == Err::<(), DomainError>(
                DomainError::InvalidDateRange,
            ),
            r is Ok <==> !(old(self)@.status == CycleStatus::Closed || old(self)@.status
                == CycleStatus::Archived) && start_on@ <= end_on@,
            r is Ok ==> final(self)@ == (CycleView {
                name: name@,
                start_on: start_on@,
                end_on: end_on@,
                updated_at: now@,
                ..old(self)@
            }),
            r is Err ==> final(self)@ == old(self)@,
    {
        if self.status == CycleStatus::Closed || self.status == CycleStatus::Archived {
            return Err(
                DomainError::InvalidStatusTransition {
                    from: self.status.as_str(),
                    to: self.status.as_str(),
                },
            );
        }
        require_date_range(start_on, end_on)?;
        self.name = name;
        self.start_on = start_on;
        self.end_on = end_on;
        self.updated_at = now;
        Ok(())
    }

    /// Planning becomes active.
    pub fn activate(&mut self, now: Timestamp) -> (r: Result<(), DomainError>)
        ensures
            r is Ok <==> old(self)@.status == CycleStatus::Planning,
            r is Ok ==> final(self)@ == old(self)@.with_status(CycleStatus::Active, now@),
            r matches Err(e) ==> is_transition_error(e, old(self)@.status.text(), "active"@)
                && final(self)@ == old(self)@,
    {
        if self.status != CycleStatus::Planning {
            return Err(
                DomainError::InvalidStatusTransition {
                    from: self.status.as_str(),
                    to: CycleStatus::Active.as_str(),
                },
            );
        }
        self.status = CycleStatus::Active;
        self.updated_at = now;
        Ok(())
    }

    /// Active becomes closed.
    pub fn close(&mut self, now: Timestamp) -> (r: Result<(), DomainError>)
        ensures
            r is Ok <==> old(self)@.status == CycleStatus::Active,
            r is Ok ==> final(self)@ == old(self)@.with_status(CycleStatus::Closed, now@),
            r matches Err(e) ==> is_transition_error(e, old(self)@.status.text(), "closed"@)
                && final(self)@ == old(self)@,
    {
        if self.status != CycleStatus::Active {
            return Err(
                DomainError::InvalidStatusTransition {
                    from: self.status.as_str(),
                    to: CycleStatus::Closed.as_str(),
                },
            );
        }
        self.status = CycleStatus::Closed;
        self.updated_at = now;
        Ok(())
    }

    /// Any status but archived becomes archived.
    pub fn archive(&mut self, now: Timestamp) -> (r: Result<(), DomainError>)
        ensures
            r is Ok <==> old(self)@.status != CycleStatus::Archived,
            r is Ok ==> final(self)@ == old(self)@.with_status(CycleStatus::Archived, now@),
            r matches Err(e) ==> is_transition_error(e, "archived"@, "archived"@) && final(self)@
                == old(self)@,
    {
        if self.status == CycleStatus::Archived {
            return Err(
                DomainError::InvalidStatusTransition {
                    from: self.status.as_str(),
                    to: CycleStatus::Archived.as_str(),
                },
            );
        }
        self.status = CycleStatus::Archived;
        self.updated_at = now;
        Ok(())
    }

    /// Make the cycle active if it is still planning; an active cycle is left
    /// as it is; a closed or archived one is refused.
    pub fn ensure_active(&mut self, now: Timestamp) -> (r: Result<EnsureActive, DomainError>)
        ensures
            match old(self)@.ensure_active_outcome() {
                Some(change) => r == Ok::<EnsureActive, DomainError>(change) && final(self)@
                    == old(self)@.ensured_active(now@),
                None => r matches Err(e) && is_transition_error(
                    e,
                    old(self)@.status.text(),
                    "active"@,
                ) && final(self)@ == old(self)@,
            },
    {
        match self.status {
            CycleStatus::Planning => {
                self.status = CycleStatus::Active;
                self.updated_at = now;
                Ok(EnsureActive::Activated)
            },
            CycleStatus::Active => Ok(EnsureActive::AlreadyActive),
            _ => Err(
                DomainError::InvalidStatusTransition {
                    from: self.status.as_str(),
                    to: CycleStatus::Active.as_str(),
                },
            ),
        }
    }

    pub fn id(&self) -> (r: CycleId)
        ensures
            r@ == self@.id,
    {
        self.id
    }

    pub fn name(&self) -> (r: &Title)
        ensures
            r@ == self@.name,
    {
        &self.name
    }

    pub fn start_on(&self) -> (r: Date)
        ensures
            r@ == self@.start_on,
    {
        self.start_on
    }

    pub fn end_on(&self) -> (r: Date)
        ensures
            r@ == self@.end_on,
    {
        self.end_on
    }

    pub fn status(&self) -> (r: CycleStatus)
        ensures
            r == self@.status,
    {
        self.status
    }

    pub fn created_at(&self) -> (r: Timestamp)
        ensures
            r@ == self@.created_at,
    {
        self.created_at
    }

    pub fn updated_at(&self) -> (r: Timestamp)
        ensures
            r@ == self@.updated_at,
    {
        self.updated_at
    }
}

} // verus!
