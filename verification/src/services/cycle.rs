//! Use cases on cycles.
use crate::calendar::{Date, Timestamp};
use crate::cycle::{Cycle, CycleView};
use crate::error::{store_failure, AppError, DomainError, DomainErrorView};
use crate::ids::{is_version_7, CycleId};
use crate::repos::{all_cycles, CycleRepository};
use crate::services::{changes_one, reads_one, result_view};
use crate::status::CycleStatus;
use crate::title::{title_outcome, Title};
use vstd::prelude::*;

verus! {

pub struct CreateCycle {
    pub name: String,
    pub start_on: Date,
    pub end_on: Date,
}

pub struct UpdateCycle {
    pub name: String,
    pub start_on: Date,
    pub end_on: Date,
}

/// The refusal of a status change from `from` to `to`.
pub open spec fn transition(from: CycleStatus, to: Seq<char>) -> DomainErrorView {
    DomainErrorView::InvalidStatusTransition { from: from.text(), to }
}

/// What updating a stored cycle decides: the name must not be blank, the
/// cycle neither closed nor archived, and the dates ordered.
pub open spec fn update_decision(
    v: CycleView,
    name: Seq<char>,
    start_on: int,
    end_on: int,
    now: int,
) -> Result<CycleView, DomainErrorView> {
    if title_outcome(name) is None {
        Err(DomainErrorView::EmptyTitle)
    } else if v.status == CycleStatus::Closed || v.status == CycleStatus::Archived {
        Err(transition(v.status, v.status.text()))
    } else if end_on < start_on {
        Err(DomainErrorView::InvalidDateRange)
    } else {
        Ok(
            CycleView {
                name: title_outcome(name)->Some_0,
                start_on,
                end_on,
                updated_at: now,
                ..v
            },
        )
    }
}

/// What activating a stored cycle decides.
pub open spec fn activate_decision(v: CycleView, now: int) -> Result<CycleView, DomainErrorView> {
    if v.status == CycleStatus::Planning {
        Ok(v.with_status(CycleStatus::Active, now))
    } else {
        Err(transition(v.status, "active"@))
    }
}

/// What closing a stored cycle decides.
pub open spec fn close_decision(v: CycleView, now: int) -> Result<CycleView, DomainErrorView> {
    if v.status == CycleStatus::Active {
        Ok(v.with_status(CycleStatus::Closed, now))
    } else {
        Err(transition(v.status, "closed"@))
    }
}

/// What archiving a stored cycle decides.
pub open spec fn archive_decision(v: CycleView, now: int) -> Result<CycleView, DomainErrorView> {
    if v.status != CycleStatus::Archived {
        Ok(v.with_status(CycleStatus::Archived, now))
    } else {
        Err(transition(v.status, "archived"@))
    }
}

/// Loads the stored cycle with this identifier; a missing one is not found.
pub fn get_cycle<C: CycleRepository>(cycles: &C, id: CycleId) -> (r: Result<Cycle, AppError>)
    ensures
        reads_one(cycles.cycles(), "cycle"@, id@, result_view(r)),
        r matches Ok(c) ==> c@.id == id@,
{
    match cycles.get(id) {
        Ok(Some(c)) => Ok(c),
        Ok(None) => Err(AppError::not_found("cycle", id.to_string())),
        Err(e) => Err(e),
    }
}

#[derive(Clone)]
pub struct CycleService<R> {
    repo: R,
}

impl<R: CycleRepository> CycleService<R> {
    /// The cycles in the service's repository.
    pub closed spec fn stored(&self) -> Map<u128, CycleView> {
        self.repo.cycles()
    }

    pub fn new(repo: R) -> (r: Self)
        ensures
            r.stored() == repo.cycles(),
    {
        CycleService { repo }
    }

    /// Create a cycle in planning from a name (trimmed, not blank) and an
    /// ordered date range.
    pub fn create(&mut self, cmd: CreateCycle, now: Timestamp) -> (r: Result<Cycle, AppError>)
        ensures
            title_outcome(cmd.name@) is None ==> r == Err::<Cycle, AppError>(
                AppError::Domain(DomainError::EmptyTitle),
            ),
            title_outcome(cmd.name@) is Some && cmd.end_on@ < cmd.start_on@ ==> r == Err::<
                Cycle,
                AppError,
            >(AppError::Domain(DomainError::InvalidDateRange)),
            r matches Ok(c) ==> is_version_7(c@.id) && c@ == (CycleView {
                id: c@.id,
                name: title_outcome(cmd.name@)->Some_0,
                start_on: cmd.start_on@,
                end_on: cmd.end_on@,
                status: CycleStatus::Planning,
                created_at: now@,
                updated_at: now@,
            }) && final(self).stored() == old(self).stored().insert(c@.id, c@),
            r is Err ==> final(self).stored() == old(self).stored(),
    {
        let name = match Title::parse(cmd.name.as_str()) {
            Ok(t) => t,
            Err(e) => return Err(AppError::Domain(e)),
        };
        let cycle = match Cycle::create(name, cmd.start_on, cmd.end_on, now) {
            Ok(c) => c,
            Err(e) => return Err(AppError::Domain(e)),
        };
        match self.repo.create(&cycle) {
            Ok(()) => Ok(cycle),
            Err(e) => Err(e),
        }
    }

    /// The stored cycle with this identifier.
    pub fn get(&self, id: CycleId) -> (r: Result<Cycle, AppError>)
        ensures
            reads_one(self.stored(), "cycle"@, id@, result_view(r)),
    {
        get_cycle(&self.repo, id)
    }

    /// All stored cycles.
    pub fn list(&self) -> (r: Result<Vec<Cycle>, AppError>)
        ensures
            r matches Ok(items) ==> all_cycles(self.stored(), items@),
            r matches Err(e) ==> store_failure(e@),
    {
        self.repo.list()
    }

    /// Rename and re-date a stored cycle.
    pub fn update(&mut self, id: CycleId, cmd: UpdateCycle, now: Timestamp) -> (r: Result<
        Cycle,
        AppError,
    >)
        ensures
            changes_one(
                old(self).stored(),
                final(self).stored(),
                "cycle"@,
                id@,
                result_view(r),
                |v: CycleView| update_decision(v, cmd.name@, cmd.start_on@, cmd.end_on@, now@),
            ),
    {
        let mut cycle = get_cycle(&self.repo, id)?;
        let name = match Title::parse(cmd.name.as_str()) {
            Ok(t) => t,
            Err(e) => return Err(AppError::Domain(e)),
        };
        match cycle.update(name, cmd.start_on, cmd.end_on, now) {
            Ok(()) => {},
            Err(e) => return Err(AppError::Domain(e)),
        }
        match self.repo.update(&cycle) {
            Ok(()) => Ok(cycle),
            Err(e) => Err(e),
        }
    }

    /// Activate a stored cycle in planning.
    pub fn activate(&mut self, id: CycleId, now: Timestamp) -> (r: Result<Cycle, AppError>)
        ensures
            changes_one(
                old(self).stored(),
                final(self).stored(),
                "cycle"@,
                id@,
                result_view(r),
                |v: CycleView| activate_decision(v, now@),
            ),
    {
        let mut cycle = get_cycle(&self.repo, id)?;
        match cycle.activate(now) {
            Ok(()) => {},
            Err(e) => return Err(AppError::Domain(e)),
        }
        match self.repo.update(&cycle) {
            Ok(()) => Ok(cycle),
            Err(e) => Err(e),
        }
    }

    /// Close a stored active cycle.
    pub fn close(&mut self, id: CycleId, now: Timestamp) -> (r: Result<Cycle, AppError>)
        ensures
            changes_one(
                old(self).stored(),
                final(self).stored(),
                "cycle"@,
                id@,
                result_view(r),
                |v: CycleView| close_decision(v, now@),
            ),
    {
        let mut cycle = get_cycle(&self.repo, id)?;
        match cycle.close(now) {
            Ok(()) => {},
            Err(e) => return Err(AppError::Domain(e)),
        }
        match self.repo.update(&cycle) {
            Ok(()) => Ok(cycle),
            Err(e) => Err(e),
        }
    }

    /// Archive a stored cycle that is not archived yet.
    pub fn archive(&mut self, id: CycleId, now: Timestamp) -> (r: Result<Cycle, AppError>)
        ensures
            changes_one(
                old(self).stored(),
                final(self).stored(),
                "cycle"@,
                id@,
                result_view(r),
                |v: CycleView| archive_decision(v, now@),
            ),
    {
        let mut cycle = get_cycle(&self.repo, id)?;
        match cycle.archive(now) {
            Ok(()) => {},
            Err(e) => return Err(AppError::Domain(e)),
        }
        match self.repo.update(&cycle) {
            Ok(()) => Ok(cycle),
            Err(e) => Err(e),
        }
    }
}

} // verus!
