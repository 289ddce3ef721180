//! Use cases on objectives.
use crate::calendar::{Date, Timestamp};
use crate::cycle::CycleView;
use crate::error::{AppError, AppErrorView, DomainError, DomainErrorView};
use crate::ids::{is_version_7, CycleId, ObjectiveId};
use crate::objective::{Objective, ObjectiveView};
use crate::parent_progression::{ensure_cycle_open, load_cycle, load_objective};
use crate::repos::{objectives_by_cycle_id, CycleRepository, ObjectiveRepository};
use crate::services::cycle::get_cycle;
use crate::services::{
    answers, changes_one, decided, guarded, may_clash, lists_under, lookup, reads_one, refusal, result_view,
    then_check,
};
use crate::status::ObjectiveStatus;
use crate::text::{opt_non_blank, opt_text};
use crate::title::{title_outcome, Title};
use crate::util::{opt_day, within_cycle_outcome};
use vstd::prelude::*;

verus! {

pub struct CreateObjective {
    pub title: String,
    pub description: Option<String>,
    pub start_on: Option<Date>,
    pub end_on: Option<Date>,
}

pub struct UpdateObjective {
    pub title: String,
    pub description: Option<String>,
    pub start_on: Option<Date>,
    pub end_on: Option<Date>,
}

/// What creating an objective in `cycle` decides: the cycle must be open, the
/// title not blank, and the dates ordered and inside the cycle.
pub open spec fn create_verdict(
    cycle: CycleView,
    title: Seq<char>,
    start_on: Option<int>,
    end_on: Option<int>,
) -> Result<(), AppErrorView> {
    if !cycle.status.allows_tree_mutation() {
        Err(
            AppErrorView::Conflict {
                message: "cannot add an objective to a closed or archived cycle"@,
            },
        )
    } else if title_outcome(title) is None {
        Err(AppErrorView::Domain(DomainErrorView::EmptyTitle))
    } else {
        match within_cycle_outcome(cycle.start_on, cycle.end_on, start_on, end_on) {
            Ok(()) => Ok(()),
            Err(e) => Err(AppErrorView::Domain(e@)),
        }
    }
}

/// What editing a stored objective of `cycle` decides.
pub open spec fn update_decision(
    v: ObjectiveView,
    cycle: CycleView,
    title: Seq<char>,
    description: Option<Seq<char>>,
    start_on: Option<int>,
    end_on: Option<int>,
    now: int,
) -> Result<ObjectiveView, DomainErrorView> {
    if title_outcome(title) is None {
        Err(DomainErrorView::EmptyTitle)
    } else if v.is_frozen() {
        Err(refusal(v.status.text(), v.status.text()))
    } else {
        match within_cycle_outcome(cycle.start_on, cycle.end_on, start_on, end_on) {
            Err(e) => Err(e@),
            Ok(()) => Ok(
                ObjectiveView {
                    title: title_outcome(title)->Some_0,
                    description: opt_non_blank(description),
                    start_on,
                    end_on,
                    updated_at: now,
                    ..v
                },
            ),
        }
    }
}

/// What activating a stored objective decides.
pub open spec fn activate_decision(v: ObjectiveView, now: int) -> Result<
    ObjectiveView,
    DomainErrorView,
> {
    if v.status == ObjectiveStatus::Draft {
        Ok(v.with_status(ObjectiveStatus::Active, now))
    } else {
        Err(refusal(v.status.text(), "active"@))
    }
}

/// What completing a stored objective decides.
pub open spec fn complete_decision(v: ObjectiveView, now: int) -> Result<
    ObjectiveView,
    DomainErrorView,
> {
    if v.status == ObjectiveStatus::Active {
        Ok(v.with_status(ObjectiveStatus::Completed, now))
    } else {
        Err(refusal(v.status.text(), "completed"@))
    }
}

/// What archiving a stored objective decides.
pub open spec fn archive_decision(v: ObjectiveView, now: int) -> Result<
    ObjectiveView,
    DomainErrorView,
> {
    if v.status != ObjectiveStatus::Archived {
        Ok(v.with_status(ObjectiveStatus::Archived, now))
    } else {
        Err(refusal(v.status.text(), "archived"@))
    }
}

/// Closing or archiving a cycle shuts it to new objectives: once either
/// succeeds, adding an objective to that cycle is refused as a conflict,
/// whatever the objective's title and dates. A cycle just activated is not
/// shut.
pub proof fn closed_cycle_takes_no_objectives(
    v: CycleView,
    now: int,
    title: Seq<char>,
    start_on: Option<int>,
    end_on: Option<int>,
)
    ensures
        crate::services::cycle::close_decision(v, now) matches Ok(w) ==> create_verdict(
            w,
            title,
            start_on,
            end_on,
        ) == Err::<(), AppErrorView>(
            AppErrorView::Conflict {
                message: "cannot add an objective to a closed or archived cycle"@,
            },
        ),
        crate::services::cycle::archive_decision(v, now) matches Ok(w) ==> create_verdict(
            w,
            title,
            start_on,
            end_on,
        ) == Err::<(), AppErrorView>(
            AppErrorView::Conflict {
                message: "cannot add an objective to a closed or archived cycle"@,
            },
        ),
        crate::services::cycle::activate_decision(v, now) matches Ok(w) ==> create_verdict(
            w,
            title,
            start_on,
            end_on,
        ) != Err::<(), AppErrorView>(
            AppErrorView::Conflict {
                message: "cannot add an objective to a closed or archived cycle"@,
            },
        ),
{
}

#[derive(Clone)]
pub struct ObjectiveService<C, O> {
    cycles: C,
    objectives: O,
}

impl<C: CycleRepository, O: ObjectiveRepository> ObjectiveService<C, O> {
    /// The cycles the service reads.
    pub closed spec fn cycles(&self) -> Map<u128, CycleView> {
        self.cycles.cycles()
    }

    /// The objectives the service reads and writes.
    pub closed spec fn objectives(&self) -> Map<u128, ObjectiveView> {
        self.objectives.objectives()
    }

    pub fn new(cycles: C, objectives: O) -> (r: Self)
        ensures
            r.cycles() == cycles.cycles(),
            r.objectives() == objectives.objectives(),
    {
        ObjectiveService { cycles, objectives }
    }

    /// Create a draft objective in a stored cycle that is still open.
    pub fn create(&mut self, cycle_id: CycleId, cmd: CreateObjective, now: Timestamp) -> (r:
        Result<Objective, AppError>)
        ensures
            final(self).cycles() == old(self).cycles(),
            guarded(
                then_check(
                    lookup(old(self).cycles(), "cycle"@, cycle_id@),
                    |c: CycleView|
                        create_verdict(
                            c,
                            cmd.title@,
                            opt_day(cmd.start_on),
                            opt_day(cmd.end_on),
                        ),
                ),
                may_clash(old(self).objectives()),
                result_view(r),
            ),
            r matches Ok(o) ==> is_version_7(o@.id) && o@ == (ObjectiveView {
                id: o@.id,
                cycle_id: cycle_id@,
                title: title_outcome(cmd.title@)->Some_0,
                description: opt_non_blank(opt_text(cmd.description)),
                status: ObjectiveStatus::Draft,
                start_on: opt_day(cmd.start_on),
                end_on: opt_day(cmd.end_on),
                created_at: now@,
                updated_at: now@,
            }) && final(self).objectives() == old(self).objectives().insert(o@.id, o@),
            r is Err ==> final(self).objectives() == old(self).objectives(),
    {
        let cycle = get_cycle(&self.cycles, cycle_id)?;
        ensure_cycle_open(&cycle, "cannot add an objective to a closed or archived cycle")?;
        let title = match Title::parse(cmd.title.as_str()) {
            Ok(t) => t,
            Err(e) => return Err(AppError::Domain(e)),
        };
        let objective = match Objective::create(
            cycle_id,
            title,
            cmd.description,
            cmd.start_on,
            cmd.end_on,
            cycle.start_on(),
            cycle.end_on(),
            now,
        ) {
            Ok(o) => o,
            Err(e) => return Err(AppError::Domain(e)),
        };
        self.objectives.create(&objective)?;
        Ok(objective)
    }

    /// The stored objective with this identifier.
    pub fn get(&self, id: ObjectiveId) -> (r: Result<Objective, AppError>)
        ensures
            reads_one(self.objectives(), "objective"@, id@, result_view(r)),
    {
        load_objective(&self.objectives, id)
    }

    /// The stored objectives of a stored cycle.
    pub fn list_by_cycle(&self, cycle_id: CycleId) -> (r: Result<Vec<Objective>, AppError>)
        ensures
            lists_under(self.cycles(), "cycle"@, cycle_id@, result_view(r)),
            r matches Ok(items) ==> objectives_by_cycle_id(self.objectives(), items@, cycle_id@),
    {
        get_cycle(&self.cycles, cycle_id)?;
        self.objectives.list_by_cycle(cycle_id)
    }

    /// Retitle, describe and re-date a stored objective, within its cycle.
    pub fn update(&mut self, id: ObjectiveId, cmd: UpdateObjective, now: Timestamp) -> (r: Result<
        Objective,
        AppError,
    >)
        ensures
            final(self).cycles() == old(self).cycles(),
            answers(
                match lookup(old(self).objectives(), "objective"@, id@) {
                    Err(e) => Err(e),
                    Ok(v) => match lookup(old(self).cycles(), "cycle"@, v.cycle_id) {
                        Err(e) => Err(e),
                        Ok(cycle) => decided(
                            update_decision(
                                v,
                                cycle,
                                cmd.title@,
                                opt_text(cmd.description),
                                opt_day(cmd.start_on),
                                opt_day(cmd.end_on),
                                now@,
                            ),
                        ),
                    },
                },
                result_view(r),
            ),
            r matches Ok(o) ==> final(self).objectives() == old(self).objectives().insert(id@, o@),
            r is Err ==> final(self).objectives() == old(self).objectives(),
    {
        let mut objective = load_objective(&self.objectives, id)?;
        let cycle = load_cycle(&self.cycles, &objective)?;
        let title = match Title::parse(cmd.title.as_str()) {
            Ok(t) => t,
            Err(e) => return Err(AppError::Domain(e)),
        };
        match objective.update(
            title,
            cmd.description,
            cmd.start_on,
            cmd.end_on,
            cycle.start_on(),
            cycle.end_on(),
            now,
        ) {
            Ok(()) => {},
            Err(e) => return Err(AppError::Domain(e)),
        }
        self.objectives.update(&objective)?;
        Ok(objective)
    }

    /// Activate a stored draft objective.
    pub fn activate(&mut self, id: ObjectiveId, now: Timestamp) -> (r: Result<
        Objective,
        AppError,
    >)
        ensures
            final(self).cycles() == old(self).cycles(),
            changes_one(
                old(self).objectives(),
                final(self).objectives(),
                "objective"@,
                id@,
                result_view(r),
                |v: ObjectiveView| activate_decision(v, now@),
            ),
    {
        let mut objective = load_objective(&self.objectives, id)?;
        match objective.activate(now) {
            Ok(()) => {},
            Err(e) => return Err(AppError::Domain(e)),
        }
        self.objectives.update(&objective)?;
        Ok(objective)
    }

    /// Complete a stored active objective.
    pub fn complete(&mut self, id: ObjectiveId, now: Timestamp) -> (r: Result<
        Objective,
        AppError,
    >)
        ensures
            final(self).cycles() == old(self).cycles(),
            changes_one(
                old(self).objectives(),
                final(self).objectives(),
                "objective"@,
                id@,
                result_view(r),
                |v: ObjectiveView| complete_decision(v, now@),
            ),
    {
        let mut objective = load_objective(&self.objectives, id)?;
        match objective.complete(now) {
            Ok(()) => {},
            Err(e) => return Err(AppError::Domain(e)),
        }
        self.objectives.update(&objective)?;
        Ok(objective)
    }

    /// Archive a stored objective that is not archived yet.
    pub fn archive(&mut self, id: ObjectiveId, now: Timestamp) -> (r: Result<
        Objective,
        AppError,
    >)
        ensures
            final(self).cycles() == old(self).cycles(),
            changes_one(
                old(self).objectives(),
                final(self).objectives(),
                "objective"@,
                id@,
                result_view(r),
                |v: ObjectiveView| archive_decision(v, now@),
            ),
    {
        let mut objective = load_objective(&self.objectives, id)?;
        match objective.archive(now) {
            Ok(()) => {},
            Err(e) => return Err(AppError::Domain(e)),
        }
        self.objectives.update(&objective)?;
        Ok(objective)
    }
}

} // verus!
