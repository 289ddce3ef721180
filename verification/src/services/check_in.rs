//! Use cases on check-ins.
use crate::calendar::{Date, Timestamp};
use crate::check_in::{payload_problem, CheckIn, CheckInView};
use crate::cycle::CycleView;
use crate::error::{AppError, AppErrorView, DomainErrorView};
use crate::ids::{is_version_7, KeyResultId};
use crate::key_result::KeyResultView;
use crate::objective::ObjectiveView;
use crate::parent_progression::{
    ensure_cycle_open, ensure_objective_open, load_cycle, load_objective, objective_line_open,
};
use crate::progress::MilestoneState;
use crate::repos::{
    check_ins_by_key_result_id, CheckInRepository, CycleRepository, KeyResultRepository,
    ObjectiveRepository,
};
use crate::services::key_result::load_key_result;
use crate::services::{guarded, may_clash, lists_under, lookup, result_view};
use crate::text::{opt_non_blank, opt_text};
use vstd::prelude::*;

verus! {

pub struct CreateCheckIn<V> {
    pub value: Option<V>,
    pub state: Option<MilestoneState>,
    pub note: Option<String>,
    pub checked_on: Date,
}

/// What the payload of a check-in on `key_result` decides: it must fit the key
/// result's kind.
pub open spec fn payload_verdict<V>(key_result: KeyResultView<V>, cmd: CreateCheckIn<V>) -> Result<
    (),
    AppErrorView,
> {
    let kind = key_result.definition.kind();
    match payload_problem(
        kind,
        cmd.value is Some,
        cmd.state is Some,
        opt_non_blank(opt_text(cmd.note)),
    ) {
        None => Ok(()),
        Some(reason) => Err(
            AppErrorView::Domain(DomainErrorView::InvalidCheckInPayload { kind: kind.text(), reason }),
        ),
    }
}

/// What recording a check-in on the key result `key_result_id` decides, read
/// from the key result up: each of the key result, its objective and its cycle
/// must be stored and still accept the check-in, in that order, and the
/// payload must fit the key result's kind.
pub open spec fn create_verdict<V>(
    cycles: Map<u128, CycleView>,
    objectives: Map<u128, ObjectiveView>,
    key_results: Map<u128, KeyResultView<V>>,
    key_result_id: u128,
    cmd: CreateCheckIn<V>,
) -> Result<(), AppErrorView> {
    match lookup(key_results, "key_result"@, key_result_id) {
        Err(e) => Err(e),
        Ok(key_result) => if !key_result.status.allows_check_in() {
            Err(
                AppErrorView::Conflict {
                    message: "cannot add a check-in to a completed or archived key result"@,
                },
            )
        } else {
            match lookup(objectives, "objective"@, key_result.objective_id) {
                Err(e) => Err(e),
                Ok(objective) => if !objective.status.allows_children() {
                    Err(
                        AppErrorView::Conflict {
                            message: "cannot add a check-in when the objective is completed or archived"@,
                        },
                    )
                } else {
                    match lookup(cycles, "cycle"@, objective.cycle_id) {
                        Err(e) => Err(e),
                        Ok(cycle) => if !cycle.status.allows_tree_mutation() {
                            Err(
                                AppErrorView::Conflict {
                                    message: "cannot add a check-in to a closed or archived cycle"@,
                                },
                            )
                        } else {
                            payload_verdict(key_result, cmd)
                        },
                    }
                },
            }
        },
    }
}

/// Completing or archiving a key result shuts it to check-ins: once either
/// succeeds and is stored, a check-in on it is refused as a conflict, whatever
/// its objective and cycle hold and whatever the reading. Activating a draft
/// key result does not shut it.
pub proof fn closed_key_result_takes_no_check_ins<V>(
    cycles: Map<u128, CycleView>,
    objectives: Map<u128, ObjectiveView>,
    key_results: Map<u128, KeyResultView<V>>,
    v: KeyResultView<V>,
    now: int,
    cmd: CreateCheckIn<V>,
)
    ensures
        crate::services::key_result::complete_decision(v, now) matches Ok(w) ==> create_verdict(
            cycles,
            objectives,
            key_results.insert(w.id, w),
            w.id,
            cmd,
        ) == Err::<(), AppErrorView>(
            AppErrorView::Conflict {
                message: "cannot add a check-in to a completed or archived key result"@,
            },
        ),
        crate::services::key_result::archive_decision(v, now) matches Ok(w) ==> create_verdict(
            cycles,
            objectives,
            key_results.insert(w.id, w),
            w.id,
            cmd,
        ) == Err::<(), AppErrorView>(
            AppErrorView::Conflict {
                message: "cannot add a check-in to a completed or archived key result"@,
            },
        ),
        crate::services::key_result::activate_decision(v, now) matches Ok(w) ==> create_verdict(
            cycles,
            objectives,
            key_results.insert(w.id, w),
            w.id,
            cmd,
        ) != Err::<(), AppErrorView>(
            AppErrorView::Conflict {
                message: "cannot add a check-in to a completed or archived key result"@,
            },
        ),
{
    reveal_strlit("cannot add a check-in to a completed or archived key result");
    reveal_strlit("cannot add a check-in when the objective is completed or archived");
    reveal_strlit("cannot add a check-in to a closed or archived cycle");
    let closed = "cannot add a check-in to a completed or archived key result"@;
    assert(closed.len() == 59);
    assert("cannot add a check-in when the objective is completed or archived"@.len() == 65);
    assert("cannot add a check-in to a closed or archived cycle"@.len() == 51);
    if let Ok(w) = crate::services::key_result::activate_decision(v, now) {
        let stored = key_results.insert(w.id, w);
        assert(stored.contains_key(w.id) && stored[w.id] == w);
        let verdict = create_verdict(cycles, objectives, stored, w.id, cmd);
        if verdict is Err {
            if let AppErrorView::Conflict { message } = verdict->Err_0 {
                assert(message != closed);
            }
        }
    }
}

#[derive(Clone)]
pub struct CheckInService<C, O, K, I> {
    cycles: C,
    objectives: O,
    key_results: K,
    check_ins: I,
}

impl<C, O, K, I> CheckInService<C, O, K, I> where
    C: CycleRepository,
    O: ObjectiveRepository,
    K: KeyResultRepository,
    I: CheckInRepository<Value = K::Value>,
    K::Value: Copy,
 {
    /// The cycles the service reads.
    pub closed spec fn cycles(&self) -> Map<u128, CycleView> {
        self.cycles.cycles()
    }

    /// The objectives the service reads.
    pub closed spec fn objectives(&self) -> Map<u128, ObjectiveView> {
        self.objectives.objectives()
    }

    /// The key results the service reads.
    pub closed spec fn key_results(&self) -> Map<u128, KeyResultView<K::Value>> {
        self.key_results.key_results()
    }

    /// The check-ins the service reads and writes.
    pub closed spec fn check_ins(&self) -> Map<u128, CheckInView<K::Value>> {
        self.check_ins.check_ins()
    }

    pub fn new(cycles: C, objectives: O, key_results: K, check_ins: I) -> (r: Self)
        ensures
            r.cycles() == cycles.cycles(),
            r.objectives() == objectives.objectives(),
            r.key_results() == key_results.key_results(),
            r.check_ins() == check_ins.check_ins(),
    {
        CheckInService { cycles, objectives, key_results, check_ins }
    }

    /// Record a reading on a stored key result that still takes check-ins,
    /// under an objective and cycle that still accept children. Readings are
    /// only ever added: the ones stored before stay as they were.
    pub fn create(&mut self, key_result_id: KeyResultId, cmd: CreateCheckIn<K::Value>, now: Timestamp) -> (r:
        Result<CheckIn<K::Value>, AppError>)
        ensures
            final(self).cycles() == old(self).cycles(),
            final(self).objectives() == old(self).objectives(),
            final(self).key_results() == old(self).key_results(),
            guarded(
                create_verdict(
                    old(self).cycles(),
                    old(self).objectives(),
                    old(self).key_results(),
                    key_result_id@,
                    cmd,
                ),
                may_clash(old(self).check_ins()),
                result_view(r),
            ),
            r matches Ok(c) ==> is_version_7(c@.id) && c@ == (CheckInView {
                id: c@.id,
                key_result_id: key_result_id@,
                value: cmd.value,
                state: cmd.state,
                note: opt_non_blank(opt_text(cmd.note)),
                checked_on: cmd.checked_on@,
                created_at: now@,
                updated_at: now@,
            }) && !old(self).check_ins().contains_key(c@.id) && final(self).check_ins() == old(
                self,
            ).check_ins().insert(c@.id, c@),
            r is Err ==> final(self).check_ins() == old(self).check_ins(),
    {
        let key_result = load_key_result(&self.key_results, key_result_id)?;
        if !key_result.status().allows_check_in() {
            return Err(
                AppError::conflict("cannot add a check-in to a completed or archived key result"),
            );
        }
        let objective = load_objective(&self.objectives, key_result.objective_id())?;
        ensure_objective_open(
            &objective,
            "cannot add a check-in when the objective is completed or archived",
        )?;
        let cycle = load_cycle(&self.cycles, &objective)?;
        ensure_cycle_open(&cycle, "cannot add a check-in to a closed or archived cycle")?;
        let check_in = match CheckIn::create(
            key_result_id,
            key_result.progress_kind(),
            cmd.value,
            cmd.state,
            cmd.note,
            cmd.checked_on,
            now,
        ) {
            Ok(c) => c,
            Err(e) => return Err(AppError::Domain(e)),
        };
        self.check_ins.create(&check_in)?;
        Ok(check_in)
    }

    /// The stored check-ins of a stored key result.
    pub fn list_by_key_result(&self, key_result_id: KeyResultId) -> (r: Result<
        Vec<CheckIn<K::Value>>,
        AppError,
    >)
        ensures
            lists_under(self.key_results(), "key_result"@, key_result_id@, result_view(r)),
            r matches Ok(items) ==> check_ins_by_key_result_id(
                self.check_ins(),
                items@,
                key_result_id@,
            ),
    {
        load_key_result(&self.key_results, key_result_id)?;
        self.check_ins.list_by_key_result(key_result_id)
    }
}

} // verus!
