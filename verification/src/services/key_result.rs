//! Use cases on key results, each answered with the key result's current
//! reading taken from its latest check-in.
use crate::calendar::Timestamp;
use crate::check_in::{latest_check_in, taken_after, CheckInView};
use crate::cycle::CycleView;
use crate::error::{store_failure, AppError, AppErrorView, DomainErrorView};
use crate::ids::{is_version_7, KeyResultId, ObjectiveId};
use crate::key_result::{KeyResult, KeyResultView};
use crate::objective::ObjectiveView;
use crate::parent_progression::{
    ensure_cycle_open, ensure_objective_open, load_cycle, load_objective, objective_line_open,
};
use crate::progress::{
    definition_outcome, DefinitionView, MilestoneState, ProgressDefinition, ProgressKind,
};
use crate::repos::{
    check_ins_by_key_result_id, key_results_by_objective_id, CheckInRepository, CycleRepository,
    KeyResultRepository, ObjectiveRepository,
};
use crate::services::{
    answers, decided, guarded, may_clash, lists_under, lookup, reads_one, refusal, result_view,
};
use crate::status::KeyResultStatus;
use crate::text::{opt_non_blank, opt_text};
use crate::title::{title_outcome, Title};
use vstd::prelude::*;

verus! {

pub struct CreateKeyResult<V> {
    pub title: String,
    pub description: Option<String>,
    pub progress_kind: ProgressKind,
    pub start_value: Option<V>,
    pub target_value: Option<V>,
    pub unit: Option<String>,
}

pub struct UpdateKeyResult<V> {
    pub title: String,
    pub description: Option<String>,
    pub start_value: Option<V>,
    pub target_value: Option<V>,
    pub unit: Option<String>,
}

/// A key result with its current reading.
#[derive(Debug)]
pub struct KeyResultSnapshot<V> {
    pub key_result: KeyResult<V>,
    pub current_value: Option<V>,
    pub current_state: Option<MilestoneState>,
    pub latest_note: Option<String>,
}

/// `latest` is the latest stored check-in of the key result `key_result_id`
/// (none is taken after it), or `None` when it has no stored check-in.
pub open spec fn latest_stored<V>(
    check_ins: Map<u128, CheckInView<V>>,
    key_result_id: u128,
    latest: Option<CheckInView<V>>,
) -> bool {
    match latest {
        None => forall|id: u128| #[trigger]
            check_ins.contains_key(id) ==> check_ins[id].key_result_id != key_result_id,
        Some(c) => {
            &&& check_ins.contains_key(c.id) && check_ins[c.id] == c
            &&& c.key_result_id == key_result_id
            &&& forall|id: u128|
                #[trigger] check_ins.contains_key(id) && check_ins[id].key_result_id
                    == key_result_id ==> !taken_after(check_ins[id], c)
        },
    }
}

/// The reading that `snapshot` reports for `key_result` when `latest` is its
/// latest check-in.
pub open spec fn reading_matches<V>(
    s: KeyResultSnapshot<V>,
    key_result: KeyResultView<V>,
    latest: Option<CheckInView<V>>,
) -> bool {
    &&& s.key_result@ == key_result
    &&& s.current_value == key_result.current_value(
        match latest {
            Some(c) => Some(c.value),
            None => None,
        },
    )
    &&& s.current_state == key_result.current_state(
        match latest {
            Some(c) => Some(c.state),
            None => None,
        },
    )
    &&& opt_text(s.latest_note) == match latest {
        Some(c) => c.note,
        None => None,
    }
}

/// `s` is the snapshot of `key_result` over the stored check-ins.
pub open spec fn snapshot_of<V>(
    s: KeyResultSnapshot<V>,
    key_result: KeyResultView<V>,
    check_ins: Map<u128, CheckInView<V>>,
) -> bool {
    exists|latest: Option<CheckInView<V>>|
        latest_stored(check_ins, key_result.id, latest) && #[trigger] reading_matches(
            s,
            key_result,
            latest,
        )
}

/// The refusal of a definition for a key result of `kind`, if any.
pub open spec fn definition_verdict<V>(
    kind: ProgressKind,
    start_value: Option<V>,
    target_value: Option<V>,
    unit: Option<String>,
) -> Result<DefinitionView<V>, DomainErrorView> {
    match definition_outcome(kind, start_value, target_value, opt_non_blank(opt_text(unit))) {
        Ok(d) => Ok(d),
        Err(reason) => Err(DomainErrorView::InvalidProgressDefinition { kind: kind.text(), reason }),
    }
}

/// What adding a key result under the objective `objective_id` decides: the
/// objective and its cycle must be stored and still accept children, then the
/// title must not be blank and the definition must fit the kind.
pub open spec fn create_verdict<V>(
    cycles: Map<u128, CycleView>,
    objectives: Map<u128, ObjectiveView>,
    objective_id: u128,
    cmd: CreateKeyResult<V>,
) -> Result<(), AppErrorView> {
    match mutation_verdict(cycles, objectives, objective_id) {
        Err(e) => Err(e),
        Ok(()) => if title_outcome(cmd.title@) is None {
            Err(AppErrorView::Domain(DomainErrorView::EmptyTitle))
        } else {
            match definition_verdict(
                cmd.progress_kind,
                cmd.start_value,
                cmd.target_value,
                cmd.unit,
            ) {
                Ok(_) => Ok(()),
                Err(e) => Err(AppErrorView::Domain(e)),
            }
        },
    }
}

/// What adding children under the objective `objective_id` decides: the
/// objective and its cycle must be stored and still accept children.
pub open spec fn mutation_verdict(
    cycles: Map<u128, CycleView>,
    objectives: Map<u128, ObjectiveView>,
    objective_id: u128,
) -> Result<(), AppErrorView> {
    objective_line_open(
        cycles,
        objectives,
        objective_id,
        "cannot add a key result to a completed or archived objective"@,
        "cannot add a key result to a closed or archived cycle"@,
    )
}

/// What editing a stored key result decides: the title must not be blank, the
/// definition must fit the key result's kind, and the key result must be
/// neither completed nor archived.
pub open spec fn update_decision<V>(v: KeyResultView<V>, cmd: UpdateKeyResult<V>, now: int) -> Result<
    KeyResultView<V>,
    DomainErrorView,
> {
    if title_outcome(cmd.title@) is None {
        Err(DomainErrorView::EmptyTitle)
    } else {
        match definition_verdict(
            v.definition.kind(),
            cmd.start_value,
            cmd.target_value,
            cmd.unit,
        ) {
            Err(e) => Err(e),
            Ok(d) => if v.is_frozen() {
                Err(refusal(v.status.text(), v.status.text()))
            } else {
                Ok(
                    KeyResultView {
                        title: title_outcome(cmd.title@)->Some_0,
                        description: opt_non_blank(opt_text(cmd.description)),
                        definition: d,
                        updated_at: now,
                        ..v
                    },
                )
            },
        }
    }
}

/// What activating a stored key result decides.
pub open spec fn activate_decision<V>(v: KeyResultView<V>, now: int) -> Result<
    KeyResultView<V>,
    DomainErrorView,
> {
    if v.status == KeyResultStatus::Draft {
        Ok(v.with_status(KeyResultStatus::Active, now))
    } else {
        Err(refusal(v.status.text(), "active"@))
    }
}

/// What completing a stored key result decides.
pub open spec fn complete_decision<V>(v: KeyResultView<V>, now: int) -> Result<
    KeyResultView<V>,
    DomainErrorView,
> {
    if v.status == KeyResultStatus::Active {
        Ok(v.with_status(KeyResultStatus::Completed, now))
    } else {
        Err(refusal(v.status.text(), "completed"@))
    }
}

/// What archiving a stored key result decides.
pub open spec fn archive_decision<V>(v: KeyResultView<V>, now: int) -> Result<
    KeyResultView<V>,
    DomainErrorView,
> {
    if v.status != KeyResultStatus::Archived {
        Ok(v.with_status(KeyResultStatus::Archived, now))
    } else {
        Err(refusal(v.status.text(), "archived"@))
    }
}

/// A use case that decides with `decide` on the stored key result `id`, stores
/// the decision and answers with its snapshot: it answers the decision (or the
/// error of the key result missing) unless the store failed; a success is
/// stored, with its reading; a refusal changes nothing; after a failure of the
/// store, the store holds what it held or the decision.
pub open spec fn changes_key_result<V>(
    before: Map<u128, KeyResultView<V>>,
    after: Map<u128, KeyResultView<V>>,
    check_ins: Map<u128, CheckInView<V>>,
    id: u128,
    result: Result<KeyResultSnapshot<V>, AppError>,
    decide: spec_fn(KeyResultView<V>) -> Result<KeyResultView<V>, DomainErrorView>,
) -> bool {
    let decision = match lookup(before, "key_result"@, id) {
        Ok(v) => decided(decide(v)),
        Err(e) => Err(e),
    };
    &&& answers(
        decision,
        match result {
            Ok(s) => Ok(s.key_result@),
            Err(e) => Err(e@),
        },
    )
    &&& result matches Ok(s) ==> after == before.insert(id, s.key_result@) && snapshot_of(
        s,
        s.key_result@,
        check_ins,
    )
    &&& (result matches Err(e) && !store_failure(e@)) ==> after == before
    &&& result is Err ==> after == before || (decision is Ok && after == before.insert(
        id,
        decision->Ok_0,
    ))
}

/// The key result that creating one under `objective_id` with `cmd` makes,
/// given its identifier.
pub open spec fn created_key_result<V>(
    id: u128,
    objective_id: u128,
    cmd: CreateKeyResult<V>,
    now: int,
) -> KeyResultView<V> {
    KeyResultView {
        id,
        objective_id,
        title: title_outcome(cmd.title@)->Some_0,
        description: opt_non_blank(opt_text(cmd.description)),
        status: KeyResultStatus::Draft,
        definition: definition_verdict(
            cmd.progress_kind,
            cmd.start_value,
            cmd.target_value,
            cmd.unit,
        )->Ok_0,
        created_at: now,
        updated_at: now,
    }
}

/// Loads the stored key result with this identifier; a missing one is not found.
pub fn load_key_result<K: KeyResultRepository>(key_results: &K, id: KeyResultId) -> (r: Result<
    KeyResult<K::Value>,
    AppError,
>)
    ensures
        reads_one(key_results.key_results(), "key_result"@, id@, result_view(r)),
        r matches Ok(k) ==> k@.id == id@,
{
    match key_results.get(id) {
        Ok(Some(k)) => Ok(k),
        Ok(None) => Err(AppError::not_found("key_result", id.to_string())),
        Err(e) => Err(e),
    }
}

#[derive(Clone)]
pub struct KeyResultService<C, O, K, I> {
    cycles: C,
    objectives: O,
    key_results: K,
    check_ins: I,
}

impl<C, O, K, I> KeyResultService<C, O, K, I> where
    C: CycleRepository,
    O: ObjectiveRepository,
    K: KeyResultRepository,
    I: CheckInRepository<Value = K::Value>,
    K::Value: Copy,
 {
    /// The cycles the service reads.
    pub closed spec fn cycles(&self) -> Map<u128, CycleView> {
        self.cycles.cycles()
    }

    /// The objectives the service reads.
    pub closed spec fn objectives(&self) -> Map<u128, ObjectiveView> {
        self.objectives.objectives()
    }

    /// The key results the service reads and writes.
    pub closed spec fn key_results(&self) -> Map<u128, KeyResultView<K::Value>> {
        self.key_results.key_results()
    }

    /// The check-ins the service reads.
    pub closed spec fn check_ins(&self) -> Map<u128, CheckInView<K::Value>> {
        self.check_ins.check_ins()
    }

    pub fn new(cycles: C, objectives: O, key_results: K, check_ins: I) -> (r: Self)
        ensures
            r.cycles() == cycles.cycles(),
            r.objectives() == objectives.objectives(),
            r.key_results() == key_results.key_results(),
            r.check_ins() == check_ins.check_ins(),
    {
        KeyResultService { cycles, objectives, key_results, check_ins }
    }

    /// Add a draft key result under a stored objective whose objective and
    /// cycle still accept children.
    pub fn create(
        &mut self,
        objective_id: ObjectiveId,
        cmd: CreateKeyResult<K::Value>,
        now: Timestamp,
    ) -> (r: Result<KeyResultSnapshot<K::Value>, AppError>)
        ensures
            final(self).cycles() == old(self).cycles(),
            final(self).objectives() == old(self).objectives(),
            final(self).check_ins() == old(self).check_ins(),
            guarded(
                create_verdict(old(self).cycles(), old(self).objectives(), objective_id@, cmd),
                may_clash(old(self).key_results()),
                match r {
                    Ok(s) => Ok(s.key_result@),
                    Err(e) => Err(e@),
                },
            ),
            r matches Ok(s) ==> is_version_7(s.key_result@.id) && s.key_result@
                == created_key_result(s.key_result@.id, objective_id@, cmd, now@)
                && final(self).key_results() == old(self).key_results().insert(
                s.key_result@.id,
                s.key_result@,
            ) && snapshot_of(s, s.key_result@, old(self).check_ins()),
            create_verdict(old(self).cycles(), old(self).objectives(), objective_id@, cmd) is Err
                ==> final(self).key_results() == old(self).key_results(),
            r is Err ==> final(self).key_results() == old(self).key_results() || exists|
                id: u128,
            |
                is_version_7(id) && final(self).key_results() == old(self).key_results().insert(
                    id,
                    #[trigger] created_key_result(id, objective_id@, cmd, now@),
                ),
    {
        self.ensure_can_mutate_objective(objective_id)?;
        let title = match Title::parse(cmd.title.as_str()) {
            Ok(t) => t,
            Err(e) => return Err(AppError::Domain(e)),
        };
        let definition = match ProgressDefinition::parse(
            cmd.progress_kind,
            cmd.start_value,
            cmd.target_value,
            cmd.unit,
        ) {
            Ok(d) => d,
            Err(e) => return Err(AppError::Domain(e)),
        };
        let key_result = KeyResult::create(objective_id, title, cmd.description, definition, now);
        let ghost created = key_result@;
        self.key_results.create(&key_result)?;
        let r = self.snapshot(key_result);
        assert(created == created_key_result(created.id, objective_id@, cmd, now@));
        r
    }

    /// The stored key result with this identifier, with its reading.
    pub fn get(&self, id: KeyResultId) -> (r: Result<KeyResultSnapshot<K::Value>, AppError>)
        ensures
            reads_one(
                self.key_results(),
                "key_result"@,
                id@,
                match r {
                    Ok(s) => Ok(s.key_result@),
                    Err(e) => Err(e@),
                },
            ),
            r matches Ok(s) ==> snapshot_of(s, s.key_result@, self.check_ins()),
    {
        let key_result = load_key_result(&self.key_results, id)?;
        self.snapshot(key_result)
    }

    /// The stored key results of a stored objective, each with its reading.
    pub fn list_by_objective(&self, objective_id: ObjectiveId) -> (r: Result<
        Vec<KeyResultSnapshot<K::Value>>,
        AppError,
    >)
        ensures
            lists_under(self.objectives(), "objective"@, objective_id@, result_view(r)),
            r matches Ok(snapshots) ==> key_results_by_objective_id(
                self.key_results(),
                snapshots@.map_values(|s: KeyResultSnapshot<K::Value>| s.key_result),
                objective_id@,
            ) && forall|i: int|
                0 <= i < snapshots@.len() ==> snapshot_of(
                    #[trigger] snapshots@[i],
                    snapshots@[i].key_result@,
                    self.check_ins(),
                ),
    {
        load_objective(&self.objectives, objective_id)?;
        let mut items = self.key_results.list_by_objective(objective_id)?;
        let ghost all = items@;
        let mut snapshots: Vec<KeyResultSnapshot<K::Value>> = Vec::new();
        while items.len() > 0
            invariant
                snapshots@.len() + items@.len() == all.len(),
                items@ == all.subrange(snapshots@.len() as int, all.len() as int),
                snapshots@.map_values(|s: KeyResultSnapshot<K::Value>| s.key_result) =~= all.subrange(
                    0,
                    snapshots@.len() as int,
                ),
                forall|i: int|
                    0 <= i < snapshots@.len() ==> snapshot_of(
                        #[trigger] snapshots@[i],
                        snapshots@[i].key_result@,
                        self.check_ins(),
                    ),
            decreases items@.len(),
        {
            let key_result = items.remove(0);
            let s = self.snapshot(key_result)?;
            let ghost before = snapshots@;
            snapshots.push(s);
            assert(snapshots@.map_values(|s: KeyResultSnapshot<K::Value>| s.key_result) =~= before.map_values(
                |s: KeyResultSnapshot<K::Value>| s.key_result,
            ).push(all[before.len() as int]));
        }
        assert(all.subrange(0, all.len() as int) =~= all);
        Ok(snapshots)
    }

    /// Retitle, describe and re-measure a stored key result, keeping its kind.
    pub fn update(&mut self, id: KeyResultId, cmd: UpdateKeyResult<K::Value>, now: Timestamp) -> (r:
        Result<KeyResultSnapshot<K::Value>, AppError>)
        ensures
            final(self).cycles() == old(self).cycles(),
            final(self).objectives() == old(self).objectives(),
            final(self).check_ins() == old(self).check_ins(),
            changes_key_result(
                old(self).key_results(),
                final(self).key_results(),
                old(self).check_ins(),
                id@,
                r,
                |v: KeyResultView<K::Value>| update_decision(v, cmd, now@),
            ),
    {
        let mut key_result = load_key_result(&self.key_results, id)?;
        let title = match Title::parse(cmd.title.as_str()) {
            Ok(t) => t,
            Err(e) => return Err(AppError::Domain(e)),
        };
        let definition = match ProgressDefinition::parse(
            key_result.progress_kind(),
            cmd.start_value,
            cmd.target_value,
            cmd.unit,
        ) {
            Ok(d) => d,
            Err(e) => return Err(AppError::Domain(e)),
        };
        match key_result.update(title, cmd.description, definition, now) {
            Ok(()) => {},
            Err(e) => return Err(AppError::Domain(e)),
        }
        self.key_results.update(&key_result)?;
        self.snapshot(key_result)
    }

    /// Activate a stored draft key result.
    pub fn activate(&mut self, id: KeyResultId, now: Timestamp) -> (r: Result<
        KeyResultSnapshot<K::Value>,
        AppError,
    >)
        ensures
            final(self).cycles() == old(self).cycles(),
            final(self).objectives() == old(self).objectives(),
            final(self).check_ins() == old(self).check_ins(),
            changes_key_result(
                old(self).key_results(),
                final(self).key_results(),
                old(self).check_ins(),
                id@,
                r,
                |v: KeyResultView<K::Value>| activate_decision(v, now@),
            ),
    {
        let mut key_result = load_key_result(&self.key_results, id)?;
        match key_result.activate(now) {
            Ok(()) => {},
            Err(e) => return Err(AppError::Domain(e)),
        }
        self.key_results.update(&key_result)?;
        self.snapshot(key_result)
    }

    /// Complete a stored active key result.
    pub fn complete(&mut self, id: KeyResultId, now: Timestamp) -> (r: Result<
        KeyResultSnapshot<K::Value>,
        AppError,
    >)
        ensures
            final(self).cycles() == old(self).cycles(),
            final(self).objectives() == old(self).objectives(),
            final(self).check_ins() == old(self).check_ins(),
            changes_key_result(
                old(self).key_results(),
                final(self).key_results(),
                old(self).check_ins(),
                id@,
                r,
                |v: KeyResultView<K::Value>| complete_decision(v, now@),
            ),
    {
        let mut key_result = load_key_result(&self.key_results, id)?;
        match key_result.complete(now) {
            Ok(()) => {},
            Err(e) => return Err(AppError::Domain(e)),
        }
        self.key_results.update(&key_result)?;
        self.snapshot(key_result)
    }

    /// Archive a stored key result that is not archived yet.
    pub fn archive(&mut self, id: KeyResultId, now: Timestamp) -> (r: Result<
        KeyResultSnapshot<K::Value>,
        AppError,
    >)
        ensures
            final(self).cycles() == old(self).cycles(),
            final(self).objectives() == old(self).objectives(),
            final(self).check_ins() == old(self).check_ins(),
            changes_key_result(
                old(self).key_results(),
                final(self).key_results(),
                old(self).check_ins(),
                id@,
                r,
                |v: KeyResultView<K::Value>| archive_decision(v, now@),
            ),
    {
        let mut key_result = load_key_result(&self.key_results, id)?;
        match key_result.archive(now) {
            Ok(()) => {},
            Err(e) => return Err(AppError::Domain(e)),
        }
        self.key_results.update(&key_result)?;
        self.snapshot(key_result)
    }

    /// The key result with its reading from the latest of its stored check-ins.
    fn snapshot(&self, key_result: KeyResult<K::Value>) -> (r: Result<
        KeyResultSnapshot<K::Value>,
        AppError,
    >)
        ensures
            r matches Ok(s) ==> s.key_result == key_result && snapshot_of(
                s,
                key_result@,
                self.check_ins(),
            ),
            r matches Err(e) ==> store_failure(e@),
    {
        let check_ins = self.check_ins.list_by_key_result(key_result.id())?;
        let latest = latest_check_in(check_ins.as_slice());
        let current_value = key_result.current_value(latest);
        let current_state = key_result.current_state(latest);
        let latest_note = match key_result.latest_note(latest) {
            Some(n) => Some(n.to_owned()),
            None => None,
        };
        let ghost latest_view: Option<CheckInView<K::Value>> = match latest {
            Some(c) => Some(c@),
            None => None,
        };
        proof {
            let model = self.check_ins();
            let items = check_ins@;
            let kr = key_result@.id;
            match latest {
                Some(c) => {
                    let i = choose|i: int|
                        crate::check_in::is_latest_at(items, i) && *c == items[i];
                    assert forall|id: u128|
                        #[trigger] model.contains_key(id) && model[id].key_result_id
                            == kr implies !taken_after(model[id], c@) by {
                        let j = choose|j: int| 0 <= j < items.len() && #[trigger] items[j]@.id == id;
                        assert(!taken_after(items[j]@, items[i]@));
                    }
                },
                None => {
                    assert forall|id: u128| #[trigger]
                        model.contains_key(id) implies model[id].key_result_id != kr by {
                        if model[id].key_result_id == kr {
                            let j = choose|j: int|
                                0 <= j < items.len() && #[trigger] items[j]@.id == id;
                        }
                    }
                },
            }
        }
        let s = KeyResultSnapshot { key_result, current_value, current_state, latest_note };
        assert(latest_stored(self.check_ins(), s.key_result@.id, latest_view) && reading_matches(
            s,
            s.key_result@,
            latest_view,
        ));
        Ok(s)
    }

    /// Refuses adding children under an objective, or the cycle above it, that
    /// no longer accepts them.
    fn ensure_can_mutate_objective(&self, objective_id: ObjectiveId) -> (r: Result<
        (),
        AppError,
    >)
        ensures
            answers(
                mutation_verdict(self.cycles(), self.objectives(), objective_id@),
                match r {
                    Ok(u) => Ok(u),
                    Err(e) => Err(e@),
                },
            ),
    {
        let objective = load_objective(&self.objectives, objective_id)?;
        ensure_objective_open(
            &objective,
            "cannot add a key result to a completed or archived objective",
        )?;
        let cycle = load_cycle(&self.cycles, &objective)?;
        ensure_cycle_open(&cycle, "cannot add a key result to a closed or archived cycle")?;
        Ok(())
    }
}

} // verus!
