//! Storage of the domain's entities, as the use cases need it.
//!
//! Each repository is described by a map from identifier to the entity's view;
//! every operation states how it reads or changes that map. A call may fail
//! only because the store does (`AppError::Persistence`), never for a domain
//! rule; a new entity may also clash with one stored under its identifier
//! (`AppError::Conflict`), and a replacement may find its entity gone
//! (`AppError::NotFound`). A failed write leaves the map as it was.
use crate::calendar::Date;
use crate::check_in::{taken_after, CheckIn, CheckInView};
use crate::cycle::{Cycle, CycleView};
use crate::daily_execution::{DailyExecution, DailyExecutionView};
use crate::error::AppError;
use crate::ids::{
    CheckInId, CycleId, DailyExecutionId, KeyResultId, ObjectiveId, ProjectId, ReviewId, TaskId,
};
use crate::key_result::{KeyResult, KeyResultView};
use crate::objective::{Objective, ObjectiveView};
use crate::project::{Project, ProjectView};
use crate::review::{Review, ReviewView};
use crate::task::{today_candidate, Task, TaskView};
use vstd::prelude::*;

verus! {

/// Whether an entity created at `a_created` with identifier `a_id` is listed
/// before one created at `b_created` with identifier `b_id`: the older first,
/// and of two created at once, the smaller identifier first.
pub open spec fn listed_before(a_created: int, a_id: u128, b_created: int, b_id: u128) -> bool {
    a_created < b_created || (a_created == b_created && a_id < b_id)
}

/// `items` are stored cycles, each as stored, every stored cycle is
/// among them, and they come oldest first.
pub open spec fn all_cycles(model: Map<u128, CycleView>, items: Seq<Cycle>) -> bool {
    &&& forall|i: int|
        0 <= i < items.len() ==> model.contains_key(#[trigger] items[i]@.id) && model[items[i]@.id]
            == items[i]@
    &&& forall|id: u128|
        #[trigger] model.contains_key(id) ==> exists|i: int|
            0 <= i < items.len() && #[trigger] items[i]@.id == id
    &&& forall|i: int, j: int|
        #![trigger items[i], items[j]]
        0 <= i < j < items.len() ==> listed_before(
            items[i]@.created_at,
            items[i]@.id,
            items[j]@.created_at,
            items[j]@.id,
        )
}

/// `items` are stored objectives with this `cycle_id`, each as stored, every
/// stored objective with it is among them, and they come oldest first.
pub open spec fn objectives_by_cycle_id(model: Map<u128, ObjectiveView>, items: Seq<Objective>, cycle_id: u128) -> bool {
    &&& forall|i: int|
        0 <= i < items.len() ==> model.contains_key(#[trigger] items[i]@.id) && model[items[i]@.id]
            == items[i]@ && items[i]@.cycle_id == cycle_id
    &&& forall|id: u128|
        #[trigger] model.contains_key(id) && model[id].cycle_id == cycle_id ==> exists|i: int|
            0 <= i < items.len() && #[trigger] items[i]@.id == id
    &&& forall|i: int, j: int|
        #![trigger items[i], items[j]]
        0 <= i < j < items.len() ==> listed_before(
            items[i]@.created_at,
            items[i]@.id,
            items[j]@.created_at,
            items[j]@.id,
        )
}

/// `items` are stored key results with this `objective_id`, each as stored, every
/// stored key result with it is among them, and they come oldest first.
pub open spec fn key_results_by_objective_id<V>(model: Map<u128, KeyResultView<V>>, items: Seq<KeyResult<V>>, objective_id: u128) -> bool {
    &&& forall|i: int|
        0 <= i < items.len() ==> model.contains_key(#[trigger] items[i]@.id) && model[items[i]@.id]
            == items[i]@ && items[i]@.objective_id == objective_id
    &&& forall|id: u128|
        #[trigger] model.contains_key(id) && model[id].objective_id == objective_id ==> exists|i: int|
            0 <= i < items.len() && #[trigger] items[i]@.id == id
    &&& forall|i: int, j: int|
        #![trigger items[i], items[j]]
        0 <= i < j < items.len() ==> listed_before(
            items[i]@.created_at,
            items[i]@.id,
            items[j]@.created_at,
            items[j]@.id,
        )
}

/// `items` are stored check-ins with this `key_result_id`, each as stored, every
/// stored check-in with it is among them, and they come in the order they were taken.
pub open spec fn check_ins_by_key_result_id<V>(model: Map<u128, CheckInView<V>>, items: Seq<CheckIn<V>>, key_result_id: u128) -> bool {
    &&& forall|i: int|
        0 <= i < items.len() ==> model.contains_key(#[trigger] items[i]@.id) && model[items[i]@.id]
            == items[i]@ && items[i]@.key_result_id == key_result_id
    &&& forall|id: u128|
        #[trigger] model.contains_key(id) && model[id].key_result_id == key_result_id ==> exists|i: int|
            0 <= i < items.len() && #[trigger] items[i]@.id == id
    &&& forall|i: int, j: int|
        #![trigger items[i], items[j]]
        0 <= i < j < items.len() ==> taken_after(items[j]@, items[i]@)
}

/// `items` are stored projects with this `objective_id`, each as stored, every
/// stored project with it is among them, and they come oldest first.
pub open spec fn projects_by_objective_id(model: Map<u128, ProjectView>, items: Seq<Project>, objective_id: u128) -> bool {
    &&& forall|i: int|
        0 <= i < items.len() ==> model.contains_key(#[trigger] items[i]@.id) && model[items[i]@.id]
            == items[i]@ && items[i]@.objective_id == objective_id
    &&& forall|id: u128|
        #[trigger] model.contains_key(id) && model[id].objective_id == objective_id ==> exists|i: int|
            0 <= i < items.len() && #[trigger] items[i]@.id == id
    &&& forall|i: int, j: int|
        #![trigger items[i], items[j]]
        0 <= i < j < items.len() ==> listed_before(
            items[i]@.created_at,
            items[i]@.id,
            items[j]@.created_at,
            items[j]@.id,
        )
}

/// `items` are stored tasks with this `project_id`, each as stored, every
/// stored task with it is among them, and they come oldest first.
pub open spec fn tasks_by_project_id(model: Map<u128, TaskView>, items: Seq<Task>, project_id: u128) -> bool {
    &&& forall|i: int|
        0 <= i < items.len() ==> model.contains_key(#[trigger] items[i]@.id) && model[items[i]@.id]
            == items[i]@ && items[i]@.project_id == project_id
    &&& forall|id: u128|
        #[trigger] model.contains_key(id) && model[id].project_id == project_id ==> exists|i: int|
            0 <= i < items.len() && #[trigger] items[i]@.id == id
    &&& forall|i: int, j: int|
        #![trigger items[i], items[j]]
        0 <= i < j < items.len() ==> listed_before(
            items[i]@.created_at,
            items[i]@.id,
            items[j]@.created_at,
            items[j]@.id,
        )
}

/// `items` are stored daily executions with this `task_id`, each as stored, every
/// stored daily execution with it is among them, and they come oldest first.
pub open spec fn executions_by_task_id(model: Map<u128, DailyExecutionView>, items: Seq<DailyExecution>, task_id: u128) -> bool {
    &&& forall|i: int|
        0 <= i < items.len() ==> model.contains_key(#[trigger] items[i]@.id) && model[items[i]@.id]
            == items[i]@ && items[i]@.task_id == task_id
    &&& forall|id: u128|
        #[trigger] model.contains_key(id) && model[id].task_id == task_id ==> exists|i: int|
            0 <= i < items.len() && #[trigger] items[i]@.id == id
    &&& forall|i: int, j: int|
        #![trigger items[i], items[j]]
        0 <= i < j < items.len() ==> listed_before(
            items[i]@.created_at,
            items[i]@.id,
            items[j]@.created_at,
            items[j]@.id,
        )
}

/// `items` are stored daily executions with this `execution_date`, each as stored, every
/// stored daily execution with it is among them, and they come oldest first.
pub open spec fn executions_by_execution_date(model: Map<u128, DailyExecutionView>, items: Seq<DailyExecution>, execution_date: int) -> bool {
    &&& forall|i: int|
        0 <= i < items.len() ==> model.contains_key(#[trigger] items[i]@.id) && model[items[i]@.id]
            == items[i]@ && items[i]@.execution_date == execution_date
    &&& forall|id: u128|
        #[trigger] model.contains_key(id) && model[id].execution_date == execution_date ==> exists|i: int|
            0 <= i < items.len() && #[trigger] items[i]@.id == id
    &&& forall|i: int, j: int|
        #![trigger items[i], items[j]]
        0 <= i < j < items.len() ==> listed_before(
            items[i]@.created_at,
            items[i]@.id,
            items[j]@.created_at,
            items[j]@.id,
        )
}

/// `items` are stored reviews with this `cycle_id`, each as stored, every
/// stored review with it is among them, and they come oldest first.
pub open spec fn reviews_by_cycle_id(model: Map<u128, ReviewView>, items: Seq<Review>, cycle_id: u128) -> bool {
    &&& forall|i: int|
        0 <= i < items.len() ==> model.contains_key(#[trigger] items[i]@.id) && model[items[i]@.id]
            == items[i]@ && items[i]@.cycle_id == cycle_id
    &&& forall|id: u128|
        #[trigger] model.contains_key(id) && model[id].cycle_id == cycle_id ==> exists|i: int|
            0 <= i < items.len() && #[trigger] items[i]@.id == id
    &&& forall|i: int, j: int|
        #![trigger items[i], items[j]]
        0 <= i < j < items.len() ==> listed_before(
            items[i]@.created_at,
            items[i]@.id,
            items[j]@.created_at,
            items[j]@.id,
        )
}

/// `items` are stored tasks, each as stored and each a candidate for the day
/// `date`, every stored candidate is among them, and none comes twice.
pub open spec fn today_candidates(model: Map<u128, TaskView>, items: Seq<Task>, date: int) -> bool {
    &&& forall|i: int|
        0 <= i < items.len() ==> model.contains_key(#[trigger] items[i]@.id) && model[items[i]@.id]
            == items[i]@ && today_candidate(items[i]@, date)
    &&& forall|id: u128|
        #[trigger] model.contains_key(id) && today_candidate(model[id], date) ==> exists|i: int|
            0 <= i < items.len() && #[trigger] items[i]@.id == id
    &&& forall|i: int, j: int|
        #![trigger items[i], items[j]]
        0 <= i < j < items.len() ==> items[i]@.id != items[j]@.id
}

/// Storage of cycles.
pub trait CycleRepository {
    /// The stored cycles, by identifier, as the contracts below speak of
    /// them. A store verified with this crate defines it; the empty map is
    /// only the default that a store written in plain Rust, which cannot
    /// define a model, is left with, and proofs over a generic store never
    /// rely on it.
    open spec fn cycles(&self) -> Map<u128, CycleView> {
        Map::empty()
    }

    /// Store a new cycle; its identifier must not be stored yet.
    fn create(&mut self, item: &Cycle) -> (r: Result<(), AppError>)
        ensures
            r matches Err(e) ==> e is Persistence || (e is Conflict && old(self).cycles().contains_key(
                item@.id,
            )),
            r is Ok ==> !old(self).cycles().contains_key(item@.id) && final(self).cycles()
                == old(self).cycles().insert(item@.id, item@),
            r is Err ==> final(self).cycles() == old(self).cycles(),
    ;

    /// The stored cycle with this identifier, if any.
    fn get(&self, id: CycleId) -> (r: Result<Option<Cycle>, AppError>)
        ensures
            r matches Err(e) ==> e is Persistence,
            r matches Ok(Some(item)) ==> item@.id == id@ && self.cycles().contains_key(id@)
                && self.cycles()[id@] == item@,
            r matches Ok(None) ==> !self.cycles().contains_key(id@),
    ;

    /// All stored cycles.
    fn list(&self) -> (r: Result<Vec<Cycle>, AppError>)
        ensures
            r matches Err(e) ==> e is Persistence,
            r matches Ok(items) ==> all_cycles(self.cycles(), items@),
    ;

    /// Replace a stored cycle; its identifier must be stored.
    fn update(&mut self, item: &Cycle) -> (r: Result<(), AppError>)
        ensures
            r matches Err(e) ==> e is Persistence || (e is NotFound && !old(self).cycles().contains_key(
                item@.id,
            )),
            r is Ok ==> old(self).cycles().contains_key(item@.id) && final(self).cycles()
                == old(self).cycles().insert(item@.id, item@),
            r is Err ==> final(self).cycles() == old(self).cycles(),
    ;

}

/// Storage of objectives.
pub trait ObjectiveRepository {
    /// The stored objectives, by identifier, as the contracts below speak of
    /// them. A store verified with this crate defines it; the empty map is
    /// only the default that a store written in plain Rust, which cannot
    /// define a model, is left with, and proofs over a generic store never
    /// rely on it.
    open spec fn objectives(&self) -> Map<u128, ObjectiveView> {
        Map::empty()
    }

    /// Store a new objective; its identifier must not be stored yet.
    fn create(&mut self, item: &Objective) -> (r: Result<(), AppError>)
        ensures
            r matches Err(e) ==> e is Persistence || (e is Conflict && old(self).objectives().contains_key(
                item@.id,
            )),
            r is Ok ==> !old(self).objectives().contains_key(item@.id) && final(self).objectives()
                == old(self).objectives().insert(item@.id, item@),
            r is Err ==> final(self).objectives() == old(self).objectives(),
    ;

    /// The stored objective with this identifier, if any.
    fn get(&self, id: ObjectiveId) -> (r: Result<Option<Objective>, AppError>)
        ensures
            r matches Err(e) ==> e is Persistence,
            r matches Ok(Some(item)) ==> item@.id == id@ && self.objectives().contains_key(id@)
                && self.objectives()[id@] == item@,
            r matches Ok(None) ==> !self.objectives().contains_key(id@),
    ;

    /// The stored objectives whose `cycle_id` is the given one.
    fn list_by_cycle(&self, cycle_id: CycleId) -> (r: Result<Vec<Objective>, AppError>)
        ensures
            r matches Err(e) ==> e is Persistence,
            r matches Ok(items) ==> objectives_by_cycle_id(self.objectives(), items@, cycle_id@),
    ;

    /// Replace a stored objective; its identifier must be stored.
    fn update(&mut self, item: &Objective) -> (r: Result<(), AppError>)
        ensures
            r matches Err(e) ==> e is Persistence || (e is NotFound && !old(self).objectives().contains_key(
                item@.id,
            )),
            r is Ok ==> old(self).objectives().contains_key(item@.id) && final(self).objectives()
                == old(self).objectives().insert(item@.id, item@),
            r is Err ==> final(self).objectives() == old(self).objectives(),
    ;

}

/// Storage of key results.
pub trait KeyResultRepository {
    /// The type of the measured values.
    type Value;

    /// The stored key results, by identifier, as the contracts below speak of
    /// them. A store verified with this crate defines it; the empty map is
    /// only the default that a store written in plain Rust, which cannot
    /// define a model, is left with, and proofs over a generic store never
    /// rely on it.
    open spec fn key_results(&self) -> Map<u128, KeyResultView<Self::Value>> {
        Map::empty()
    }

    /// Store a new key result; its identifier must not be stored yet.
    fn create(&mut self, item: &KeyResult<Self::Value>) -> (r: Result<(), AppError>)
        ensures
            r matches Err(e) ==> e is Persistence || (e is Conflict && old(self).key_results().contains_key(
                item@.id,
            )),
            r is Ok ==> !old(self).key_results().contains_key(item@.id) && final(self).key_results()
                == old(self).key_results().insert(item@.id, item@),
            r is Err ==> final(self).key_results() == old(self).key_results(),
    ;

    /// The stored key result with this identifier, if any.
    fn get(&self, id: KeyResultId) -> (r: Result<Option<KeyResult<Self::Value>>, AppError>)
        ensures
            r matches Err(e) ==> e is Persistence,
            r matches Ok(Some(item)) ==> item@.id == id@ && self.key_results().contains_key(id@)
                && self.key_results()[id@] == item@,
            r matches Ok(None) ==> !self.key_results().contains_key(id@),
    ;

    /// The stored key results whose `objective_id` is the given one.
    fn list_by_objective(&self, objective_id: ObjectiveId) -> (r: Result<Vec<KeyResult<Self::Value>>, AppError>)
        ensures
            r matches Err(e) ==> e is Persistence,
            r matches Ok(items) ==> key_results_by_objective_id(self.key_results(), items@, objective_id@),
    ;

    /// Replace a stored key result; its identifier must be stored.
    fn update(&mut self, item: &KeyResult<Self::Value>) -> (r: Result<(), AppError>)
        ensures
            r matches Err(e) ==> e is Persistence || (e is NotFound && !old(self).key_results().contains_key(
                item@.id,
            )),
            r is Ok ==> old(self).key_results().contains_key(item@.id) && final(self).key_results()
                == old(self).key_results().insert(item@.id, item@),
            r is Err ==> final(self).key_results() == old(self).key_results(),
    ;

}

/// Storage of check-ins.
pub trait CheckInRepository {
    /// The type of the measured values.
    type Value;

    /// The stored check-ins, by identifier, as the contracts below speak of
    /// them. A store verified with this crate defines it; the empty map is
    /// only the default that a store written in plain Rust, which cannot
    /// define a model, is left with, and proofs over a generic store never
    /// rely on it.
    open spec fn check_ins(&self) -> Map<u128, CheckInView<Self::Value>> {
        Map::empty()
    }

    /// Store a new check-in; its identifier must not be stored yet.
    fn create(&mut self, item: &CheckIn<Self::Value>) -> (r: Result<(), AppError>)
        ensures
            r matches Err(e) ==> e is Persistence || (e is Conflict && old(self).check_ins().contains_key(
                item@.id,
            )),
            r is Ok ==> !old(self).check_ins().contains_key(item@.id) && final(self).check_ins()
                == old(self).check_ins().insert(item@.id, item@),
            r is Err ==> final(self).check_ins() == old(self).check_ins(),
    ;

    /// The stored check-in with this identifier, if any.
    fn get(&self, id: CheckInId) -> (r: Result<Option<CheckIn<Self::Value>>, AppError>)
        ensures
            r matches Err(e) ==> e is Persistence,
            r matches Ok(Some(item)) ==> item@.id == id@ && self.check_ins().contains_key(id@)
                && self.check_ins()[id@] == item@,
            r matches Ok(None) ==> !self.check_ins().contains_key(id@),
    ;

    /// The stored check-ins whose `key_result_id` is the given one.
    fn list_by_key_result(&self, key_result_id: KeyResultId) -> (r: Result<Vec<CheckIn<Self::Value>>, AppError>)
        ensures
            r matches Err(e) ==> e is Persistence,
            r matches Ok(items) ==> check_ins_by_key_result_id(self.check_ins(), items@, key_result_id@),
    ;

}

/// Storage of projects.
pub trait ProjectRepository {
    /// The stored projects, by identifier, as the contracts below speak of
    /// them. A store verified with this crate defines it; the empty map is
    /// only the default that a store written in plain Rust, which cannot
    /// define a model, is left with, and proofs over a generic store never
    /// rely on it.
    open spec fn projects(&self) -> Map<u128, ProjectView> {
        Map::empty()
    }

    /// Store a new project; its identifier must not be stored yet.
    fn create(&mut self, item: &Project) -> (r: Result<(), AppError>)
        ensures
            r matches Err(e) ==> e is Persistence || (e is Conflict && old(self).projects().contains_key(
                item@.id,
            )),
            r is Ok ==> !old(self).projects().contains_key(item@.id) && final(self).projects()
                == old(self).projects().insert(item@.id, item@),
            r is Err ==> final(self).projects() == old(self).projects(),
    ;

    /// The stored project with this identifier, if any.
    fn get(&self, id: ProjectId) -> (r: Result<Option<Project>, AppError>)
        ensures
            r matches Err(e) ==> e is Persistence,
            r matches Ok(Some(item)) ==> item@.id == id@ && self.projects().contains_key(id@)
                && self.projects()[id@] == item@,
            r matches Ok(None) ==> !self.projects().contains_key(id@),
    ;

    /// The stored projects whose `objective_id` is the given one.
    fn list_by_objective(&self, objective_id: ObjectiveId) -> (r: Result<Vec<Project>, AppError>)
        ensures
            r matches Err(e) ==> e is Persistence,
            r matches Ok(items) ==> projects_by_objective_id(self.projects(), items@, objective_id@),
    ;

    /// Replace a stored project; its identifier must be stored.
    fn update(&mut self, item: &Project) -> (r: Result<(), AppError>)
        ensures
            r matches Err(e) ==> e is Persistence || (e is NotFound && !old(self).projects().contains_key(
                item@.id,
            )),
            r is Ok ==> old(self).projects().contains_key(item@.id) && final(self).projects()
                == old(self).projects().insert(item@.id, item@),
            r is Err ==> final(self).projects() == old(self).projects(),
    ;

}

/// Storage of tasks.
pub trait TaskRepository {
    /// The stored tasks, by identifier, as the contracts below speak of
    /// them. A store verified with this crate defines it; the empty map is
    /// only the default that a store written in plain Rust, which cannot
    /// define a model, is left with, and proofs over a generic store never
    /// rely on it.
    open spec fn tasks(&self) -> Map<u128, TaskView> {
        Map::empty()
    }

    /// Store a new task; its identifier must not be stored yet.
    fn create(&mut self, item: &Task) -> (r: Result<(), AppError>)
        ensures
            r matches Err(e) ==> e is Persistence || (e is Conflict && old(self).tasks().contains_key(
                item@.id,
            )),
            r is Ok ==> !old(self).tasks().contains_key(item@.id) && final(self).tasks()
                == old(self).tasks().insert(item@.id, item@),
            r is Err ==> final(self).tasks() == old(self).tasks(),
    ;

    /// The stored task with this identifier, if any.
    fn get(&self, id: TaskId) -> (r: Result<Option<Task>, AppError>)
        ensures
            r matches Err(e) ==> e is Persistence,
            r matches Ok(Some(item)) ==> item@.id == id@ && self.tasks().contains_key(id@)
                && self.tasks()[id@] == item@,
            r matches Ok(None) ==> !self.tasks().contains_key(id@),
    ;

    /// The stored tasks whose `project_id` is the given one.
    fn list_by_project(&self, project_id: ProjectId) -> (r: Result<Vec<Task>, AppError>)
        ensures
            r matches Err(e) ==> e is Persistence,
            r matches Ok(items) ==> tasks_by_project_id(self.tasks(), items@, project_id@),
    ;

    /// Replace a stored task; its identifier must be stored.
    fn update(&mut self, item: &Task) -> (r: Result<(), AppError>)
        ensures
            r matches Err(e) ==> e is Persistence || (e is NotFound && !old(self).tasks().contains_key(
                item@.id,
            )),
            r is Ok ==> old(self).tasks().contains_key(item@.id) && final(self).tasks()
                == old(self).tasks().insert(item@.id, item@),
            r is Err ==> final(self).tasks() == old(self).tasks(),
    ;

    /// Stored tasks that may show on the page for the day `date`; each one
    /// handed out is stored and is a candidate for that day.
    fn list_today_candidates(&self, date: Date) -> (r: Result<Vec<Task>, AppError>)
        ensures
            r matches Err(e) ==> e is Persistence,
            r matches Ok(items) ==> today_candidates(self.tasks(), items@, date@),
    ;

}

/// Storage of daily executions.
pub trait DailyExecutionRepository {
    /// The stored daily executions, by identifier, as the contracts below speak of
    /// them. A store verified with this crate defines it; the empty map is
    /// only the default that a store written in plain Rust, which cannot
    /// define a model, is left with, and proofs over a generic store never
    /// rely on it.
    open spec fn executions(&self) -> Map<u128, DailyExecutionView> {
        Map::empty()
    }

    /// Store a new daily execution; its identifier must not be stored yet.
    fn create(&mut self, item: &DailyExecution) -> (r: Result<(), AppError>)
        ensures
            r matches Err(e) ==> e is Persistence || (e is Conflict && old(self).executions().contains_key(
                item@.id,
            )),
            r is Ok ==> !old(self).executions().contains_key(item@.id) && final(self).executions()
                == old(self).executions().insert(item@.id, item@),
            r is Err ==> final(self).executions() == old(self).executions(),
    ;

    /// The stored daily execution with this identifier, if any.
    fn get(&self, id: DailyExecutionId) -> (r: Result<Option<DailyExecution>, AppError>)
        ensures
            r matches Err(e) ==> e is Persistence,
            r matches Ok(Some(item)) ==> item@.id == id@ && self.executions().contains_key(id@)
                && self.executions()[id@] == item@,
            r matches Ok(None) ==> !self.executions().contains_key(id@),
    ;

    /// The stored daily executions whose `task_id` is the given one.
    fn list_by_task(&self, task_id: TaskId) -> (r: Result<Vec<DailyExecution>, AppError>)
        ensures
            r matches Err(e) ==> e is Persistence,
            r matches Ok(items) ==> executions_by_task_id(self.executions(), items@, task_id@),
    ;

    /// The stored daily executions whose `execution_date` is the given one.
    fn list_by_date(&self, execution_date: Date) -> (r: Result<Vec<DailyExecution>, AppError>)
        ensures
            r matches Err(e) ==> e is Persistence,
            r matches Ok(items) ==> executions_by_execution_date(self.executions(), items@, execution_date@),
    ;

    /// Replace a stored daily execution; its identifier must be stored.
    fn update(&mut self, item: &DailyExecution) -> (r: Result<(), AppError>)
        ensures
            r matches Err(e) ==> e is Persistence || (e is NotFound && !old(self).executions().contains_key(
                item@.id,
            )),
            r is Ok ==> old(self).executions().contains_key(item@.id) && final(self).executions()
                == old(self).executions().insert(item@.id, item@),
            r is Err ==> final(self).executions() == old(self).executions(),
    ;

}

/// Storage of reviews.
pub trait ReviewRepository {
    /// The stored reviews, by identifier, as the contracts below speak of
    /// them. A store verified with this crate defines it; the empty map is
    /// only the default that a store written in plain Rust, which cannot
    /// define a model, is left with, and proofs over a generic store never
    /// rely on it.
    open spec fn reviews(&self) -> Map<u128, ReviewView> {
        Map::empty()
    }

    /// Store a new review; its identifier must not be stored yet.
    fn create(&mut self, item: &Review) -> (r: Result<(), AppError>)
        ensures
            r matches Err(e) ==> e is Persistence || (e is Conflict && old(self).reviews().contains_key(
                item@.id,
            )),
            r is Ok ==> !old(self).reviews().contains_key(item@.id) && final(self).reviews()
                == old(self).reviews().insert(item@.id, item@),
            r is Err ==> final(self).reviews() == old(self).reviews(),
    ;

    /// The stored review with this identifier, if any.
    fn get(&self, id: ReviewId) -> (r: Result<Option<Review>, AppError>)
        ensures
            r matches Err(e) ==> e is Persistence,
            r matches Ok(Some(item)) ==> item@.id == id@ && self.reviews().contains_key(id@)
                && self.reviews()[id@] == item@,
            r matches Ok(None) ==> !self.reviews().contains_key(id@),
    ;

    /// The stored reviews whose `cycle_id` is the given one.
    fn list_by_cycle(&self, cycle_id: CycleId) -> (r: Result<Vec<Review>, AppError>)
        ensures
            r matches Err(e) ==> e is Persistence,
            r matches Ok(items) ==> reviews_by_cycle_id(self.reviews(), items@, cycle_id@),
    ;

}

} // verus!
