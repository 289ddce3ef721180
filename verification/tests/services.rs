use std::cell::RefCell;
use std::collections::HashMap;
use std::rc::Rc;

use forge::calendar::{Date, Timestamp};
use forge::check_in::CheckIn;
use forge::cycle::Cycle;
use forge::daily_execution::DailyExecution;
use forge::error::AppError;
use forge::ids::{
    CheckInId, CycleId, DailyExecutionId, KeyResultId, ObjectiveId, ProjectId, ReviewId, TaskId,
};
use forge::key_result::KeyResult;
use forge::objective::Objective;
use forge::project::Project;
use forge::repos::{
    CheckInRepository, CycleRepository, DailyExecutionRepository, KeyResultRepository,
    ObjectiveRepository, ProjectRepository, ReviewRepository, TaskRepository,
};
use forge::review::Review;
use forge::task::{is_today_candidate, Task};

fn order(created_at: Timestamp, id: u128) -> (i128, u128) {
    (created_at.unix_nanos(), id)
}

#[derive(Clone, Default)]
struct Cycles(Rc<RefCell<HashMap<u128, Cycle>>>);

impl CycleRepository for Cycles {
    fn create(&mut self, item: &Cycle) -> Result<(), AppError> {
        let mut items = self.0.borrow_mut();
        if items.contains_key(&item.id().as_uuid()) {
            return Err(AppError::conflict("cycle already exists"));
        }
        items.insert(item.id().as_uuid(), item.clone());
        Ok(())
    }

    fn get(&self, id: CycleId) -> Result<Option<Cycle>, AppError> {
        Ok(self.0.borrow().get(&id.as_uuid()).cloned())
    }

    fn list(&self) -> Result<Vec<Cycle>, AppError> {
        let mut items: Vec<Cycle> = self.0.borrow().values().cloned().collect();
        items.sort_by_key(|c| order(c.created_at(), c.id().as_uuid()));
        Ok(items)
    }

    fn update(&mut self, item: &Cycle) -> Result<(), AppError> {
        let mut items = self.0.borrow_mut();
        if !items.contains_key(&item.id().as_uuid()) {
            return Err(AppError::not_found("cycle", item.id().to_string()));
        }
        items.insert(item.id().as_uuid(), item.clone());
        Ok(())
    }
}

#[derive(Clone, Default)]
struct Objectives(Rc<RefCell<HashMap<u128, Objective>>>);

impl ObjectiveRepository for Objectives {
    fn create(&mut self, item: &Objective) -> Result<(), AppError> {
        let mut items = self.0.borrow_mut();
        if items.contains_key(&item.id().as_uuid()) {
            return Err(AppError::conflict("objective already exists"));
        }
        items.insert(item.id().as_uuid(), item.clone());
        Ok(())
    }

    fn get(&self, id: ObjectiveId) -> Result<Option<Objective>, AppError> {
        Ok(self.0.borrow().get(&id.as_uuid()).cloned())
    }

    fn list_by_cycle(&self, cycle_id: CycleId) -> Result<Vec<Objective>, AppError> {
        let mut items: Vec<Objective> = self
            .0
            .borrow()
            .values()
            .filter(|o| o.cycle_id() == cycle_id)
            .cloned()
            .collect();
        items.sort_by_key(|o| order(o.created_at(), o.id().as_uuid()));
        Ok(items)
    }

    fn update(&mut self, item: &Objective) -> Result<(), AppError> {
        let mut items = self.0.borrow_mut();
        if !items.contains_key(&item.id().as_uuid()) {
            return Err(AppError::not_found("objective", item.id().to_string()));
        }
        items.insert(item.id().as_uuid(), item.clone());
        Ok(())
    }
}

#[derive(Clone, Default)]
struct KeyResults(Rc<RefCell<HashMap<u128, KeyResult<f64>>>>);

impl KeyResultRepository for KeyResults {
    type Value = f64;

    fn create(&mut self, item: &KeyResult<f64>) -> Result<(), AppError> {
        let mut items = self.0.borrow_mut();
        if items.contains_key(&item.id().as_uuid()) {
            return Err(AppError::conflict("key result already exists"));
        }
        items.insert(item.id().as_uuid(), item.clone());
        Ok(())
    }

    fn get(&self, id: KeyResultId) -> Result<Option<KeyResult<f64>>, AppError> {
        Ok(self.0.borrow().get(&id.as_uuid()).cloned())
    }

    fn list_by_objective(&self, objective_id: ObjectiveId) -> Result<Vec<KeyResult<f64>>, AppError> {
        let mut items: Vec<KeyResult<f64>> = self
            .0
            .borrow()
            .values()
            .filter(|k| k.objective_id() == objective_id)
            .cloned()
            .collect();
        items.sort_by_key(|k| order(k.created_at(), k.id().as_uuid()));
        Ok(items)
    }

    fn update(&mut self, item: &KeyResult<f64>) -> Result<(), AppError> {
        let mut items = self.0.borrow_mut();
        if !items.contains_key(&item.id().as_uuid()) {
            return Err(AppError::not_found("key_result", item.id().to_string()));
        }
        items.insert(item.id().as_uuid(), item.clone());
        Ok(())
    }
}

#[derive(Clone, Default)]
struct CheckIns(Rc<RefCell<HashMap<u128, CheckIn<f64>>>>);

impl CheckInRepository for CheckIns {
    type Value = f64;

    fn create(&mut self, item: &CheckIn<f64>) -> Result<(), AppError> {
        let mut items = self.0.borrow_mut();
        if items.contains_key(&item.id().as_uuid()) {
            return Err(AppError::conflict("check-in already exists"));
        }
        items.insert(item.id().as_uuid(), item.clone());
        Ok(())
    }

    fn get(&self, id: CheckInId) -> Result<Option<CheckIn<f64>>, AppError> {
        Ok(self.0.borrow().get(&id.as_uuid()).cloned())
    }

    fn list_by_key_result(&self, key_result_id: KeyResultId) -> Result<Vec<CheckIn<f64>>, AppError> {
        let mut items: Vec<CheckIn<f64>> = self
            .0
            .borrow()
            .values()
            .filter(|c| c.key_result_id() == key_result_id)
            .cloned()
            .collect();
        items.sort_by_key(|c| {
            (
                c.checked_on().julian_day(),
                c.created_at().unix_nanos(),
                c.id().as_uuid(),
            )
        });
        Ok(items)
    }
}

#[derive(Clone, Default)]
struct Projects(Rc<RefCell<HashMap<u128, Project>>>);

impl ProjectRepository for Projects {
    fn create(&mut self, item: &Project) -> Result<(), AppError> {
        let mut items = self.0.borrow_mut();
        if items.contains_key(&item.id().as_uuid()) {
            return Err(AppError::conflict("project already exists"));
        }
        items.insert(item.id().as_uuid(), item.clone());
        Ok(())
    }

    fn get(&self, id: ProjectId) -> Result<Option<Project>, AppError> {
        Ok(self.0.borrow().get(&id.as_uuid()).cloned())
    }

    fn list_by_objective(&self, objective_id: ObjectiveId) -> Result<Vec<Project>, AppError> {
        let mut items: Vec<Project> = self
            .0
            .borrow()
            .values()
            .filter(|p| p.objective_id() == objective_id)
            .cloned()
            .collect();
        items.sort_by_key(|p| order(p.created_at(), p.id().as_uuid()));
        Ok(items)
    }

    fn update(&mut self, item: &Project) -> Result<(), AppError> {
        let mut items = self.0.borrow_mut();
        if !items.contains_key(&item.id().as_uuid()) {
            return Err(AppError::not_found("project", item.id().to_string()));
        }
        items.insert(item.id().as_uuid(), item.clone());
        Ok(())
    }
}

#[derive(Clone, Default)]
struct Tasks(Rc<RefCell<HashMap<u128, Task>>>);

impl TaskRepository for Tasks {
    fn create(&mut self, item: &Task) -> Result<(), AppError> {
        let mut items = self.0.borrow_mut();
        if items.contains_key(&item.id().as_uuid()) {
            return Err(AppError::conflict("task already exists"));
        }
        items.insert(item.id().as_uuid(), item.clone());
        Ok(())
    }

    fn get(&self, id: TaskId) -> Result<Option<Task>, AppError> {
        Ok(self.0.borrow().get(&id.as_uuid()).cloned())
    }

    fn list_by_project(&self, project_id: ProjectId) -> Result<Vec<Task>, AppError> {
        let mut items: Vec<Task> = self
            .0
            .borrow()
            .values()
            .filter(|t| t.project_id() == project_id)
            .cloned()
            .collect();
        items.sort_by_key(|t| order(t.created_at(), t.id().as_uuid()));
        Ok(items)
    }

    fn update(&mut self, item: &Task) -> Result<(), AppError> {
        let mut items = self.0.borrow_mut();
        if !items.contains_key(&item.id().as_uuid()) {
            return Err(AppError::not_found("task", item.id().to_string()));
        }
        items.insert(item.id().as_uuid(), item.clone());
        Ok(())
    }

    fn list_today_candidates(&self, date: Date) -> Result<Vec<Task>, AppError> {
        let mut items: Vec<Task> = self
            .0
            .borrow()
            .values()
            .filter(|t| is_today_candidate(t, date))
            .cloned()
            .collect();
        items.sort_by_key(|t| order(t.created_at(), t.id().as_uuid()));
        Ok(items)
    }
}

#[derive(Clone, Default)]
struct Executions(Rc<RefCell<HashMap<u128, DailyExecution>>>);

impl DailyExecutionRepository for Executions {
    fn create(&mut self, item: &DailyExecution) -> Result<(), AppError> {
        let mut items = self.0.borrow_mut();
        if items.contains_key(&item.id().as_uuid()) {
            return Err(AppError::conflict("daily execution already exists"));
        }
        items.insert(item.id().as_uuid(), item.clone());
        Ok(())
    }

    fn get(&self, id: DailyExecutionId) -> Result<Option<DailyExecution>, AppError> {
        Ok(self.0.borrow().get(&id.as_uuid()).cloned())
    }

    fn list_by_task(&self, task_id: TaskId) -> Result<Vec<DailyExecution>, AppError> {
        let mut items: Vec<DailyExecution> = self
            .0
            .borrow()
            .values()
            .filter(|x| x.task_id() == task_id)
            .cloned()
            .collect();
        items.sort_by_key(|x| order(x.created_at(), x.id().as_uuid()));
        Ok(items)
    }

    fn list_by_date(&self, execution_date: Date) -> Result<Vec<DailyExecution>, AppError> {
        let mut items: Vec<DailyExecution> = self
            .0
            .borrow()
            .values()
            .filter(|x| x.execution_date() == execution_date)
            .cloned()
            .collect();
        items.sort_by_key(|x| order(x.created_at(), x.id().as_uuid()));
        Ok(items)
    }

    fn update(&mut self, item: &DailyExecution) -> Result<(), AppError> {
        let mut items = self.0.borrow_mut();
        if !items.contains_key(&item.id().as_uuid()) {
            return Err(AppError::not_found("daily_execution", item.id().to_string()));
        }
        items.insert(item.id().as_uuid(), item.clone());
        Ok(())
    }
}

#[derive(Clone, Default)]
struct Reviews(Rc<RefCell<HashMap<u128, Review>>>);

impl ReviewRepository for Reviews {
    fn create(&mut self, item: &Review) -> Result<(), AppError> {
        let mut items = self.0.borrow_mut();
        if items.contains_key(&item.id().as_uuid()) {
            return Err(AppError::conflict("review already exists"));
        }
        items.insert(item.id().as_uuid(), item.clone());
        Ok(())
    }

    fn get(&self, id: ReviewId) -> Result<Option<Review>, AppError> {
        Ok(self.0.borrow().get(&id.as_uuid()).cloned())
    }

    fn list_by_cycle(&self, cycle_id: CycleId) -> Result<Vec<Review>, AppError> {
        let mut items: Vec<Review> = self
            .0
            .borrow()
            .values()
            .filter(|r| r.cycle_id() == cycle_id)
            .cloned()
            .collect();
        items.sort_by_key(|r| order(r.created_at(), r.id().as_uuid()));
        Ok(items)
    }
}

use forge::error::DomainError;
use forge::progress::{MilestoneState, ProgressKind};
use forge::services::check_in::{CheckInService, CreateCheckIn};
use forge::services::cycle::{CreateCycle, CycleService, UpdateCycle};
use forge::services::daily_execution::{
    CreateDailyExecution, DailyExecutionService, UpdateDailyExecution,
};
use forge::services::key_result::{CreateKeyResult, KeyResultService, UpdateKeyResult};
use forge::services::objective::{CreateObjective, ObjectiveService, UpdateObjective};
use forge::services::project::{CreateProject, ProjectService};
use forge::services::review::{CreateReview, ReviewService};
use forge::services::task::{sort_into_buckets, CreateTask, TaskService};
use forge::status::{
    CycleStatus, DailyExecutionStatus, KeyResultStatus, ObjectiveStatus, ProjectStatus, TaskStatus,
};

fn day(year: i32, month: u8, d: u8) -> Date {
    Date::from_calendar_date(year, month, d).unwrap()
}

fn at(year: i32, month: u8, d: u8, hour: i128, minute: i128, second: i128) -> Timestamp {
    let days = day(year, month, d).julian_day() as i128 - 2_440_588;
    let seconds = days * 86_400 + hour * 3_600 + minute * 60 + second;
    Timestamp::from_unix_nanos(seconds * 1_000_000_000).unwrap()
}

fn now() -> Timestamp {
    at(2026, 1, 15, 12, 0, 0)
}

fn today() -> Date {
    day(2026, 8, 30)
}

fn yesterday() -> Date {
    day(2026, 8, 29)
}

fn tomorrow() -> Date {
    day(2026, 8, 31)
}

struct Stores {
    cycles: Cycles,
    objectives: Objectives,
    key_results: KeyResults,
    check_ins: CheckIns,
    projects: Projects,
    tasks: Tasks,
    executions: Executions,
}

impl Stores {
    fn new() -> Stores {
        Stores {
            cycles: Cycles::default(),
            objectives: Objectives::default(),
            key_results: KeyResults::default(),
            check_ins: CheckIns::default(),
            projects: Projects::default(),
            tasks: Tasks::default(),
            executions: Executions::default(),
        }
    }

    fn cycle_svc(&self) -> CycleService<Cycles> {
        CycleService::new(self.cycles.clone())
    }

    fn objective_svc(&self) -> ObjectiveService<Cycles, Objectives> {
        ObjectiveService::new(self.cycles.clone(), self.objectives.clone())
    }

    fn kr_svc(&self) -> KeyResultService<Cycles, Objectives, KeyResults, CheckIns> {
        KeyResultService::new(
            self.cycles.clone(),
            self.objectives.clone(),
            self.key_results.clone(),
            self.check_ins.clone(),
        )
    }

    fn check_svc(&self) -> CheckInService<Cycles, Objectives, KeyResults, CheckIns> {
        CheckInService::new(
            self.cycles.clone(),
            self.objectives.clone(),
            self.key_results.clone(),
            self.check_ins.clone(),
        )
    }

    fn project_svc(&self) -> ProjectService<Cycles, Objectives, Projects> {
        ProjectService::new(self.cycles.clone(), self.objectives.clone(), self.projects.clone())
    }

    fn task_svc(&self) -> TaskService<Cycles, Objectives, Projects, Tasks> {
        TaskService::new(
            self.cycles.clone(),
            self.objectives.clone(),
            self.projects.clone(),
            self.tasks.clone(),
        )
    }

    fn execution_svc(&self) -> DailyExecutionService<Tasks, Executions> {
        DailyExecutionService::new(self.tasks.clone(), self.executions.clone())
    }
}

fn q1(stores: &Stores) -> Cycle {
    stores
        .cycle_svc()
        .create(
            CreateCycle { name: "Q1".to_string(), start_on: day(2026, 1, 1), end_on: day(2026, 3, 31) },
            now(),
        )
        .unwrap()
}

fn ship(stores: &Stores, cycle: &Cycle) -> Objective {
    stores
        .objective_svc()
        .create(
            cycle.id(),
            CreateObjective {
                title: "Ship".to_string(),
                description: None,
                start_on: None,
                end_on: None,
            },
            now(),
        )
        .unwrap()
}

fn work(stores: &Stores, objective: &Objective) -> Project {
    stores
        .project_svc()
        .create(objective.id(), CreateProject { title: "Work".to_string(), description: None }, now())
        .unwrap()
}

fn numeric_kr(title: &str, start: f64, target: f64) -> CreateKeyResult<f64> {
    CreateKeyResult {
        title: title.to_string(),
        description: None,
        progress_kind: ProgressKind::Numeric,
        start_value: Some(start),
        target_value: Some(target),
        unit: None,
    }
}

// ---- cycles ----

#[test]
fn create_activate_close_and_reject_children_after_close() {
    let stores = Stores::new();
    let mut svc = stores.cycle_svc();
    let created = svc
        .create(
            CreateCycle {
                name: "  2026 Q1  ".to_string(),
                start_on: day(2026, 1, 1),
                end_on: day(2026, 3, 31),
            },
            now(),
        )
        .unwrap();
    assert_eq!(created.name().as_str(), "2026 Q1");
    assert_eq!(created.status(), CycleStatus::Planning);

    let active = svc.activate(created.id(), now()).unwrap();
    assert_eq!(active.status(), CycleStatus::Active);
    let closed = svc.close(created.id(), now()).unwrap();
    assert_eq!(closed.status(), CycleStatus::Closed);
    assert!(!closed.status().allows_tree_mutation());
}

#[test]
fn multiple_active_cycles_are_allowed() {
    let stores = Stores::new();
    let mut svc = stores.cycle_svc();
    let first = svc
        .create(
            CreateCycle { name: "A".to_string(), start_on: day(2026, 1, 1), end_on: day(2026, 3, 31) },
            now(),
        )
        .unwrap();
    let second = svc
        .create(
            CreateCycle { name: "B".to_string(), start_on: day(2026, 4, 1), end_on: day(2026, 6, 30) },
            now(),
        )
        .unwrap();
    svc.activate(first.id(), now()).unwrap();
    svc.activate(second.id(), now()).unwrap();
    assert_eq!(svc.list().unwrap().len(), 2);
}

#[test]
fn refused_cycle_update_changes_nothing() {
    let stores = Stores::new();
    let mut svc = stores.cycle_svc();
    let cycle = q1(&stores);
    let err = svc
        .update(
            cycle.id(),
            UpdateCycle { name: "Q1".to_string(), start_on: day(2026, 3, 31), end_on: day(2026, 1, 1) },
            at(2026, 2, 1, 0, 0, 0),
        )
        .unwrap_err();
    assert_eq!(err, AppError::Domain(DomainError::InvalidDateRange));
    assert_eq!(svc.get(cycle.id()).unwrap(), cycle);
    let missing = svc.activate(CycleId::new(), now()).unwrap_err();
    assert!(matches!(missing, AppError::NotFound { entity: "cycle", .. }));
}

// ---- objectives ----

#[test]
fn cannot_create_after_cycle_close() {
    let stores = Stores::new();
    let cycle = q1(&stores);
    let mut cycles = stores.cycle_svc();
    cycles.activate(cycle.id(), now()).unwrap();
    cycles.close(cycle.id(), now()).unwrap();
    let err = stores
        .objective_svc()
        .create(
            cycle.id(),
            CreateObjective { title: "Nope".to_string(), description: None, start_on: None, end_on: None },
            now(),
        )
        .unwrap_err();
    assert!(matches!(err, AppError::Conflict { .. }));
    assert_eq!(
        err,
        AppError::conflict("cannot add an objective to a closed or archived cycle")
    );
}

#[test]
fn objective_service_rejects_dates_outside_cycle() {
    let stores = Stores::new();
    let cycle = q1(&stores);
    let err = stores
        .objective_svc()
        .create(
            cycle.id(),
            CreateObjective {
                title: "Outside".to_string(),
                description: None,
                start_on: Some(day(2025, 12, 1)),
                end_on: Some(day(2026, 3, 31)),
            },
            now(),
        )
        .unwrap_err();
    assert!(matches!(err, AppError::Domain(_)));
}

#[test]
fn completed_objective_cannot_create_children_flag() {
    let stores = Stores::new();
    let cycle = q1(&stores);
    let mut objectives = stores.objective_svc();
    let created = objectives
        .create(
            cycle.id(),
            CreateObjective {
                title: "Ship".to_string(),
                description: None,
                start_on: Some(day(2026, 1, 1)),
                end_on: Some(day(2026, 3, 31)),
            },
            now(),
        )
        .unwrap();
    objectives.activate(created.id(), now()).unwrap();
    let completed = objectives.complete(created.id(), now()).unwrap();
    assert!(!completed.status().allows_children());
}

// ---- key results and check-ins ----

#[test]
fn derived_current_reading() {
    let stores = Stores::new();
    let cycle = q1(&stores);
    let objective = stores
        .objective_svc()
        .create(
            cycle.id(),
            CreateObjective { title: "Health".to_string(), description: None, start_on: None, end_on: None },
            now(),
        )
        .unwrap();
    let mut kr_svc = stores.kr_svc();
    let created = kr_svc
        .create(
            objective.id(),
            CreateKeyResult {
                title: "Weight".to_string(),
                description: None,
                progress_kind: ProgressKind::Numeric,
                start_value: Some(500.0),
                target_value: Some(200.0),
                unit: Some("kg".to_string()),
            },
            now(),
        )
        .unwrap();
    assert_eq!(created.current_value, Some(500.0));
    assert_eq!(created.key_result.progress_kind(), ProgressKind::Numeric);

    stores
        .check_svc()
        .create(
            created.key_result.id(),
            CreateCheckIn { value: Some(300.0), state: None, note: None, checked_on: day(2026, 2, 1) },
            now(),
        )
        .unwrap();
    let updated = kr_svc.get(created.key_result.id()).unwrap();
    assert_eq!(updated.current_value, Some(300.0));

    let mut objectives = stores.objective_svc();
    objectives.activate(objective.id(), now()).unwrap();
    objectives.complete(objective.id(), now()).unwrap();
    let blocked = kr_svc.create(objective.id(), numeric_kr("Late", 0.0, 1.0), now()).unwrap_err();
    assert!(matches!(blocked, AppError::Conflict { .. }));
}

#[test]
fn creates_each_progress_kind_reading() {
    let stores = Stores::new();
    let cycle = q1(&stores);
    let objective = ship(&stores, &cycle);
    let mut kr_svc = stores.kr_svc();
    let percentage = kr_svc
        .create(
            objective.id(),
            CreateKeyResult {
                title: "Coverage".to_string(),
                description: None,
                progress_kind: ProgressKind::Percentage,
                start_value: Some(60.0),
                target_value: Some(90.0),
                unit: None,
            },
            now(),
        )
        .unwrap();
    assert_eq!(percentage.current_value, Some(60.0));

    let milestone = kr_svc
        .create(
            objective.id(),
            CreateKeyResult {
                title: "Launch".to_string(),
                description: None,
                progress_kind: ProgressKind::Milestone,
                start_value: None,
                target_value: None,
                unit: None,
            },
            now(),
        )
        .unwrap();
    assert_eq!(milestone.current_state, Some(MilestoneState::NotStarted));
    assert_eq!(milestone.current_value, None);

    let qualitative = kr_svc
        .create(
            objective.id(),
            CreateKeyResult {
                title: "Learn".to_string(),
                description: None,
                progress_kind: ProgressKind::Qualitative,
                start_value: None,
                target_value: None,
                unit: None,
            },
            now(),
        )
        .unwrap();
    assert_eq!(qualitative.latest_note, None);
    assert_eq!(qualitative.current_value, None);
    assert_eq!(kr_svc.list_by_objective(objective.id()).unwrap().len(), 3);
}

#[test]
fn key_result_update_keeps_kind_and_refusal_changes_nothing() {
    let stores = Stores::new();
    let cycle = q1(&stores);
    let objective = ship(&stores, &cycle);
    let mut kr_svc = stores.kr_svc();
    let kr = kr_svc.create(objective.id(), numeric_kr("KR", 0.0, 10.0), now()).unwrap();
    let err = kr_svc
        .update(
            kr.key_result.id(),
            UpdateKeyResult {
                title: "KR".to_string(),
                description: None,
                start_value: None,
                target_value: None,
                unit: None,
            },
            now(),
        )
        .unwrap_err();
    assert!(matches!(err, AppError::Domain(DomainError::InvalidProgressDefinition { .. })));
    let updated = kr_svc
        .update(
            kr.key_result.id(),
            UpdateKeyResult {
                title: " Renamed ".to_string(),
                description: None,
                start_value: Some(1.0),
                target_value: Some(5.0),
                unit: Some("km".to_string()),
            },
            now(),
        )
        .unwrap();
    assert_eq!(updated.key_result.title().as_str(), "Renamed");
    assert_eq!(updated.current_value, Some(1.0));
    assert_eq!(updated.key_result.unit(), Some("km"));
    kr_svc.activate(kr.key_result.id(), now()).unwrap();
    let done = kr_svc.complete(kr.key_result.id(), now()).unwrap();
    assert_eq!(done.key_result.status(), KeyResultStatus::Completed);
    assert!(kr_svc.complete(kr.key_result.id(), now()).is_err());
    let archived = kr_svc.archive(kr.key_result.id(), now()).unwrap();
    assert_eq!(archived.key_result.status(), KeyResultStatus::Archived);
}

#[test]
fn rejects_check_in_on_closed_cycle() {
    let stores = Stores::new();
    let cycle = q1(&stores);
    let objective = ship(&stores, &cycle);
    let kr = stores.kr_svc().create(objective.id(), numeric_kr("KR", 0.0, 10.0), now()).unwrap();
    let mut cycles = stores.cycle_svc();
    cycles.activate(cycle.id(), now()).unwrap();
    cycles.close(cycle.id(), now()).unwrap();
    let err = stores
        .check_svc()
        .create(
            kr.key_result.id(),
            CreateCheckIn { value: Some(3.0), state: None, note: None, checked_on: day(2026, 2, 1) },
            now(),
        )
        .unwrap_err();
    assert!(matches!(err, AppError::Conflict { .. }));
}

#[test]
fn check_ins_are_append_only_and_latest_wins() {
    let stores = Stores::new();
    let cycle = q1(&stores);
    let objective = ship(&stores, &cycle);
    let kr_svc = {
        let mut svc = stores.kr_svc();
        let kr = svc.create(objective.id(), numeric_kr("KR", 0.0, 10.0), now()).unwrap();
        (svc, kr)
    };
    let (kr_svc, kr) = kr_svc;
    let mut check_svc = stores.check_svc();
    let first = check_svc
        .create(
            kr.key_result.id(),
            CreateCheckIn { value: Some(3.0), state: None, note: None, checked_on: day(2026, 1, 10) },
            now(),
        )
        .unwrap();
    let second = check_svc
        .create(
            kr.key_result.id(),
            CreateCheckIn { value: Some(7.0), state: None, note: None, checked_on: day(2026, 1, 20) },
            now(),
        )
        .unwrap();
    let history = check_svc.list_by_key_result(kr.key_result.id()).unwrap();
    assert_eq!(history.len(), 2);
    assert_eq!(history[0].id(), first.id());
    assert_eq!(history[1].id(), second.id());
    assert_eq!(kr_svc.get(kr.key_result.id()).unwrap().current_value, Some(7.0));
}

#[test]
fn rejects_check_in_payload_that_does_not_match_kind() {
    let stores = Stores::new();
    let cycle = q1(&stores);
    let objective = ship(&stores, &cycle);
    let kr = stores
        .kr_svc()
        .create(
            objective.id(),
            CreateKeyResult {
                title: "Launch".to_string(),
                description: None,
                progress_kind: ProgressKind::Milestone,
                start_value: None,
                target_value: None,
                unit: None,
            },
            now(),
        )
        .unwrap();
    let err = stores
        .check_svc()
        .create(
            kr.key_result.id(),
            CreateCheckIn { value: Some(1.0), state: None, note: None, checked_on: day(2026, 2, 1) },
            now(),
        )
        .unwrap_err();
    assert!(matches!(err, AppError::Domain(_)));
    assert_eq!(
        err,
        AppError::Domain(DomainError::InvalidCheckInPayload { kind: "milestone", reason: "state is required" })
    );
}

// ---- projects ----

#[test]
fn belongs_to_objective_and_lifecycle() {
    let stores = Stores::new();
    let cycle = q1(&stores);
    let objective = ship(&stores, &cycle);
    let mut project_svc = stores.project_svc();
    let project = project_svc
        .create(objective.id(), CreateProject { title: "Workstream".to_string(), description: None }, now())
        .unwrap();
    assert_eq!(project.objective_id(), objective.id());
    assert!(project.status().allows_tasks());
    let active = project_svc.activate(project.id(), now()).unwrap();
    assert!(active.status().allows_tasks());
    assert_eq!(stores.cycle_svc().get(cycle.id()).unwrap().status(), CycleStatus::Active);
    assert_eq!(
        stores.objective_svc().get(objective.id()).unwrap().status(),
        ObjectiveStatus::Active
    );
}

#[test]
fn activate_project_rejects_closed_cycle_without_activating_project() {
    let stores = Stores::new();
    let cycle = q1(&stores);
    let objective = ship(&stores, &cycle);
    let project = work(&stores, &objective);
    let mut cycles = stores.cycle_svc();
    cycles.activate(cycle.id(), now()).unwrap();
    cycles.close(cycle.id(), now()).unwrap();
    let mut project_svc = stores.project_svc();
    let err = project_svc.activate(project.id(), now()).unwrap_err();
    assert!(matches!(err, AppError::Domain(_)));
    assert_eq!(project_svc.get(project.id()).unwrap().status(), ProjectStatus::Draft);
    assert_eq!(
        stores.objective_svc().get(objective.id()).unwrap().status(),
        ObjectiveStatus::Draft
    );
}

// ---- reviews ----

#[test]
fn review_allowed_after_cycle_close() {
    let stores = Stores::new();
    let cycle = q1(&stores);
    let mut cycles = stores.cycle_svc();
    cycles.activate(cycle.id(), now()).unwrap();
    cycles.close(cycle.id(), now()).unwrap();
    let mut reviews = ReviewService::new(stores.cycles.clone(), Reviews::default());
    let review = reviews
        .create(
            cycle.id(),
            CreateReview {
                content: "What worked".to_string(),
                period_start: Some(day(2026, 1, 1)),
                period_end: Some(day(2026, 3, 31)),
            },
            now(),
        )
        .unwrap();
    assert_eq!(review.cycle_id(), cycle.id());
    assert_eq!(reviews.list_by_cycle(cycle.id()).unwrap().len(), 1);
}

// ---- daily executions ----

#[test]
fn create_and_list_by_date() {
    let stores = Stores::new();
    let cycle = q1(&stores);
    let objective = ship(&stores, &cycle);
    let project = work(&stores, &objective);
    stores.project_svc().activate(project.id(), now()).unwrap();
    let task = stores
        .task_svc()
        .create(
            project.id(),
            CreateTask { title: "Do it".to_string(), description: None, scheduled_on: None },
            now(),
        )
        .unwrap();
    let mut svc = stores.execution_svc();
    let created = svc
        .create(
            task.id(),
            CreateDailyExecution {
                execution_date: day(2026, 1, 15),
                notes: Some("notes".to_string()),
                status: DailyExecutionStatus::Planned,
            },
            now(),
        )
        .unwrap();
    assert_eq!(svc.list_by_date(day(2026, 1, 15)).unwrap().len(), 1);
    assert_eq!(created.task_id(), task.id());
    let updated = svc
        .update(
            created.id(),
            UpdateDailyExecution { notes: Some("   ".to_string()), status: DailyExecutionStatus::Completed },
            now(),
        )
        .unwrap();
    assert_eq!(updated.notes(), None);
    assert_eq!(updated.status(), DailyExecutionStatus::Completed);
    assert_eq!(svc.list_by_task(task.id()).unwrap().len(), 1);
}

#[test]
fn cancelled_task_takes_no_daily_execution() {
    let stores = Stores::new();
    let cycle = q1(&stores);
    let objective = ship(&stores, &cycle);
    let project = work(&stores, &objective);
    let mut tasks = stores.task_svc();
    let task = tasks
        .create(
            project.id(),
            CreateTask { title: "Dropped".to_string(), description: None, scheduled_on: None },
            now(),
        )
        .unwrap();
    tasks.cancel(task.id(), now()).unwrap();
    let err = stores
        .execution_svc()
        .create(
            task.id(),
            CreateDailyExecution {
                execution_date: day(2026, 1, 15),
                notes: None,
                status: DailyExecutionStatus::Planned,
            },
            now(),
        )
        .unwrap_err();
    assert_eq!(err, AppError::conflict("cannot add a daily execution to a cancelled task"));
}

// ---- tasks ----

#[test]
fn draft_or_active_project_can_create_task() {
    let stores = Stores::new();
    let cycle = q1(&stores);
    let objective = ship(&stores, &cycle);
    let project = work(&stores, &objective);
    let mut project_svc = stores.project_svc();
    let mut task_svc = stores.task_svc();
    let on_draft = task_svc
        .create(
            project.id(),
            CreateTask { title: "Plan it".to_string(), description: None, scheduled_on: None },
            now(),
        )
        .unwrap();
    assert_eq!(on_draft.status(), TaskStatus::Todo);

    project_svc.complete(project.id(), now()).unwrap_err();
    project_svc.activate(project.id(), now()).unwrap();
    let task = task_svc
        .create(
            project.id(),
            CreateTask { title: "Do it".to_string(), description: None, scheduled_on: None },
            now(),
        )
        .unwrap();
    let started = task_svc.start(task.id(), now()).unwrap();
    assert_eq!(started.status(), TaskStatus::InProgress);
    let done = task_svc.complete(task.id(), now()).unwrap();
    assert_eq!(done.status(), TaskStatus::Done);
    assert!(task_svc.cancel(task.id(), now()).is_err());

    project_svc.complete(project.id(), now()).unwrap();
    let blocked = task_svc
        .create(
            project.id(),
            CreateTask { title: "Too late".to_string(), description: None, scheduled_on: None },
            now(),
        )
        .unwrap_err();
    assert!(matches!(blocked, AppError::Conflict { .. }));
}

struct Fixture {
    stores: Stores,
    tasks: TaskService<Cycles, Objectives, Projects, Tasks>,
    project_id: ProjectId,
}

fn fixture() -> Fixture {
    let stores = Stores::new();
    let cycle = q1(&stores);
    let objective = ship(&stores, &cycle);
    let project = work(&stores, &objective);
    stores.project_svc().activate(project.id(), now()).unwrap();
    let tasks = stores.task_svc();
    Fixture { stores, tasks, project_id: project.id() }
}

fn create_named(fx: &mut Fixture, title: &str, scheduled_on: Option<Date>) -> Task {
    fx.tasks
        .create(
            fx.project_id,
            CreateTask { title: title.to_string(), description: None, scheduled_on },
            now(),
        )
        .unwrap()
}

fn ids(tasks: &[Task]) -> Vec<TaskId> {
    tasks.iter().map(Task::id).collect()
}

fn completed_today() -> Timestamp {
    at(2026, 8, 30, 15, 0, 0)
}

fn completed_tomorrow() -> Timestamp {
    at(2026, 8, 31, 15, 0, 0)
}

#[test]
fn task_service_create_without_scheduled_on() {
    let mut fx = fixture();
    let task = create_named(&mut fx, "Unscheduled", None);
    assert_eq!(task.scheduled_on(), None);
    assert_eq!(fx.tasks.get(task.id()).unwrap().scheduled_on(), None);
}

#[test]
fn task_service_create_with_scheduled_on() {
    let mut fx = fixture();
    let task = create_named(&mut fx, "Planned", Some(today()));
    assert_eq!(task.scheduled_on(), Some(today()));
    assert_eq!(fx.tasks.get(task.id()).unwrap().scheduled_on(), Some(today()));
}

#[test]
fn task_service_schedule_todo() {
    let mut fx = fixture();
    let task = create_named(&mut fx, "Todo", None);
    let scheduled = fx.tasks.schedule(task.id(), Some(today()), now()).unwrap();
    assert_eq!(scheduled.scheduled_on(), Some(today()));
    assert_eq!(scheduled.status(), TaskStatus::Todo);
}

#[test]
fn task_service_reschedule_todo() {
    let mut fx = fixture();
    let task = create_named(&mut fx, "Todo", Some(today()));
    let scheduled = fx.tasks.schedule(task.id(), Some(tomorrow()), now()).unwrap();
    assert_eq!(scheduled.scheduled_on(), Some(tomorrow()));
}

#[test]
fn task_service_unschedule_todo() {
    let mut fx = fixture();
    let task = create_named(&mut fx, "Todo", Some(today()));
    let unscheduled = fx.tasks.schedule(task.id(), None, now()).unwrap();
    assert_eq!(unscheduled.scheduled_on(), None);
}

#[test]
fn task_service_schedule_in_progress() {
    let mut fx = fixture();
    let task = create_named(&mut fx, "Started", None);
    fx.tasks.start(task.id(), now()).unwrap();
    let scheduled = fx.tasks.schedule(task.id(), Some(today()), now()).unwrap();
    assert_eq!(scheduled.scheduled_on(), Some(today()));
    assert_eq!(scheduled.status(), TaskStatus::InProgress);
}

#[test]
fn task_service_terminal_task_cannot_schedule() {
    let mut fx = fixture();
    let task = create_named(&mut fx, "Done", None);
    fx.tasks.start(task.id(), now()).unwrap();
    fx.tasks.complete(task.id(), now()).unwrap();
    let err = fx.tasks.schedule(task.id(), Some(today()), now()).unwrap_err();
    assert!(matches!(err, AppError::Domain(_)));
}

#[test]
fn task_service_terminal_task_cannot_unschedule() {
    let mut fx = fixture();
    let task = create_named(&mut fx, "Done", Some(today()));
    fx.tasks.start(task.id(), now()).unwrap();
    fx.tasks.complete(task.id(), now()).unwrap();
    let err = fx.tasks.schedule(task.id(), None, now()).unwrap_err();
    assert!(matches!(err, AppError::Domain(_)));
    assert_eq!(fx.tasks.get(task.id()).unwrap().scheduled_on(), Some(today()));
}

#[test]
fn schedule_persists_through_repository() {
    let mut fx = fixture();
    let task = create_named(&mut fx, "Persisted", None);
    fx.tasks.schedule(task.id(), Some(today()), now()).unwrap();
    assert_eq!(
        fx.stores.tasks.get(task.id()).unwrap().unwrap().scheduled_on(),
        Some(today())
    );
}

#[test]
fn today_scheduled() {
    let mut fx = fixture();
    let task = create_named(&mut fx, "Today", Some(today()));
    let page = fx.tasks.today(today()).unwrap();
    assert_eq!(page.date, today());
    assert_eq!(ids(&page.scheduled), vec![task.id()]);
    assert!(page.overdue.is_empty());
}

#[test]
fn today_overdue() {
    let mut fx = fixture();
    let task = create_named(&mut fx, "Late", Some(yesterday()));
    let page = fx.tasks.today(today()).unwrap();
    assert_eq!(ids(&page.overdue), vec![task.id()]);
    assert!(page.scheduled.is_empty());
}

#[test]
fn today_unscheduled_in_progress() {
    let mut fx = fixture();
    let task = create_named(&mut fx, "Going", None);
    fx.tasks.start(task.id(), now()).unwrap();
    let page = fx.tasks.today(today()).unwrap();
    assert_eq!(ids(&page.unscheduled_in_progress), vec![task.id()]);
}

#[test]
fn today_completed_on_requested_utc_date() {
    let mut fx = fixture();
    let task = create_named(&mut fx, "Finished", None);
    fx.tasks.start(task.id(), now()).unwrap();
    fx.tasks.complete(task.id(), completed_today()).unwrap();
    let page = fx.tasks.today(today()).unwrap();
    assert_eq!(ids(&page.completed), vec![task.id()]);
}

#[test]
fn today_excludes_completed_on_another_date() {
    let mut fx = fixture();
    let task = create_named(&mut fx, "Later", None);
    fx.tasks.start(task.id(), now()).unwrap();
    fx.tasks.complete(task.id(), completed_tomorrow()).unwrap();
    let page = fx.tasks.today(today()).unwrap();
    assert!(page.completed.is_empty());
    assert!(!ids(&page.completed).contains(&task.id()));
}

#[test]
fn today_excludes_future_scheduled() {
    let mut fx = fixture();
    create_named(&mut fx, "Tomorrow", Some(tomorrow()));
    let page = fx.tasks.today(today()).unwrap();
    assert!(page.scheduled.is_empty());
    assert!(page.overdue.is_empty());
}

#[test]
fn today_excludes_unscheduled_todo() {
    let mut fx = fixture();
    create_named(&mut fx, "Inbox", None);
    let page = fx.tasks.today(today()).unwrap();
    assert!(page.scheduled.is_empty());
    assert!(page.unscheduled_in_progress.is_empty());
}

#[test]
fn today_excludes_cancelled() {
    let mut fx = fixture();
    let task = create_named(&mut fx, "Dropped", Some(today()));
    fx.tasks.cancel(task.id(), now()).unwrap();
    let page = fx.tasks.today(today()).unwrap();
    assert!(page.scheduled.is_empty());
    assert!(page.overdue.is_empty());
    assert!(page.completed.is_empty());
}

#[test]
fn today_task_appears_in_exactly_one_bucket() {
    let mut fx = fixture();
    create_named(&mut fx, "Scheduled", Some(today()));
    create_named(&mut fx, "Overdue", Some(yesterday()));
    let started = create_named(&mut fx, "Started", None);
    fx.tasks.start(started.id(), now()).unwrap();
    let done = create_named(&mut fx, "Done", Some(today()));
    fx.tasks.start(done.id(), now()).unwrap();
    fx.tasks.complete(done.id(), completed_today()).unwrap();

    let page = fx.tasks.today(today()).unwrap();
    let mut all = ids(&page.scheduled);
    all.extend(ids(&page.overdue));
    all.extend(ids(&page.unscheduled_in_progress));
    all.extend(ids(&page.completed));
    let unique = all
        .iter()
        .map(|id| id.to_string())
        .collect::<std::collections::HashSet<_>>();
    assert_eq!(all.len(), unique.len());
    assert_eq!(all.len(), 4);
}

#[test]
fn daily_execution_does_not_affect_today() {
    let mut fx = fixture();
    let unscheduled = create_named(&mut fx, "Inbox", None);
    fx.stores
        .execution_svc()
        .create(
            unscheduled.id(),
            CreateDailyExecution {
                execution_date: today(),
                notes: Some("legacy".to_string()),
                status: DailyExecutionStatus::Planned,
            },
            now(),
        )
        .unwrap();
    let page = fx.tasks.today(today()).unwrap();
    assert!(page.scheduled.is_empty());
    assert!(page.overdue.is_empty());
    assert!(page.unscheduled_in_progress.is_empty());
    assert!(page.completed.is_empty());
}

#[test]
fn supplied_date_determines_today() {
    let mut fx = fixture();
    let task = create_named(&mut fx, "Move", Some(today()));
    let on_today = fx.tasks.today(today()).unwrap();
    let on_tomorrow = fx.tasks.today(tomorrow()).unwrap();
    assert_eq!(ids(&on_today.scheduled), vec![task.id()]);
    assert!(on_today.overdue.is_empty());
    assert!(on_tomorrow.scheduled.is_empty());
    assert_eq!(ids(&on_tomorrow.overdue), vec![task.id()]);
}

struct DraftTree {
    stores: Stores,
    cycle_id: CycleId,
    objective_id: ObjectiveId,
    project_id: ProjectId,
    task_id: TaskId,
}

fn draft_tree() -> DraftTree {
    let stores = Stores::new();
    let cycle = q1(&stores);
    let objective = ship(&stores, &cycle);
    let project = work(&stores, &objective);
    let task = stores
        .task_svc()
        .create(
            project.id(),
            CreateTask { title: "Do it".to_string(), description: None, scheduled_on: None },
            now(),
        )
        .unwrap();
    DraftTree {
        stores,
        cycle_id: cycle.id(),
        objective_id: objective.id(),
        project_id: project.id(),
        task_id: task.id(),
    }
}

#[test]
fn start_task_activates_full_parent_chain() {
    let tree = draft_tree();
    let started = tree.stores.task_svc().start(tree.task_id, now()).unwrap();
    assert_eq!(started.status(), TaskStatus::InProgress);
    assert_eq!(tree.stores.cycle_svc().get(tree.cycle_id).unwrap().status(), CycleStatus::Active);
    assert_eq!(
        tree.stores.objective_svc().get(tree.objective_id).unwrap().status(),
        ObjectiveStatus::Active
    );
    assert_eq!(
        tree.stores.project_svc().get(tree.project_id).unwrap().status(),
        ProjectStatus::Active
    );
}

#[test]
fn start_task_skips_already_active_parents() {
    let tree = draft_tree();
    tree.stores.cycle_svc().activate(tree.cycle_id, now()).unwrap();
    tree.stores.objective_svc().activate(tree.objective_id, now()).unwrap();
    tree.stores.project_svc().activate(tree.project_id, now()).unwrap();
    let cycle_updated = tree.stores.cycle_svc().get(tree.cycle_id).unwrap().updated_at();
    let started = tree.stores.task_svc().start(tree.task_id, at(2026, 2, 1, 0, 0, 0)).unwrap();
    assert_eq!(started.status(), TaskStatus::InProgress);
    assert_eq!(tree.stores.cycle_svc().get(tree.cycle_id).unwrap().updated_at(), cycle_updated);
}

#[test]
fn start_task_rejects_closed_cycle_without_mutating_task() {
    let tree = draft_tree();
    let mut cycles = tree.stores.cycle_svc();
    cycles.activate(tree.cycle_id, now()).unwrap();
    cycles.close(tree.cycle_id, now()).unwrap();
    let err = tree.stores.task_svc().start(tree.task_id, now()).unwrap_err();
    assert!(matches!(err, AppError::Domain(_)));
    assert_eq!(tree.stores.task_svc().get(tree.task_id).unwrap().status(), TaskStatus::Todo);
    assert_eq!(
        tree.stores.project_svc().get(tree.project_id).unwrap().status(),
        ProjectStatus::Draft
    );
    assert_eq!(
        tree.stores.objective_svc().get(tree.objective_id).unwrap().status(),
        ObjectiveStatus::Draft
    );
}

#[test]
fn start_task_rejects_completed_objective_without_mutating_task() {
    let tree = draft_tree();
    let mut objectives = tree.stores.objective_svc();
    objectives.activate(tree.objective_id, now()).unwrap();
    objectives.complete(tree.objective_id, now()).unwrap();
    let err = tree.stores.task_svc().start(tree.task_id, now()).unwrap_err();
    assert!(matches!(err, AppError::Domain(_)));
    assert_eq!(tree.stores.task_svc().get(tree.task_id).unwrap().status(), TaskStatus::Todo);
    assert_eq!(
        tree.stores.project_svc().get(tree.project_id).unwrap().status(),
        ProjectStatus::Draft
    );
}

#[test]
fn start_task_rejects_archived_project_without_mutating_task() {
    let tree = draft_tree();
    tree.stores.project_svc().archive(tree.project_id, now()).unwrap();
    let err = tree.stores.task_svc().start(tree.task_id, now()).unwrap_err();
    assert!(matches!(err, AppError::Domain(_)));
    assert_eq!(tree.stores.task_svc().get(tree.task_id).unwrap().status(), TaskStatus::Todo);
    assert_eq!(tree.stores.cycle_svc().get(tree.cycle_id).unwrap().status(), CycleStatus::Planning);
}

#[test]
fn complete_and_schedule_do_not_activate_parents() {
    let tree = draft_tree();
    let mut tasks = tree.stores.task_svc();
    tasks.schedule(tree.task_id, Some(today()), now()).unwrap();
    assert_eq!(tree.stores.cycle_svc().get(tree.cycle_id).unwrap().status(), CycleStatus::Planning);
    tasks.start(tree.task_id, now()).unwrap();
    tasks.complete(tree.task_id, now()).unwrap();
    assert_eq!(tree.stores.cycle_svc().get(tree.cycle_id).unwrap().status(), CycleStatus::Active);
}

// ---- which error a refused request answers ----

#[test]
fn missing_entities_are_reported_with_their_identifier() {
    let stores = Stores::new();
    let id = TaskId::new();
    let err = stores.task_svc().get(id).unwrap_err();
    assert_eq!(err, AppError::NotFound { entity: "task", id: id.to_string() });
    let project_id = ProjectId::new();
    let err = stores
        .task_svc()
        .create(
            project_id,
            CreateTask { title: "Write".to_string(), description: None, scheduled_on: None },
            now(),
        )
        .unwrap_err();
    assert_eq!(err, AppError::NotFound { entity: "project", id: project_id.to_string() });
    let key_result_id = KeyResultId::new();
    let err = stores.kr_svc().activate(key_result_id, now()).unwrap_err();
    assert_eq!(err, AppError::NotFound { entity: "key_result", id: key_result_id.to_string() });
}

#[test]
fn task_creation_checks_the_project_before_its_parents() {
    let stores = Stores::new();
    let cycle = q1(&stores);
    let objective = ship(&stores, &cycle);
    let project = work(&stores, &objective);
    stores.project_svc().archive(project.id(), now()).unwrap();
    stores.objectives.0.borrow_mut().remove(&objective.id().as_uuid());
    let err = stores
        .task_svc()
        .create(
            project.id(),
            CreateTask { title: "Write".to_string(), description: None, scheduled_on: None },
            now(),
        )
        .unwrap_err();
    assert_eq!(
        err,
        AppError::Conflict {
            message: "cannot add a task unless the project is draft or active".to_string(),
        }
    );
}

#[test]
fn task_creation_reports_a_missing_objective_of_an_open_project() {
    let stores = Stores::new();
    let cycle = q1(&stores);
    let objective = ship(&stores, &cycle);
    let project = work(&stores, &objective);
    stores.objectives.0.borrow_mut().remove(&objective.id().as_uuid());
    let err = stores
        .task_svc()
        .create(
            project.id(),
            CreateTask { title: " ".to_string(), description: None, scheduled_on: None },
            now(),
        )
        .unwrap_err();
    assert_eq!(err, AppError::NotFound { entity: "objective", id: objective.id().to_string() });
    assert!(stores.tasks.0.borrow().is_empty());
}

#[test]
fn objective_update_reports_a_missing_cycle() {
    let stores = Stores::new();
    let cycle = q1(&stores);
    let objective = ship(&stores, &cycle);
    stores.cycles.0.borrow_mut().remove(&cycle.id().as_uuid());
    let err = stores
        .objective_svc()
        .update(
            objective.id(),
            UpdateObjective {
                title: "Ship it".to_string(),
                description: None,
                start_on: None,
                end_on: None,
            },
            now(),
        )
        .unwrap_err();
    assert_eq!(err, AppError::NotFound { entity: "cycle", id: cycle.id().to_string() });
    assert_eq!(stores.objective_svc().get(objective.id()).unwrap(), objective);
}

#[test]
fn sorting_into_buckets_keeps_every_candidate_in_order() {
    let mut fx = fixture();
    let first = create_named(&mut fx, "First", Some(yesterday()));
    let second = create_named(&mut fx, "Second", Some(today()));
    let third = create_named(&mut fx, "Third", Some(yesterday()));
    let page = sort_into_buckets(vec![first.clone(), second.clone(), third.clone()], today());
    assert_eq!(page.date, today());
    assert_eq!(ids(&page.overdue), vec![first.id(), third.id()]);
    assert_eq!(ids(&page.scheduled), vec![second.id()]);
    assert!(page.unscheduled_in_progress.is_empty());
    assert!(page.completed.is_empty());
    let later = sort_into_buckets(vec![first, second.clone(), third], tomorrow());
    assert_eq!(later.overdue.len(), 3);
    assert!(later.scheduled.is_empty());
    let empty = sort_into_buckets(Vec::new(), today());
    assert!(empty.scheduled.is_empty() && empty.overdue.is_empty());
}

