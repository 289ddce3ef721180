//! Use cases on tasks, and the page of a day.
use crate::calendar::{Date, Timestamp};
use crate::cycle::CycleView;
use crate::error::{store_failure, AppError, AppErrorView, DomainErrorView};
use crate::ids::{is_version_7, ProjectId, TaskId};
use crate::objective::ObjectiveView;
use crate::parent_progression::{
    activation_refused, ensure_cycle, ensure_cycle_open, ensure_objective, ensure_objective_open,
    ensure_project, held_under_keys, line_of, line_partly_stored, line_stored, load_ancestry, load_cycle,
    load_objective, load_project, objective_line_open, parents_activation, persist_activated,
};
use crate::project::ProjectView;
use crate::repos::{
    tasks_by_project_id, today_candidates, CycleRepository, ObjectiveRepository,
    ProjectRepository, TaskRepository,
};
use crate::services::{
    answers, changes_one, decided, guarded, may_clash, lists_under, lookup, reads_one, refusal, result_view,
};
use crate::status::TaskStatus;
use crate::task::{
    bucket_iff_candidate, bucket_of, today_bucket, today_candidate, Task, TaskView, TodayBucket,
};
use crate::text::{opt_non_blank, opt_text};
use crate::title::{title_outcome, Title};
use crate::util::opt_day;
use vstd::prelude::*;

verus! {

pub struct CreateTask {
    pub title: String,
    pub description: Option<String>,
    pub scheduled_on: Option<Date>,
}

pub struct UpdateTask {
    pub title: String,
    pub description: Option<String>,
}

/// The tasks on the page of a day, by bucket.
#[derive(Debug, PartialEq, Eq)]
pub struct TodayResult {
    pub date: Date,
    pub scheduled: Vec<Task>,
    pub overdue: Vec<Task>,
    pub unscheduled_in_progress: Vec<Task>,
    pub completed: Vec<Task>,
}

/// Whether a task falls into `bucket` on the day `date`.
pub open spec fn in_bucket(date: int, bucket: TodayBucket) -> spec_fn(Task) -> bool {
    |t: Task| bucket_of(t@, date) == Some(bucket)
}

/// `result` sorts `candidates` into the buckets of the day `date`, each bucket
/// keeping the candidates' order.
pub open spec fn sorted_into_buckets(candidates: Seq<Task>, date: int, result: TodayResult) -> bool {
    &&& result.date@ == date
    &&& result.scheduled@ == candidates.filter(in_bucket(date, TodayBucket::Scheduled))
    &&& result.overdue@ == candidates.filter(in_bucket(date, TodayBucket::Overdue))
    &&& result.unscheduled_in_progress@ == candidates.filter(
        in_bucket(date, TodayBucket::UnscheduledInProgress),
    )
    &&& result.completed@ == candidates.filter(in_bucket(date, TodayBucket::Completed))
}

/// The bucket of the page that holds the tasks of `bucket`.
pub open spec fn bucket_items(result: TodayResult, bucket: TodayBucket) -> Seq<Task> {
    match bucket {
        TodayBucket::Scheduled => result.scheduled@,
        TodayBucket::Overdue => result.overdue@,
        TodayBucket::UnscheduledInProgress => result.unscheduled_in_progress@,
        TodayBucket::Completed => result.completed@,
    }
}

/// Every candidate for a day shows in exactly one bucket of its page: the one
/// that `bucket_of` names, and in no other.
pub proof fn every_candidate_in_one_bucket(
    tasks: Map<u128, TaskView>,
    candidates: Seq<Task>,
    date: int,
    result: TodayResult,
)
    requires
        today_candidates(tasks, candidates, date),
        sorted_into_buckets(candidates, date, result),
    ensures
        forall|i: int|
            0 <= i < candidates.len() ==> bucket_of(#[trigger] candidates[i]@, date) is Some
                && bucket_items(result, bucket_of(candidates[i]@, date)->Some_0).contains(
                candidates[i],
            ),
        forall|i: int, b: TodayBucket|
            0 <= i < candidates.len() && #[trigger] bucket_items(result, b).contains(
                #[trigger] candidates[i],
            ) ==> bucket_of(candidates[i]@, date) == Some(b),
{
    broadcast use Seq::lemma_filter_contains_rev;

    assert forall|i: int| 0 <= i < candidates.len() implies bucket_of(
        #[trigger] candidates[i]@,
        date,
    ) is Some && bucket_items(result, bucket_of(candidates[i]@, date)->Some_0).contains(
        candidates[i],
    ) by {
        assert(tasks.contains_key(candidates[i]@.id));
        bucket_iff_candidate(candidates[i]@, date);
        let b = bucket_of(candidates[i]@, date)->Some_0;
        candidates.filter_lemma(in_bucket(date, b));
        assert(in_bucket(date, b)(candidates[i]));
    }
    assert forall|i: int, b: TodayBucket|
        0 <= i < candidates.len() && #[trigger] bucket_items(result, b).contains(
            #[trigger] candidates[i],
        ) implies bucket_of(candidates[i]@, date) == Some(b) by {
        candidates.filter_lemma(in_bucket(date, b));
        let items = bucket_items(result, b);
        let k = choose|k: int| 0 <= k < items.len() && items[k] == candidates[i];
        assert(in_bucket(date, b)(items[k]));
    }
}

/// A stored task to do or under way that is scheduled on or before the day
/// `date` shows on that day's page: among the scheduled tasks when it is
/// scheduled on that very day, among the overdue ones when it is scheduled
/// earlier. Only the date asked for moves it from one to the other.
pub proof fn scheduled_task_shows_by_date(
    tasks: Map<u128, TaskView>,
    candidates: Seq<Task>,
    date: int,
    result: TodayResult,
    id: u128,
)
    requires
        today_candidates(tasks, candidates, date),
        sorted_into_buckets(candidates, date, result),
        tasks.contains_key(id),
        tasks[id].status == TaskStatus::Todo || tasks[id].status == TaskStatus::InProgress,
        tasks[id].scheduled_on matches Some(s) && s <= date,
    ensures
        exists|i: int|
            0 <= i < candidates.len() && #[trigger] candidates[i]@ == tasks[id] && bucket_items(
                result,
                if tasks[id].scheduled_on == Some(date) {
                    TodayBucket::Scheduled
                } else {
                    TodayBucket::Overdue
                },
            ).contains(candidates[i]),
{
    assert(today_candidate(tasks[id], date));
    let i = choose|i: int| 0 <= i < candidates.len() && #[trigger] candidates[i]@.id == id;
    every_candidate_in_one_bucket(tasks, candidates, date, result);
    assert(candidates[i]@ == tasks[id]);
    assert(bucket_of(candidates[i]@, date) is Some);
}

/// The buckets of a day's page hold, together, exactly as many tasks as the
/// store handed out as candidates: none is dropped and none is counted twice.
pub proof fn buckets_account_for_every_candidate(
    tasks: Map<u128, TaskView>,
    candidates: Seq<Task>,
    date: int,
    result: TodayResult,
)
    requires
        today_candidates(tasks, candidates, date),
        sorted_into_buckets(candidates, date, result),
    ensures
        result.scheduled@.len() + result.overdue@.len() + result.unscheduled_in_progress@.len()
            + result.completed@.len() == candidates.len(),
{
    assert forall|i: int| 0 <= i < candidates.len() implies today_candidate(
        #[trigger] candidates[i]@,
        date,
    ) by {
        assert(tasks.contains_key(candidates[i]@.id));
    }
    lemma_bucket_sizes(candidates, date);
}

proof fn lemma_bucket_sizes(candidates: Seq<Task>, date: int)
    requires
        forall|i: int| 0 <= i < candidates.len() ==> today_candidate(#[trigger] candidates[i]@, date),
    ensures
        candidates.filter(in_bucket(date, TodayBucket::Scheduled)).len() + candidates.filter(
            in_bucket(date, TodayBucket::Overdue),
        ).len() + candidates.filter(in_bucket(date, TodayBucket::UnscheduledInProgress)).len()
            + candidates.filter(in_bucket(date, TodayBucket::Completed)).len() == candidates.len(),
    decreases candidates.len(),
{
    if candidates.len() == 0 {
        reveal(Seq::filter);
    } else {
        let rest = candidates.drop_last();
        let last = candidates.last();
        assert(rest.push(last) =~= candidates);
        assert forall|i: int| 0 <= i < rest.len() implies today_candidate(#[trigger] rest[i]@, date) by {
            assert(rest[i] == candidates[i]);
        }
        lemma_bucket_sizes(rest, date);
        assert(today_candidate(candidates[candidates.len() - 1]@, date));
        bucket_iff_candidate(last@, date);
        rest.lemma_filter_push(last, in_bucket(date, TodayBucket::Scheduled));
        rest.lemma_filter_push(last, in_bucket(date, TodayBucket::Overdue));
        rest.lemma_filter_push(last, in_bucket(date, TodayBucket::UnscheduledInProgress));
        rest.lemma_filter_push(last, in_bucket(date, TodayBucket::Completed));
    }
}

/// What adding a task under the project `project_id` decides, read from the
/// project up: the project must be stored and still take tasks, its objective
/// and cycle must be stored and still accept children, and then the title must
/// not be blank.
pub open spec fn create_verdict(
    cycles: Map<u128, CycleView>,
    objectives: Map<u128, ObjectiveView>,
    projects: Map<u128, ProjectView>,
    project_id: u128,
    title: Seq<char>,
) -> Result<(), AppErrorView> {
    match lookup(projects, "project"@, project_id) {
        Err(e) => Err(e),
        Ok(project) => if !project.status.allows_tasks() {
            Err(
                AppErrorView::Conflict {
                    message: "cannot add a task unless the project is draft or active"@,
                },
            )
        } else {
            match objective_line_open(
                cycles,
                objectives,
                project.objective_id,
                "cannot add a task when the objective is completed or archived"@,
                "cannot add a task to a closed or archived cycle"@,
            ) {
                Err(e) => Err(e),
                Ok(()) => if title_outcome(title) is None {
                    Err(AppErrorView::Domain(DomainErrorView::EmptyTitle))
                } else {
                    Ok(())
                },
            }
        },
    }
}

/// What editing a stored task decides.
pub open spec fn update_decision(
    v: TaskView,
    title: Seq<char>,
    description: Option<Seq<char>>,
    now: int,
) -> Result<TaskView, DomainErrorView> {
    if title_outcome(title) is None {
        Err(DomainErrorView::EmptyTitle)
    } else if v.status.is_terminal() {
        Err(refusal(v.status.text(), v.status.text()))
    } else {
        Ok(
            TaskView {
                title: title_outcome(title)->Some_0,
                description: opt_non_blank(description),
                updated_at: now,
                ..v
            },
        )
    }
}

/// What starting a task decides on the stored line above it: the cycle,
/// objective and project become active unless they already are, and the task
/// to do becomes in progress. A parent that can no longer become active, or a
/// task that is not to do, refuses.
pub open spec fn start_decision(
    line: (CycleView, ObjectiveView, ProjectView),
    task: TaskView,
    now: int,
) -> Result<((CycleView, ObjectiveView, ProjectView), TaskView), DomainErrorView> {
    match parents_activation(line.0, line.1, now) {
        Err(e) => Err(e),
        Ok(parents) => if line.2.ensure_active_outcome() is None {
            Err(activation_refused(line.2.status.text()))
        } else if task.status != TaskStatus::Todo {
            Err(refusal(task.status.text(), "in_progress"@))
        } else {
            Ok(
                (
                    (parents.0, parents.1, line.2.ensured_active(now)),
                    task.with_status(TaskStatus::InProgress, now),
                ),
            )
        },
    }
}

/// What completing a stored task decides.
pub open spec fn complete_decision(v: TaskView, now: int) -> Result<TaskView, DomainErrorView> {
    if v.status == TaskStatus::InProgress {
        Ok(TaskView { completed_at: Some(now), ..v.with_status(TaskStatus::Done, now) })
    } else {
        Err(refusal(v.status.text(), "done"@))
    }
}

/// What cancelling a stored task decides.
pub open spec fn cancel_decision(v: TaskView, now: int) -> Result<TaskView, DomainErrorView> {
    if v.status.is_active() {
        Ok(v.with_status(TaskStatus::Cancelled, now))
    } else {
        Err(refusal(v.status.text(), "cancelled"@))
    }
}

/// What setting or clearing the day of a stored task decides.
pub open spec fn schedule_decision(v: TaskView, scheduled_on: Option<int>, now: int) -> Result<
    TaskView,
    DomainErrorView,
> {
    if v.status.is_terminal() {
        Err(refusal(v.status.text(), v.status.text()))
    } else {
        Ok(TaskView { scheduled_on, updated_at: now, ..v })
    }
}

/// Loads the stored task with this identifier; a missing one is not found.
pub fn load_task<T: TaskRepository>(tasks: &T, id: TaskId) -> (r: Result<Task, AppError>)
    ensures
        reads_one(tasks.tasks(), "task"@, id@, result_view(r)),
        r matches Ok(t) ==> t@.id == id@,
{
    match tasks.get(id) {
        Ok(Some(t)) => Ok(t),
        Ok(None) => Err(AppError::not_found("task", id.to_string())),
        Err(e) => Err(e),
    }
}

#[derive(Clone)]
pub struct TaskService<C, O, P, T> {
    cycles: C,
    objectives: O,
    projects: P,
    tasks: T,
}

impl<C, O, P, T> TaskService<C, O, P, T> where
    C: CycleRepository,
    O: ObjectiveRepository,
    P: ProjectRepository,
    T: TaskRepository,
 {
    /// The cycles the service reads and writes.
    pub closed spec fn cycles(&self) -> Map<u128, CycleView> {
        self.cycles.cycles()
    }

    /// The objectives the service reads and writes.
    pub closed spec fn objectives(&self) -> Map<u128, ObjectiveView> {
        self.objectives.objectives()
    }

    /// The projects the service reads and writes.
    pub closed spec fn projects(&self) -> Map<u128, ProjectView> {
        self.projects.projects()
    }

    /// The tasks the service reads and writes.
    pub closed spec fn tasks(&self) -> Map<u128, TaskView> {
        self.tasks.tasks()
    }

    pub fn new(cycles: C, objectives: O, projects: P, tasks: T) -> (r: Self)
        ensures
            r.cycles() == cycles.cycles(),
            r.objectives() == objectives.objectives(),
            r.projects() == projects.projects(),
            r.tasks() == tasks.tasks(),
    {
        TaskService { cycles, objectives, projects, tasks }
    }

    /// Add a task to do under a stored project that still takes tasks, whose
    /// objective and cycle still accept children.
    pub fn create(&mut self, project_id: ProjectId, cmd: CreateTask, now: Timestamp) -> (r: Result<
        Task,
        AppError,
    >)
        ensures
            final(self).cycles() == old(self).cycles(),
            final(self).objectives() == old(self).objectives(),
            final(self).projects() == old(self).projects(),
            guarded(
                create_verdict(
                    old(self).cycles(),
                    old(self).objectives(),
                    old(self).projects(),
                    project_id@,
                    cmd.title@,
                ),
                may_clash(old(self).tasks()),
                result_view(r),
            ),
            r matches Ok(t) ==> is_version_7(t@.id) && t@ == (TaskView {
                id: t@.id,
                project_id: project_id@,
                title: title_outcome(cmd.title@)->Some_0,
                description: opt_non_blank(opt_text(cmd.description)),
                status: TaskStatus::Todo,
                scheduled_on: opt_day(cmd.scheduled_on),
                completed_at: None,
                created_at: now@,
                updated_at: now@,
            }) && final(self).tasks() == old(self).tasks().insert(t@.id, t@),
            r is Err ==> final(self).tasks() == old(self).tasks(),
    {
        let project = load_project(&self.projects, project_id)?;
        if !project.status().allows_tasks() {
            return Err(
                AppError::conflict("cannot add a task unless the project is draft or active"),
            );
        }
        let objective = load_objective(&self.objectives, project.objective_id())?;
        ensure_objective_open(
            &objective,
            "cannot add a task when the objective is completed or archived",
        )?;
        let cycle = load_cycle(&self.cycles, &objective)?;
        ensure_cycle_open(&cycle, "cannot add a task to a closed or archived cycle")?;
        let title = match Title::parse(cmd.title.as_str()) {
            Ok(t) => t,
            Err(e) => return Err(AppError::Domain(e)),
        };
        let task = Task::create(project_id, title, cmd.description, cmd.scheduled_on, now);
        self.tasks.create(&task)?;
        Ok(task)
    }

    /// The stored task with this identifier.
    pub fn get(&self, id: TaskId) -> (r: Result<Task, AppError>)
        ensures
            reads_one(self.tasks(), "task"@, id@, result_view(r)),
    {
        load_task(&self.tasks, id)
    }

    /// The stored tasks of a stored project.
    pub fn list_by_project(&self, project_id: ProjectId) -> (r: Result<Vec<Task>, AppError>)
        ensures
            lists_under(self.projects(), "project"@, project_id@, result_view(r)),
            r matches Ok(items) ==> tasks_by_project_id(self.tasks(), items@, project_id@),
    {
        load_project(&self.projects, project_id)?;
        self.tasks.list_by_project(project_id)
    }

    /// Retitle and describe a stored open task.
    pub fn update(&mut self, id: TaskId, cmd: UpdateTask, now: Timestamp) -> (r: Result<
        Task,
        AppError,
    >)
        ensures
            final(self).cycles() == old(self).cycles(),
            final(self).objectives() == old(self).objectives(),
            final(self).projects() == old(self).projects(),
            changes_one(
                old(self).tasks(),
                final(self).tasks(),
                "task"@,
                id@,
                result_view(r),
                |v: TaskView| update_decision(v, cmd.title@, opt_text(cmd.description), now@),
            ),
    {
        let mut task = load_task(&self.tasks, id)?;
        let title = match Title::parse(cmd.title.as_str()) {
            Ok(t) => t,
            Err(e) => return Err(AppError::Domain(e)),
        };
        match task.update(title, cmd.description, now) {
            Ok(()) => {},
            Err(e) => return Err(AppError::Domain(e)),
        }
        self.tasks.update(&task)?;
        Ok(task)
    }

    /// Start a stored task to do, making its project, objective and cycle
    /// active when they are not yet. A refusal changes nothing stored.
    pub fn start(&mut self, id: TaskId, now: Timestamp) -> (r: Result<Task, AppError>)
        ensures
            ({
                let before = (old(self).cycles(), old(self).objectives(), old(self).projects());
                let after = (final(self).cycles(), final(self).objectives(), final(self).projects());
                let tasks = old(self).tasks();
                let decision = match lookup(tasks, "task"@, id@) {
                    Err(e) => Err(e),
                    Ok(task) => match line_of(before.0, before.1, before.2, task.project_id) {
                        Err(e) => Err(e),
                        Ok(line) => decided(start_decision(line, task, now@)),
                    },
                };
                &&& answers(
                    match decision {
                        Ok(d) => Ok(d.1),
                        Err(e) => Err(e),
                    },
                    result_view(r),
                )
                &&& (r is Ok || after != before) ==> tasks.contains_key(id@) && line_of(
                    before.0,
                    before.1,
                    before.2,
                    tasks[id@].project_id,
                ) is Ok && held_under_keys(
                    line_of(before.0, before.1, before.2, tasks[id@].project_id)->Ok_0,
                    tasks[id@].project_id,
                )
                &&& r matches Ok(t) ==> t@.id == id@ && after == line_stored(
                    before.0,
                    before.1,
                    before.2,
                    decision->Ok_0.0,
                ) && final(self).tasks() == tasks.insert(id@, t@)
                &&& r is Err ==> (after == before && final(self).tasks() == tasks) || (
                decision is Ok && line_partly_stored(before, after, decision->Ok_0.0) && (
                final(self).tasks() == tasks || final(self).tasks() == tasks.insert(
                    id@,
                    decision->Ok_0.1,
                )))
            }),
    {
        let ghost before = (self.cycles(), self.objectives(), self.projects());
        let mut task = load_task(&self.tasks, id)?;
        let mut ancestry = load_ancestry(
            &self.cycles,
            &self.objectives,
            &self.projects,
            task.project_id(),
        )?;
        let ghost line = (ancestry.cycle@, ancestry.objective@, ancestry.project@);
        let cycle_change = ensure_cycle(&mut ancestry.cycle, now)?;
        let objective_change = ensure_objective(&mut ancestry.objective, now)?;
        let project_change = ensure_project(&mut ancestry.project, now)?;
        match task.start(now) {
            Ok(()) => {},
            Err(e) => return Err(AppError::Domain(e)),
        }
        assert(before.0.insert(line.0.id, line.0) =~= before.0);
        assert(before.1.insert(line.1.id, line.1) =~= before.1);
        assert(before.2.insert(line.2.id, line.2) =~= before.2);
        persist_activated(
            &mut self.cycles,
            &mut self.objectives,
            &mut self.projects,
            &ancestry.cycle,
            cycle_change,
            &ancestry.objective,
            objective_change,
            Some((&ancestry.project, project_change)),
        )?;
        self.tasks.update(&task)?;
        Ok(task)
    }

    /// Complete a stored task in progress.
    pub fn complete(&mut self, id: TaskId, now: Timestamp) -> (r: Result<Task, AppError>)
        ensures
            final(self).cycles() == old(self).cycles(),
            final(self).objectives() == old(self).objectives(),
            final(self).projects() == old(self).projects(),
            changes_one(
                old(self).tasks(),
                final(self).tasks(),
                "task"@,
                id@,
                result_view(r),
                |v: TaskView| complete_decision(v, now@),
            ),
    {
        let mut task = load_task(&self.tasks, id)?;
        match task.complete(now) {
            Ok(()) => {},
            Err(e) => return Err(AppError::Domain(e)),
        }
        self.tasks.update(&task)?;
        Ok(task)
    }

    /// Cancel a stored open task.
    pub fn cancel(&mut self, id: TaskId, now: Timestamp) -> (r: Result<Task, AppError>)
        ensures
            final(self).cycles() == old(self).cycles(),
            final(self).objectives() == old(self).objectives(),
            final(self).projects() == old(self).projects(),
            changes_one(
                old(self).tasks(),
                final(self).tasks(),
                "task"@,
                id@,
                result_view(r),
                |v: TaskView| cancel_decision(v, now@),
            ),
    {
        let mut task = load_task(&self.tasks, id)?;
        match task.cancel(now) {
            Ok(()) => {},
            Err(e) => return Err(AppError::Domain(e)),
        }
        self.tasks.update(&task)?;
        Ok(task)
    }

    /// Set or clear the day of a stored open task.
    pub fn schedule(&mut self, id: TaskId, scheduled_on: Option<Date>, now: Timestamp) -> (r:
        Result<Task, AppError>)
        ensures
            final(self).cycles() == old(self).cycles(),
            final(self).objectives() == old(self).objectives(),
            final(self).projects() == old(self).projects(),
            changes_one(
                old(self).tasks(),
                final(self).tasks(),
                "task"@,
                id@,
                result_view(r),
                |v: TaskView| schedule_decision(v, opt_day(scheduled_on), now@),
            ),
    {
        let mut task = load_task(&self.tasks, id)?;
        match task.schedule(scheduled_on, now) {
            Ok(()) => {},
            Err(e) => return Err(AppError::Domain(e)),
        }
        self.tasks.update(&task)?;
        Ok(task)
    }

    /// The page of the day `date`: the store's candidates for that day (all
    /// of them, each once), each in its bucket, in the order the store handed
    /// them out.
    pub fn today(&self, date: Date) -> (r: Result<TodayResult, AppError>)
        ensures
            r is Ok ==> exists|candidates: Seq<Task>|
                today_candidates(self.tasks(), candidates, date@) && #[trigger] sorted_into_buckets(
                    candidates,
                    date@,
                    r->Ok_0,
                ),
            r matches Err(e) ==> store_failure(e@),
    {
        let candidates = self.tasks.list_today_candidates(date)?;
        let ghost all = candidates@;
        let page = sort_into_buckets(candidates, date);
        assert(today_candidates(self.tasks(), all, date@));
        let r: Result<TodayResult, AppError> = Ok(page);
        assert(r->Ok_0 == page);
        assert(sorted_into_buckets(all, date@, r->Ok_0));
        r
    }
}

/// The page of the day `date` made of `candidates`: each task in the bucket
/// that `today_bucket` gives it, each bucket in the candidates' order, and a
/// task with no bucket left out.
pub fn sort_into_buckets(candidates: Vec<Task>, date: Date) -> (r: TodayResult)
    ensures
        sorted_into_buckets(candidates@, date@, r),
{
    let mut candidates = candidates;
    let ghost all = candidates@;
    let mut result = TodayResult {
        date,
        scheduled: Vec::new(),
        overdue: Vec::new(),
        unscheduled_in_progress: Vec::new(),
        completed: Vec::new(),
    };
    let mut k: usize = 0;
    let n = candidates.len();
    assert(all.subrange(0, 0) =~= Seq::<Task>::empty());
    proof {
        reveal(Seq::filter);
    }
    while candidates.len() > 0
        invariant
            all.len() == n,
            k + candidates@.len() == all.len(),
            candidates@ == all.subrange(k as int, all.len() as int),
            sorted_into_buckets(all.subrange(0, k as int), date@, result),
        decreases candidates@.len(),
    {
        let task = candidates.remove(0);
        let ghost done = all.subrange(0, k as int);
        assert(all.subrange(0, k + 1) =~= done.push(task));
        proof {
            done.lemma_filter_push(task, in_bucket(date@, TodayBucket::Scheduled));
            done.lemma_filter_push(task, in_bucket(date@, TodayBucket::Overdue));
            done.lemma_filter_push(task, in_bucket(date@, TodayBucket::UnscheduledInProgress));
            done.lemma_filter_push(task, in_bucket(date@, TodayBucket::Completed));
        }
        match today_bucket(&task, date) {
            Some(TodayBucket::Scheduled) => result.scheduled.push(task),
            Some(TodayBucket::Overdue) => result.overdue.push(task),
            Some(TodayBucket::UnscheduledInProgress) => result.unscheduled_in_progress.push(task),
            Some(TodayBucket::Completed) => result.completed.push(task),
            None => {},
        }
        k = k + 1;
    }
    assert(all.subrange(0, all.len() as int) =~= all);
    result
}

} // verus!
