//! Use cases on daily executions.
use crate::calendar::{Date, Timestamp};
use crate::daily_execution::{DailyExecution, DailyExecutionView};
use crate::error::{store_failure, AppError, AppErrorView};
use crate::ids::{is_version_7, DailyExecutionId, TaskId};
use crate::repos::{
    executions_by_execution_date, executions_by_task_id, DailyExecutionRepository,
    TaskRepository,
};
use crate::services::task::load_task;
use crate::services::{
    changes_one, guarded, may_clash, lists_under, lookup, reads_one, result_view, then_check,
};
use crate::status::{DailyExecutionStatus, TaskStatus};
use crate::task::TaskView;
use crate::text::{opt_non_blank, opt_text};
use vstd::prelude::*;

verus! {

pub struct CreateDailyExecution {
    pub execution_date: Date,
    pub notes: Option<String>,
    pub status: DailyExecutionStatus,
}

pub struct UpdateDailyExecution {
    pub notes: Option<String>,
    pub status: DailyExecutionStatus,
}

/// What logging a day of `task` decides: a cancelled task takes no entries.
pub open spec fn create_verdict(task: TaskView) -> Result<(), AppErrorView> {
    if task.status == TaskStatus::Cancelled {
        Err(AppErrorView::Conflict { message: "cannot add a daily execution to a cancelled task"@ })
    } else {
        Ok(())
    }
}

/// Only a cancelled task refuses daily entries: a task to do, under way or
/// done can be logged, whatever else it holds.
pub proof fn only_cancelled_tasks_refuse_entries(t: TaskView)
    ensures
        create_verdict(t) is Ok <==> t.status != TaskStatus::Cancelled,
        t.status == TaskStatus::Cancelled ==> create_verdict(t) == Err::<(), AppErrorView>(
            AppErrorView::Conflict { message: "cannot add a daily execution to a cancelled task"@ },
        ),
        t.status == TaskStatus::Todo || t.status == TaskStatus::InProgress || t.status
            == TaskStatus::Done ==> create_verdict(t) is Ok,
{
}

/// What editing a stored entry decides: its notes and status are replaced.
pub open spec fn update_decision(
    v: DailyExecutionView,
    notes: Option<Seq<char>>,
    status: DailyExecutionStatus,
    now: int,
) -> Result<DailyExecutionView, crate::error::DomainErrorView> {
    Ok(DailyExecutionView { notes: opt_non_blank(notes), status, updated_at: now, ..v })
}

/// Loads the stored entry with this identifier; a missing one is not found.
fn load_execution<E: DailyExecutionRepository>(executions: &E, id: DailyExecutionId) -> (r: Result<
    DailyExecution,
    AppError,
>)
    ensures
        reads_one(executions.executions(), "daily_execution"@, id@, result_view(r)),
        r matches Ok(x) ==> x@.id == id@,
{
    match executions.get(id) {
        Ok(Some(x)) => Ok(x),
        Ok(None) => Err(AppError::not_found("daily_execution", id.to_string())),
        Err(e) => Err(e),
    }
}

#[derive(Clone)]
pub struct DailyExecutionService<T, E> {
    tasks: T,
    executions: E,
}

impl<T: TaskRepository, E: DailyExecutionRepository> DailyExecutionService<T, E> {
    /// The tasks the service reads.
    pub closed spec fn tasks(&self) -> Map<u128, TaskView> {
        self.tasks.tasks()
    }

    /// The entries the service reads and writes.
    pub closed spec fn executions(&self) -> Map<u128, DailyExecutionView> {
        self.executions.executions()
    }

    pub fn new(tasks: T, executions: E) -> (r: Self)
        ensures
            r.tasks() == tasks.tasks(),
            r.executions() == executions.executions(),
    {
        DailyExecutionService { tasks, executions }
    }

    /// Log a day of a stored task that is not cancelled.
    pub fn create(&mut self, task_id: TaskId, cmd: CreateDailyExecution, now: Timestamp) -> (r:
        Result<DailyExecution, AppError>)
        ensures
            final(self).tasks() == old(self).tasks(),
            guarded(
                then_check(lookup(old(self).tasks(), "task"@, task_id@), |t: TaskView| create_verdict(t)),
                may_clash(old(self).executions()),
                result_view(r),
            ),
            r matches Ok(x) ==> is_version_7(x@.id) && x@ == (DailyExecutionView {
                id: x@.id,
                task_id: task_id@,
                execution_date: cmd.execution_date@,
                notes: opt_non_blank(opt_text(cmd.notes)),
                status: cmd.status,
                created_at: now@,
                updated_at: now@,
            }) && final(self).executions() == old(self).executions().insert(x@.id, x@),
            r is Err ==> final(self).executions() == old(self).executions(),
    {
        let task = load_task(&self.tasks, task_id)?;
        if task.status() == TaskStatus::Cancelled {
            return Err(AppError::conflict("cannot add a daily execution to a cancelled task"));
        }
        let execution = DailyExecution::create(
            task_id,
            cmd.execution_date,
            cmd.notes,
            cmd.status,
            now,
        );
        self.executions.create(&execution)?;
        Ok(execution)
    }

    /// The stored entry with this identifier.
    pub fn get(&self, id: DailyExecutionId) -> (r: Result<DailyExecution, AppError>)
        ensures
            reads_one(self.executions(), "daily_execution"@, id@, result_view(r)),
    {
        load_execution(&self.executions, id)
    }

    /// The stored entries of a stored task.
    pub fn list_by_task(&self, task_id: TaskId) -> (r: Result<Vec<DailyExecution>, AppError>)
        ensures
            lists_under(self.tasks(), "task"@, task_id@, result_view(r)),
            r matches Ok(items) ==> executions_by_task_id(self.executions(), items@, task_id@),
    {
        load_task(&self.tasks, task_id)?;
        self.executions.list_by_task(task_id)
    }

    /// The stored entries of a day.
    pub fn list_by_date(&self, execution_date: Date) -> (r: Result<Vec<DailyExecution>, AppError>)
        ensures
            r matches Ok(items) ==> executions_by_execution_date(
                self.executions(),
                items@,
                execution_date@,
            ),
            r matches Err(e) ==> store_failure(e@),
    {
        self.executions.list_by_date(execution_date)
    }

    /// Replace the notes and status of a stored entry.
    pub fn update(&mut self, id: DailyExecutionId, cmd: UpdateDailyExecution, now: Timestamp) -> (r:
        Result<DailyExecution, AppError>)
        ensures
            final(self).tasks() == old(self).tasks(),
            changes_one(
                old(self).executions(),
                final(self).executions(),
                "daily_execution"@,
                id@,
                result_view(r),
                |v: DailyExecutionView| update_decision(v, opt_text(cmd.notes), cmd.status, now@),
            ),
    {
        let mut execution = load_execution(&self.executions, id)?;
        execution.update(cmd.notes, cmd.status, now);
        self.executions.update(&execution)?;
        Ok(execution)
    }
}

} // verus!
