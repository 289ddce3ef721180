//! A task of a project, and how tasks sort into the buckets of a day.
use crate::calendar::{utc_day, Date, Timestamp};
use crate::error::{is_transition_error, DomainError};
use crate::ids::{is_version_7, ProjectId, TaskId};
use crate::status::TaskStatus;
use crate::text::{empty_to_none, opt_non_blank, opt_text};
use crate::title::Title;
use crate::util::opt_day;
use vstd::prelude::*;

verus! {

/// Where a task shows on the page for a given day.
#[derive(Clone, Copy, Debug, PartialEq, Eq, Hash, Structural)]
pub enum TodayBucket {
    Scheduled,
    Overdue,
    UnscheduledInProgress,
    Completed,
}

/// Spec counterpart of a `Task`.
pub struct TaskView {
    pub id: u128,
    pub project_id: u128,
    pub title: Seq<char>,
    pub description: Option<Seq<char>>,
    pub status: TaskStatus,
    pub scheduled_on: Option<int>,
    pub completed_at: Option<int>,
    pub created_at: int,
    pub updated_at: int,
}

/// Nanoseconds of an optional instant.
pub open spec fn opt_instant(t: Option<Timestamp>) -> Option<int> {
    match t {
        Some(x) => Some(x@),
        None => None,
    }
}

#[derive(Debug, Clone, PartialEq, Eq)]
pub struct Task {
    id: TaskId,
    project_id: ProjectId,
    title: Title,
    description: Option<String>,
    status: TaskStatus,
    scheduled_on: Option<Date>,
    completed_at: Option<Timestamp>,
    created_at: Timestamp,
    updated_at: Timestamp,
}

impl View for Task {
    type V = TaskView;

    closed spec fn view(&self) -> TaskView {
        TaskView {
            id: self.id@,
            project_id: self.project_id@,
            title: self.title@,
            description: opt_text(self.description),
            status: self.status,
            scheduled_on: opt_day(self.scheduled_on),
            completed_at: opt_instant(self.completed_at),
            created_at: self.created_at@,
            updated_at: self.updated_at@,
        }
    }
}

impl TaskView {
    pub open spec fn with_status(self, status: TaskStatus, now: int) -> TaskView {
        TaskView { status, updated_at: now, ..self }
    }
}

/// The bucket of a task on the day `date` (a Julian day): a finished task counts
/// on the UTC day it was completed; an open task counts on its scheduled day,
/// or afterwards as overdue; an open task without a day counts only once started.
pub open spec fn bucket_of(t: TaskView, date: int) -> Option<TodayBucket> {
    match t.status {
        TaskStatus::Done => match t.completed_at {
            Some(c) => if utc_day(c) == date {
                Some(TodayBucket::Completed)
            } else {
                None
            },
            None => None,
        },
        TaskStatus::Cancelled => None,
        _ => match t.scheduled_on {
            Some(s) => if s == date {
                Some(TodayBucket::Scheduled)
            } else if s < date {
                Some(TodayBucket::Overdue)
            } else {
                None
            },
            None => if t.status == TaskStatus::InProgress {
                Some(TodayBucket::UnscheduledInProgress)
            } else {
                None
            },
        },
    }
}

/// Whether a store should hand the task out as a candidate for the day `date`.
pub open spec fn today_candidate(t: TaskView, date: int) -> bool {
    match t.status {
        TaskStatus::Cancelled => false,
        TaskStatus::Done => match t.completed_at {
            Some(c) => utc_day(c) == date,
            None => false,
        },
        TaskStatus::Todo => match t.scheduled_on {
            Some(s) => s <= date,
            None => false,
        },
        TaskStatus::InProgress => match t.scheduled_on {
            Some(s) => s <= date,
            None => true,
        },
    }
}

/// A task has a bucket on a day exactly when it is a candidate for that day.
pub proof fn bucket_iff_candidate(t: TaskView, date: int)
    ensures
        bucket_of(t, date) is Some <==> today_candidate(t, date),
{
}

impl Task {
    /// A new task to do, optionally scheduled. A blank description counts as none.
    pub fn create(
        project_id: ProjectId,
        title: Title,
        description: Option<String>,
        scheduled_on: Option<Date>,
        now: Timestamp,
    ) -> (r: Task)
        ensures
            is_version_7(r@.id),
            r@ == (TaskView {
                id: r@.id,
                project_id: project_id@,
                title: title@,
                description: opt_non_blank(opt_text(description)),
                status: TaskStatus::Todo,
                scheduled_on: opt_day(scheduled_on),
                completed_at: None,
                created_at: now@,
                updated_at: now@,
            }),
    {
        Task {
            id: TaskId::new(),
            project_id,
            title,
            description: empty_to_none(description),
            status: TaskStatus::Todo,
            scheduled_on,
            completed_at: None,
            created_at: now,
            updated_at: now,
        }
    }

    /// A task rebuilt from stored fields, as they are.
    pub fn reconstitute(
        id: TaskId,
        project_id: ProjectId,
        title: Title,
        description: Option<String>,
        status: TaskStatus,
        scheduled_on: Option<Date>,
        completed_at: Option<Timestamp>,
        created_at: Timestamp,
        updated_at: Timestamp,
    ) -> (r: Task)
        ensures
            r@ == (TaskView {
                id: id@,
                project_id: project_id@,
                title: title@,
                description: opt_text(description),
                status,
                scheduled_on: opt_day(scheduled_on),
                completed_at: opt_instant(completed_at),
                created_at: created_at@,
                updated_at: updated_at@,
            }),
    {
        Task {
            id,
            project_id,
            title,
            description,
            status,
            scheduled_on,
            completed_at,
            created_at,
            updated_at,
        }
    }

    /// Edit a task that is not yet done or cancelled.
    pub fn update(&mut self, title: Title, description: Option<String>, now: Timestamp) -> (r:
        Result<(), DomainError>)
        ensures
            r is Ok <==> !old(self)@.status.is_terminal(),
            r is Ok ==> final(self)@ == (TaskView {
                title: title@,
                description: opt_non_blank(opt_text(description)),
                updated_at: now@,
                ..old(self)@
            }),
            r matches Err(e) ==> is_transition_error(
                e,
                old(self)@.status.text(),
                old(self)@.status.text(),
            ) && final(self)@ == old(self)@,
    {
        if self.status.is_terminal() {
            return Err(
                DomainError::InvalidStatusTransition {
                    from: self.status.as_str(),
                    to: self.status.as_str(),
                },
            );
        }
        self.title = title;
        self.description = empty_to_none(description);
        self.updated_at = now;
        Ok(())
    }

    /// To-do becomes in progress.
    pub fn start(&mut self, now: Timestamp) -> (r: Result<(), DomainError>)
        ensures
            r is Ok <==> old(self)@.status == TaskStatus::Todo,
            r is Ok ==> final(self)@ == old(self)@.with_status(TaskStatus::InProgress, now@),
            r matches Err(e) ==> is_transition_error(e, old(self)@.status.text(), "in_progress"@)
                && final(self)@ == old(self)@,
    {
        if self.status != TaskStatus::Todo {
            return Err(
                DomainError::InvalidStatusTransition {
                    from: self.status.as_str(),
                    to: TaskStatus::InProgress.as_str(),
                },
            );
        }
        self.status = TaskStatus::InProgress;
        self.updated_at = now;
        Ok(())
    }

    /// In progress becomes done, completed now.
    pub fn complete(&mut self, now: Timestamp) -> (r: Result<(), DomainError>)
        ensures
            r is Ok <==> old(self)@.status == TaskStatus::InProgress,
            r is Ok ==> final(self)@ == (TaskView {
                completed_at: Some(now@),
                ..old(self)@.with_status(TaskStatus::Done, now@)
            }),
            r matches Err(e) ==> is_transition_error(e, old(self)@.status.text(), "done"@)
                && final(self)@ == old(self)@,
    {
        if self.status != TaskStatus::InProgress {
            return Err(
                DomainError::InvalidStatusTransition {
                    from: self.status.as_str(),
                    to: TaskStatus::Done.as_str(),
                },
            );
        }
        self.status = TaskStatus::Done;
        self.completed_at = Some(now);
        self.updated_at = now;
        Ok(())
    }

    /// To-do or in progress becomes cancelled.
    pub fn cancel(&mut self, now: Timestamp) -> (r: Result<(), DomainError>)
        ensures
            r is Ok <==> old(self)@.status.is_active(),
            r is Ok ==> final(self)@ == old(self)@.with_status(TaskStatus::Cancelled, now@),
            r matches Err(e) ==> is_transition_error(e, old(self)@.status.text(), "cancelled"@)
                && final(self)@ == old(self)@,
    {
        if !(self.status == TaskStatus::Todo || self.status == TaskStatus::InProgress) {
            return Err(
                DomainError::InvalidStatusTransition {
                    from: self.status.as_str(),
                    to: TaskStatus::Cancelled.as_str(),
                },
            );
        }
        self.status = TaskStatus::Cancelled;
        self.updated_at = now;
        Ok(())
    }

    /// Set or clear the day of an open task; the status stays as it is.
    pub fn schedule(&mut self, scheduled_on: Option<Date>, now: Timestamp) -> (r: Result<
        (),
        DomainError,
    >)
        ensures
            r is Ok <==> !old(self)@.status.is_terminal(),
            r is Ok ==> final(self)@ == (TaskView {
                scheduled_on: opt_day(scheduled_on),
                updated_at: now@,
                ..old(self)@
            }),
            r matches Err(e) ==> is_transition_error(
                e,
                old(self)@.status.text(),
                old(self)@.status.text(),
            ) && final(self)@ == old(self)@,
    {
        if self.status.is_terminal() {
            return Err(
                DomainError::InvalidStatusTransition {
                    from: self.status.as_str(),
                    to: self.status.as_str(),
                },
            );
        }
        self.scheduled_on = scheduled_on;
        self.updated_at = now;
        Ok(())
    }

    pub fn id(&self) -> (r: TaskId)
        ensures
            r@ == self@.id,
    {
        self.id
    }

    pub fn project_id(&self) -> (r: ProjectId)
        ensures
            r@ == self@.project_id,
    {
        self.project_id
    }

    pub fn title(&self) -> (r: &Title)
        ensures
            r@ == self@.title,
    {
        &self.title
    }

    pub fn description(&self) -> (r: Option<&str>)
        ensures
            match r {
                Some(d) => self@.description == Some(d@),
                None => self@.description is None,
            },
    {
        match &self.description {
            Some(d) => Some(d.as_str()),
            None => None,
        }
    }

    pub fn status(&self) -> (r: TaskStatus)
        ensures
            r == self@.status,
    {
        self.status
    }

    pub fn scheduled_on(&self) -> (r: Option<Date>)
        ensures
            opt_day(r) == self@.scheduled_on,
    {
        self.scheduled_on
    }

    pub fn completed_at(&self) -> (r: Option<Timestamp>)
        ensures
            opt_instant(r) == self@.completed_at,
    {
        self.completed_at
    }

    pub fn created_at(&self) -> (r: Timestamp)
        ensures
            r@ == self@.created_at,
    {
        self.created_at
    }

    pub fn updated_at(&self) -> (r: Timestamp)
        ensures
            r@ == self@.updated_at,
    {
        self.updated_at
    }
}

/// Classifies a task for a requested calendar date. Completed tasks count on
/// the UTC calendar date of their completion.
pub fn today_bucket(task: &Task, date: Date) -> (r: Option<TodayBucket>)
    ensures
        r == bucket_of(task@, date@),
{
    match task.status() {
        TaskStatus::Done => match task.completed_at() {
            Some(completed_at) => {
                if completed_at.utc_date().same_day(&date) {
                    Some(TodayBucket::Completed)
                } else {
                    None
                }
            },
            None => None,
        },
        TaskStatus::Cancelled => None,
        TaskStatus::Todo | TaskStatus::InProgress => match task.scheduled_on() {
            Some(scheduled_on) => {
                if scheduled_on.same_day(&date) {
                    Some(TodayBucket::Scheduled)
                } else if scheduled_on.is_before(&date) {
                    Some(TodayBucket::Overdue)
                } else {
                    None
                }
            },
            None => {
                if task.status() == TaskStatus::InProgress {
                    Some(TodayBucket::UnscheduledInProgress)
                } else {
                    None
                }
            },
        },
    }
}

/// Whether a store should hand the task out as a candidate for the day `date`:
/// exactly the tasks that have a bucket on that day.
pub fn is_today_candidate(task: &Task, date: Date) -> (r: bool)
    ensures
        r == today_candidate(task@, date@),
{
    proof {
        bucket_iff_candidate(task@, date@);
    }
    today_bucket(task, date).is_some()
}

} // verus!
