//! A day's log entry for a task.
use crate::calendar::{Date, Timestamp};
use crate::ids::{is_version_7, DailyExecutionId, TaskId};
use crate::status::DailyExecutionStatus;
use crate::text::{empty_to_none, opt_non_blank, opt_text};
use vstd::prelude::*;

verus! {

/// Spec counterpart of a `DailyExecution`.
pub struct DailyExecutionView {
    pub id: u128,
    pub task_id: u128,
    pub execution_date: int,
    pub notes: Option<Seq<char>>,
    pub status: DailyExecutionStatus,
    pub created_at: int,
    pub updated_at: int,
}

#[derive(Debug, Clone, PartialEq, Eq)]
pub struct DailyExecution {
    id: DailyExecutionId,
    task_id: TaskId,
    execution_date: Date,
    notes: Option<String>,
    status: DailyExecutionStatus,
    created_at: Timestamp,
    updated_at: Timestamp,
}

impl View for DailyExecution {
    type V = DailyExecutionView;

    closed spec fn view(&self) -> DailyExecutionView {
        DailyExecutionView {
            id: self.id@,
            task_id: self.task_id@,
            execution_date: self.execution_date@,
            notes: opt_text(self.notes),
            status: self.status,
            created_at: self.created_at@,
            updated_at: self.updated_at@,
        }
    }
}

impl DailyExecution {
    /// A new entry for a task on a day. Blank notes count as none.
    pub fn create(
        task_id: TaskId,
        execution_date: Date,
        notes: Option<String>,
        status: DailyExecutionStatus,
        now: Timestamp,
    ) -> (r: DailyExecution)
        ensures
            is_version_7(r@.id),
            r@ == (DailyExecutionView {
                id: r@.id,
                task_id: task_id@,
                execution_date: execution_date@,
                notes: opt_non_blank(opt_text(notes)),
                status,
                created_at: now@,
                updated_at: now@,
            }),
    {
        DailyExecution {
            id: DailyExecutionId::new(),
            task_id,
            execution_date,
            notes: empty_to_none(notes),
            status,
            created_at: now,
            updated_at: now,
        }
    }

    /// An entry rebuilt from stored fields, as they are.
    pub fn reconstitute(
        id: DailyExecutionId,
        task_id: TaskId,
        execution_date: Date,
        notes: Option<String>,
        status: DailyExecutionStatus,
        created_at: Timestamp,
        updated_at: Timestamp,
    ) -> (r: DailyExecution)
        ensures
            r@ == (DailyExecutionView {
                id: id@,
                task_id: task_id@,
                execution_date: execution_date@,
                notes: opt_text(notes),
                status,
                created_at: created_at@,
                updated_at: updated_at@,
            }),
    {
        DailyExecution { id, task_id, execution_date, notes, status, created_at, updated_at }
    }

    /// Replace the notes and the status.
    pub fn update(&mut self, notes: Option<String>, status: DailyExecutionStatus, now: Timestamp)
        ensures
            final(self)@ == (DailyExecutionView {
                notes: opt_non_blank(opt_text(notes)),
                status,
                updated_at: now@,
                ..old(self)@
            }),
    {
        self.notes = empty_to_none(notes);
        self.status = status;
        self.updated_at = now;
    }

    pub fn id(&self) -> (r: DailyExecutionId)
        ensures
            r@ == self@.id,
    {
        self.id
    }

    pub fn task_id(&self) -> (r: TaskId)
        ensures
            r@ == self@.task_id,
    {
        self.task_id
    }

    pub fn execution_date(&self) -> (r: Date)
        ensures
            r@ == self@.execution_date,
    {
        self.execution_date
    }

    pub fn notes(&self) -> (r: Option<&str>)
        ensures
            match r {
                Some(n) => self@.notes == Some(n@),
                None => self@.notes is None,
            },
    {
        match &self.notes {
            Some(n) => Some(n.as_str()),
            None => None,
        }
    }

    pub fn status(&self) -> (r: DailyExecutionStatus)
        ensures
            r == self@.status,
    {
        self.status
    }

    pub fn created_at(&self) -> (r: Timestamp)
        ensures
            r@ == self@.created_at,
    {
        self.created_at
    }

    pub fn updated_at(&self) -> (r: Timestamp)
        ensures
            r@ == self@.updated_at,
    {
        self.updated_at
    }
}

} // verus!
