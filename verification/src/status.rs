//! Lifecycle statuses of the domain's entities, with their wire texts.
use crate::error::DomainError;
use crate::text::str_eq;
use vstd::prelude::*;

verus! {

/// Lifecycle status of a cycle.
#[derive(Clone, Copy, Debug, PartialEq, Eq, Hash, Structural)]
pub enum CycleStatus {
    Planning,
    Active,
    Closed,
    Archived,
}
impl CycleStatus {
    /// The wire text of the status.
    pub open spec fn text(self) -> Seq<char> {
        match self {
            CycleStatus::Planning => "planning"@,
            CycleStatus::Active => "active"@,
            CycleStatus::Closed => "closed"@,
            CycleStatus::Archived => "archived"@,
        }
    }

    /// What parsing `s` gives: the status whose text it is, or an error
    /// holding `s`.
    pub open spec fn parses_to(s: Seq<char>, r: Result<CycleStatus, DomainError>) -> bool {
        match r {
            Ok(x) => x.text() == s,
            Err(e) => (forall|x: CycleStatus| #[trigger] x.text() != s) && (e matches DomainError::UnknownStatus(m)
                && m@ == s),
        }
    }

    pub open spec fn spec_allows_tree_mutation(self) -> bool {
        self == CycleStatus::Planning || self == CycleStatus::Active
    }

    pub fn as_str(self) -> (r: &'static str)
        ensures
            r@ == self.text(),
    {
        match self {
            CycleStatus::Planning => "planning",
            CycleStatus::Active => "active",
            CycleStatus::Closed => "closed",
            CycleStatus::Archived => "archived",
        }
    }

    /// Whether objectives, key results, projects, tasks and check-ins may still be added under a cycle in this status.
    #[verifier::when_used_as_spec(spec_allows_tree_mutation)]
    pub fn allows_tree_mutation(self) -> (r: bool)
        ensures
            r == self.spec_allows_tree_mutation(),
    {
        matches!(self, CycleStatus::Planning | CycleStatus::Active)
    }

    /// Read a status from its wire text.
    pub fn parse(s: &str) -> (r: Result<CycleStatus, DomainError>)
        ensures
            CycleStatus::parses_to(s@, r),
    {
        proof {
            cycle_status_texts_distinct();
        }
        if str_eq(s, "planning") {
            return Ok(CycleStatus::Planning);
        }
        if str_eq(s, "active") {
            return Ok(CycleStatus::Active);
        }
        if str_eq(s, "closed") {
            return Ok(CycleStatus::Closed);
        }
        if str_eq(s, "archived") {
            return Ok(CycleStatus::Archived);
        }
        Err(DomainError::UnknownStatus(s.to_owned()))
    }
}

proof fn cycle_status_texts_distinct()
    ensures
        forall|x: CycleStatus, y: CycleStatus| x.text() == y.text() ==> x == y,
{
    reveal_strlit("planning");
    reveal_strlit("active");
    reveal_strlit("closed");
    reveal_strlit("archived");
    assert forall|x: CycleStatus, y: CycleStatus| x.text() == y.text() implies x == y by {
        if x != y {
            assert(x.text().len() != y.text().len() || x.text()[0] != y.text()[0]);
        }
    }
}

/// Parsing the wire text of a cycle status gives that status back.
pub proof fn cycle_status_round_trip(x: CycleStatus, r: Result<CycleStatus, DomainError>)
    requires
        CycleStatus::parses_to(x.text(), r),
    ensures
        r == Ok::<CycleStatus, DomainError>(x),
{
    cycle_status_texts_distinct();
}

impl core::str::FromStr for CycleStatus {
    type Err = DomainError;

    fn from_str(s: &str) -> (r: Result<Self, Self::Err>)
        ensures
            CycleStatus::parses_to(s@, r),
    {
        CycleStatus::parse(s)
    }
}

/// Lifecycle status of a objective.
#[derive(Clone, Copy, Debug, PartialEq, Eq, Hash, Structural)]
pub enum ObjectiveStatus {
    Draft,
    Active,
    Completed,
    Archived,
}
impl ObjectiveStatus {
    /// The wire text of the status.
    pub open spec fn text(self) -> Seq<char> {
        match self {
            ObjectiveStatus::Draft => "draft"@,
            ObjectiveStatus::Active => "active"@,
            ObjectiveStatus::Completed => "completed"@,
            ObjectiveStatus::Archived => "archived"@,
        }
    }

    /// What parsing `s` gives: the status whose text it is, or an error
    /// holding `s`.
    pub open spec fn parses_to(s: Seq<char>, r: Result<ObjectiveStatus, DomainError>) -> bool {
        match r {
            Ok(x) => x.text() == s,
            Err(e) => (forall|x: ObjectiveStatus| #[trigger] x.text() != s) && (e matches DomainError::UnknownStatus(m)
                && m@ == s),
        }
    }

    pub open spec fn spec_allows_children(self) -> bool {
        self == ObjectiveStatus::Draft || self == ObjectiveStatus::Active
    }

    pub fn as_str(self) -> (r: &'static str)
        ensures
            r@ == self.text(),
    {
        match self {
            ObjectiveStatus::Draft => "draft",
            ObjectiveStatus::Active => "active",
            ObjectiveStatus::Completed => "completed",
            ObjectiveStatus::Archived => "archived",
        }
    }

    /// Whether key results and projects may still be added to an objective in this status.
    #[verifier::when_used_as_spec(spec_allows_children)]
    pub fn allows_children(self) -> (r: bool)
        ensures
            r == self.spec_allows_children(),
    {
        matches!(self, ObjectiveStatus::Draft | ObjectiveStatus::Active)
    }

    /// Read a status from its wire text.
    pub fn parse(s: &str) -> (r: Result<ObjectiveStatus, DomainError>)
        ensures
            ObjectiveStatus::parses_to(s@, r),
    {
        proof {
            objective_status_texts_distinct();
        }
        if str_eq(s, "draft") {
            return Ok(ObjectiveStatus::Draft);
        }
        if str_eq(s, "active") {
            return Ok(ObjectiveStatus::Active);
        }
        if str_eq(s, "completed") {
            return Ok(ObjectiveStatus::Completed);
        }
        if str_eq(s, "archived") {
            return Ok(ObjectiveStatus::Archived);
        }
        Err(DomainError::UnknownStatus(s.to_owned()))
    }
}

proof fn objective_status_texts_distinct()
    ensures
        forall|x: ObjectiveStatus, y: ObjectiveStatus| x.text() == y.text() ==> x == y,
{
    reveal_strlit("draft");
    reveal_strlit("active");
    reveal_strlit("completed");
    reveal_strlit("archived");
    assert forall|x: ObjectiveStatus, y: ObjectiveStatus| x.text() == y.text() implies x == y by {
        if x != y {
            assert(x.text().len() != y.text().len() || x.text()[0] != y.text()[0]);
        }
    }
}

/// Parsing the wire text of a objective status gives that status back.
pub proof fn objective_status_round_trip(x: ObjectiveStatus, r: Result<ObjectiveStatus, DomainError>)
    requires
        ObjectiveStatus::parses_to(x.text(), r),
    ensures
        r == Ok::<ObjectiveStatus, DomainError>(x),
{
    objective_status_texts_distinct();
}

impl core::str::FromStr for ObjectiveStatus {
    type Err = DomainError;

    fn from_str(s: &str) -> (r: Result<Self, Self::Err>)
        ensures
            ObjectiveStatus::parses_to(s@, r),
    {
        ObjectiveStatus::parse(s)
    }
}

/// Lifecycle status of a key result.
#[derive(Clone, Copy, Debug, PartialEq, Eq, Hash, Structural)]
pub enum KeyResultStatus {
    Draft,
    Active,
    Completed,
    Archived,
}
impl KeyResultStatus {
    /// The wire text of the status.
    pub open spec fn text(self) -> Seq<char> {
        match self {
            KeyResultStatus::Draft => "draft"@,
            KeyResultStatus::Active => "active"@,
            KeyResultStatus::Completed => "completed"@,
            KeyResultStatus::Archived => "archived"@,
        }
    }

    /// What parsing `s` gives: the status whose text it is, or an error
    /// holding `s`.
    pub open spec fn parses_to(s: Seq<char>, r: Result<KeyResultStatus, DomainError>) -> bool {
        match r {
            Ok(x) => x.text() == s,
            Err(e) => (forall|x: KeyResultStatus| #[trigger] x.text() != s) && (e matches DomainError::UnknownStatus(m)
                && m@ == s),
        }
    }

    pub open spec fn spec_allows_check_in(self) -> bool {
        self == KeyResultStatus::Draft || self == KeyResultStatus::Active
    }

    pub fn as_str(self) -> (r: &'static str)
        ensures
            r@ == self.text(),
    {
        match self {
            KeyResultStatus::Draft => "draft",
            KeyResultStatus::Active => "active",
            KeyResultStatus::Completed => "completed",
            KeyResultStatus::Archived => "archived",
        }
    }

    /// Whether check-ins may still be recorded on a key result in this status.
    #[verifier::when_used_as_spec(spec_allows_check_in)]
    pub fn allows_check_in(self) -> (r: bool)
        ensures
            r == self.spec_allows_check_in(),
    {
        matches!(self, KeyResultStatus::Draft | KeyResultStatus::Active)
    }

    /// Read a status from its wire text.
    pub fn parse(s: &str) -> (r: Result<KeyResultStatus, DomainError>)
        ensures
            KeyResultStatus::parses_to(s@, r),
    {
        proof {
            key_result_status_texts_distinct();
        }
        if str_eq(s, "draft") {
            return Ok(KeyResultStatus::Draft);
        }
        if str_eq(s, "active") {
            return Ok(KeyResultStatus::Active);
        }
        if str_eq(s, "completed") {
            return Ok(KeyResultStatus::Completed);
        }
        if str_eq(s, "archived") {
            return Ok(KeyResultStatus::Archived);
        }
        Err(DomainError::UnknownStatus(s.to_owned()))
    }
}

proof fn key_result_status_texts_distinct()
    ensures
        forall|x: KeyResultStatus, y: KeyResultStatus| x.text() == y.text() ==> x == y,
{
    reveal_strlit("draft");
    reveal_strlit("active");
    reveal_strlit("completed");
    reveal_strlit("archived");
    assert forall|x: KeyResultStatus, y: KeyResultStatus| x.text() == y.text() implies x == y by {
        if x != y {
            assert(x.text().len() != y.text().len() || x.text()[0] != y.text()[0]);
        }
    }
}

/// Parsing the wire text of a key result status gives that status back.
pub proof fn key_result_status_round_trip(x: KeyResultStatus, r: Result<KeyResultStatus, DomainError>)
    requires
        KeyResultStatus::parses_to(x.text(), r),
    ensures
        r == Ok::<KeyResultStatus, DomainError>(x),
{
    key_result_status_texts_distinct();
}

impl core::str::FromStr for KeyResultStatus {
    type Err = DomainError;

    fn from_str(s: &str) -> (r: Result<Self, Self::Err>)
        ensures
            KeyResultStatus::parses_to(s@, r),
    {
        KeyResultStatus::parse(s)
    }
}

/// Lifecycle status of a project.
#[derive(Clone, Copy, Debug, PartialEq, Eq, Hash, Structural)]
pub enum ProjectStatus {
    Draft,
    Active,
    Completed,
    Archived,
}
impl ProjectStatus {
    /// The wire text of the status.
    pub open spec fn text(self) -> Seq<char> {
        match self {
            ProjectStatus::Draft => "draft"@,
            ProjectStatus::Active => "active"@,
            ProjectStatus::Completed => "completed"@,
            ProjectStatus::Archived => "archived"@,
        }
    }

    /// What parsing `s` gives: the status whose text it is, or an error
    /// holding `s`.
    pub open spec fn parses_to(s: Seq<char>, r: Result<ProjectStatus, DomainError>) -> bool {
        match r {
            Ok(x) => x.text() == s,
            Err(e) => (forall|x: ProjectStatus| #[trigger] x.text() != s) && (e matches DomainError::UnknownStatus(m)
                && m@ == s),
        }
    }

    pub open spec fn spec_allows_tasks(self) -> bool {
        self == ProjectStatus::Draft || self == ProjectStatus::Active
    }

    pub fn as_str(self) -> (r: &'static str)
        ensures
            r@ == self.text(),
    {
        match self {
            ProjectStatus::Draft => "draft",
            ProjectStatus::Active => "active",
            ProjectStatus::Completed => "completed",
            ProjectStatus::Archived => "archived",
        }
    }

    /// Whether tasks may still be added to a project in this status.
    #[verifier::when_used_as_spec(spec_allows_tasks)]
    pub fn allows_tasks(self) -> (r: bool)
        ensures
            r == self.spec_allows_tasks(),
    {
        matches!(self, ProjectStatus::Draft | ProjectStatus::Active)
    }

    /// Read a status from its wire text.
    pub fn parse(s: &str) -> (r: Result<ProjectStatus, DomainError>)
        ensures
            ProjectStatus::parses_to(s@, r),
    {
        proof {
            project_status_texts_distinct();
        }
        if str_eq(s, "draft") {
            return Ok(ProjectStatus::Draft);
        }
        if str_eq(s, "active") {
            return Ok(ProjectStatus::Active);
        }
        if str_eq(s, "completed") {
            return Ok(ProjectStatus::Completed);
        }
        if str_eq(s, "archived") {
            return Ok(ProjectStatus::Archived);
        }
        Err(DomainError::UnknownStatus(s.to_owned()))
    }
}

proof fn project_status_texts_distinct()
    ensures
        forall|x: ProjectStatus, y: ProjectStatus| x.text() == y.text() ==> x == y,
{
    reveal_strlit("draft");
    reveal_strlit("active");
    reveal_strlit("completed");
    reveal_strlit("archived");
    assert forall|x: ProjectStatus, y: ProjectStatus| x.text() == y.text() implies x == y by {
        if x != y {
            assert(x.text().len() != y.text().len() || x.text()[0] != y.text()[0]);
        }
    }
}

/// Parsing the wire text of a project status gives that status back.
pub proof fn project_status_round_trip(x: ProjectStatus, r: Result<ProjectStatus, DomainError>)
    requires
        ProjectStatus::parses_to(x.text(), r),
    ensures
        r == Ok::<ProjectStatus, DomainError>(x),
{
    project_status_texts_distinct();
}

impl core::str::FromStr for ProjectStatus {
    type Err = DomainError;

    fn from_str(s: &str) -> (r: Result<Self, Self::Err>)
        ensures
            ProjectStatus::parses_to(s@, r),
    {
        ProjectStatus::parse(s)
    }
}

/// Lifecycle status of a task.
#[derive(Clone, Copy, Debug, PartialEq, Eq, Hash, Structural)]
pub enum TaskStatus {
    Todo,
    InProgress,
    Done,
    Cancelled,
}
impl TaskStatus {
    /// The wire text of the status.
    pub open spec fn text(self) -> Seq<char> {
        match self {
            TaskStatus::Todo => "todo"@,
            TaskStatus::InProgress => "in_progress"@,
            TaskStatus::Done => "done"@,
            TaskStatus::Cancelled => "cancelled"@,
        }
    }

    /// What parsing `s` gives: the status whose text it is, or an error
    /// holding `s`.
    pub open spec fn parses_to(s: Seq<char>, r: Result<TaskStatus, DomainError>) -> bool {
        match r {
            Ok(x) => x.text() == s,
            Err(e) => (forall|x: TaskStatus| #[trigger] x.text() != s) && (e matches DomainError::UnknownStatus(m)
                && m@ == s),
        }
    }

    pub open spec fn spec_is_terminal(self) -> bool {
        self == TaskStatus::Done || self == TaskStatus::Cancelled
    }

    pub open spec fn spec_is_active(self) -> bool {
        self == TaskStatus::Todo || self == TaskStatus::InProgress
    }

    pub fn as_str(self) -> (r: &'static str)
        ensures
            r@ == self.text(),
    {
        match self {
            TaskStatus::Todo => "todo",
            TaskStatus::InProgress => "in_progress",
            TaskStatus::Done => "done",
            TaskStatus::Cancelled => "cancelled",
        }
    }

    /// Whether no further transition leaves this status.
    #[verifier::when_used_as_spec(spec_is_terminal)]
    pub fn is_terminal(self) -> (r: bool)
        ensures
            r == self.spec_is_terminal(),
    {
        matches!(self, TaskStatus::Done | TaskStatus::Cancelled)
    }

    /// Whether work on the task is still open.
    #[verifier::when_used_as_spec(spec_is_active)]
    pub fn is_active(self) -> (r: bool)
        ensures
            r == self.spec_is_active(),
    {
        matches!(self, TaskStatus::Todo | TaskStatus::InProgress)
    }

    /// Read a status from its wire text.
    pub fn parse(s: &str) -> (r: Result<TaskStatus, DomainError>)
        ensures
            TaskStatus::parses_to(s@, r),
    {
        proof {
            task_status_texts_distinct();
        }
        if str_eq(s, "todo") {
            return Ok(TaskStatus::Todo);
        }
        if str_eq(s, "in_progress") {
            return Ok(TaskStatus::InProgress);
        }
        if str_eq(s, "done") {
            return Ok(TaskStatus::Done);
        }
        if str_eq(s, "cancelled") {
            return Ok(TaskStatus::Cancelled);
        }
        Err(DomainError::UnknownStatus(s.to_owned()))
    }
}

proof fn task_status_texts_distinct()
    ensures
        forall|x: TaskStatus, y: TaskStatus| x.text() == y.text() ==> x == y,
{
    reveal_strlit("todo");
    reveal_strlit("in_progress");
    reveal_strlit("done");
    reveal_strlit("cancelled");
    assert forall|x: TaskStatus, y: TaskStatus| x.text() == y.text() implies x == y by {
        if x != y {
            assert(x.text().len() != y.text().len() || x.text()[0] != y.text()[0]);
        }
    }
}

/// Parsing the wire text of a task status gives that status back.
pub proof fn task_status_round_trip(x: TaskStatus, r: Result<TaskStatus, DomainError>)
    requires
        TaskStatus::parses_to(x.text(), r),
    ensures
        r == Ok::<TaskStatus, DomainError>(x),
{
    task_status_texts_distinct();
}

impl core::str::FromStr for TaskStatus {
    type Err = DomainError;

    fn from_str(s: &str) -> (r: Result<Self, Self::Err>)
        ensures
            TaskStatus::parses_to(s@, r),
    {
        TaskStatus::parse(s)
    }
}

/// Lifecycle status of a daily execution.
#[derive(Clone, Copy, Debug, PartialEq, Eq, Hash, Structural)]
pub enum DailyExecutionStatus {
    Planned,
    Completed,
    Skipped,
}
impl DailyExecutionStatus {
    /// The wire text of the status.
    pub open spec fn text(self) -> Seq<char> {
        match self {
            DailyExecutionStatus::Planned => "planned"@,
            DailyExecutionStatus::Completed => "completed"@,
            DailyExecutionStatus::Skipped => "skipped"@,
        }
    }

    /// What parsing `s` gives: the status whose text it is, or an error
    /// holding `s`.
    pub open spec fn parses_to(s: Seq<char>, r: Result<DailyExecutionStatus, DomainError>) -> bool {
        match r {
            Ok(x) => x.text() == s,
            Err(e) => (forall|x: DailyExecutionStatus| #[trigger] x.text() != s) && (e matches DomainError::UnknownStatus(m)
                && m@ == s),
        }
    }

    pub fn as_str(self) -> (r: &'static str)
        ensures
            r@ == self.text(),
    {
        match self {
            DailyExecutionStatus::Planned => "planned",
            DailyExecutionStatus::Completed => "completed",
            DailyExecutionStatus::Skipped => "skipped",
        }
    }

    /// Read a status from its wire text.
    pub fn parse(s: &str) -> (r: Result<DailyExecutionStatus, DomainError>)
        ensures
            DailyExecutionStatus::parses_to(s@, r),
    {
        proof {
            daily_execution_status_texts_distinct();
        }
        if str_eq(s, "planned") {
            return Ok(DailyExecutionStatus::Planned);
        }
        if str_eq(s, "completed") {
            return Ok(DailyExecutionStatus::Completed);
        }
        if str_eq(s, "skipped") {
            return Ok(DailyExecutionStatus::Skipped);
        }
        Err(DomainError::UnknownStatus(s.to_owned()))
    }
}

proof fn daily_execution_status_texts_distinct()
    ensures
        forall|x: DailyExecutionStatus, y: DailyExecutionStatus| x.text() == y.text() ==> x == y,
{
    reveal_strlit("planned");
    reveal_strlit("completed");
    reveal_strlit("skipped");
    assert forall|x: DailyExecutionStatus, y: DailyExecutionStatus| x.text() == y.text() implies x == y by {
        if x != y {
            assert(x.text().len() != y.text().len() || x.text()[0] != y.text()[0]);
        }
    }
}

/// Parsing the wire text of a daily execution status gives that status back.
pub proof fn daily_execution_status_round_trip(x: DailyExecutionStatus, r: Result<DailyExecutionStatus, DomainError>)
    requires
        DailyExecutionStatus::parses_to(x.text(), r),
    ensures
        r == Ok::<DailyExecutionStatus, DomainError>(x),
{
    daily_execution_status_texts_distinct();
}

impl core::str::FromStr for DailyExecutionStatus {
    type Err = DomainError;

    fn from_str(s: &str) -> (r: Result<Self, Self::Err>)
        ensures
            DailyExecutionStatus::parses_to(s@, r),
    {
        DailyExecutionStatus::parse(s)
    }
}

/// What making a parent active did: it was activated now, or it already was.
#[derive(Clone, Copy, Debug, PartialEq, Eq, Hash, Structural)]
pub enum EnsureActive {
    Activated,
    AlreadyActive,
}

} // verus!
