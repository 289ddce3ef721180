//! Errors of the domain rules and of the use cases built on them.
use vstd::prelude::*;
use vstd::string::*;

verus! {

/// Recoverable violations of domain invariants.
#[derive(Debug, Clone, PartialEq, Eq)]
pub enum DomainError {
    EmptyTitle,
    InvalidDateRange,
    DateOutsideCycle,
    InvalidStatusTransition { from: &'static str, to: &'static str },
    EmptyReviewContent,
    UnknownStatus(String),
    UnknownProgressKind(String),
    UnknownMilestoneState(String),
    InvalidProgressDefinition { kind: &'static str, reason: &'static str },
    InvalidCheckInPayload { kind: &'static str, reason: &'static str },
    ProgressKindImmutable,
}

/// Spec counterpart of a `DomainError`, with texts as character sequences.
pub enum DomainErrorView {
    EmptyTitle,
    InvalidDateRange,
    DateOutsideCycle,
    InvalidStatusTransition { from: Seq<char>, to: Seq<char> },
    EmptyReviewContent,
    UnknownStatus(Seq<char>),
    UnknownProgressKind(Seq<char>),
    UnknownMilestoneState(Seq<char>),
    InvalidProgressDefinition { kind: Seq<char>, reason: Seq<char> },
    InvalidCheckInPayload { kind: Seq<char>, reason: Seq<char> },
    ProgressKindImmutable,
}

impl View for DomainError {
    type V = DomainErrorView;

    open spec fn view(&self) -> DomainErrorView {
        match self {
            DomainError::EmptyTitle => DomainErrorView::EmptyTitle,
            DomainError::InvalidDateRange => DomainErrorView::InvalidDateRange,
            DomainError::DateOutsideCycle => DomainErrorView::DateOutsideCycle,
            DomainError::InvalidStatusTransition { from, to } => DomainErrorView::InvalidStatusTransition {
                from: from@,
                to: to@,
            },
            DomainError::EmptyReviewContent => DomainErrorView::EmptyReviewContent,
            DomainError::UnknownStatus(v) => DomainErrorView::UnknownStatus(v@),
            DomainError::UnknownProgressKind(v) => DomainErrorView::UnknownProgressKind(v@),
            DomainError::UnknownMilestoneState(v) => DomainErrorView::UnknownMilestoneState(v@),
            DomainError::InvalidProgressDefinition { kind, reason } => DomainErrorView::InvalidProgressDefinition {
                kind: kind@,
                reason: reason@,
            },
            DomainError::InvalidCheckInPayload { kind, reason } => DomainErrorView::InvalidCheckInPayload {
                kind: kind@,
                reason: reason@,
            },
            DomainError::ProgressKindImmutable => DomainErrorView::ProgressKindImmutable,
        }
    }
}

/// Whether `e` refuses a status change from the status with text `from` to the
/// one with text `to`.
pub open spec fn is_transition_error(e: DomainError, from: Seq<char>, to: Seq<char>) -> bool {
    e matches DomainError::InvalidStatusTransition { from: f, to: t } && f@ == from && t@ == to
}

/// The human-readable text of a domain error.
pub open spec fn domain_message(e: DomainError) -> Seq<char> {
    match e {
        DomainError::EmptyTitle => "title must not be empty"@,
        DomainError::InvalidDateRange => "end date must be on or after start date"@,
        DomainError::DateOutsideCycle => "date range must fall within the parent cycle"@,
        DomainError::InvalidStatusTransition { from, to } => "cannot transition from "@ + from@
            + " to "@ + to@,
        DomainError::EmptyReviewContent => "review content must not be empty"@,
        DomainError::UnknownStatus(v) => "unknown status `"@ + v@ + "`"@,
        DomainError::UnknownProgressKind(v) => "unknown progress kind `"@ + v@ + "`"@,
        DomainError::UnknownMilestoneState(v) => "unknown milestone state `"@ + v@ + "`"@,
        DomainError::InvalidProgressDefinition { kind, reason } => "invalid "@ + kind@
            + " progress definition: "@ + reason@,
        DomainError::InvalidCheckInPayload { kind, reason } => "invalid "@ + kind@
            + " check-in: "@ + reason@,
        DomainError::ProgressKindImmutable => "progress kind cannot change"@,
    }
}

fn quoted(prefix: &str, value: &String) -> (r: String)
    ensures
        r@ == prefix@ + value@ + "`"@,
{
    let mut s = String::from_str(prefix);
    s.append(value.as_str());
    s.append("`");
    s
}

fn joined(a: &str, b: &str, c: &str, d: &str) -> (r: String)
    ensures
        r@ == a@ + b@ + c@ + d@,
{
    let mut s = String::from_str(a);
    s.append(b);
    s.append(c);
    s.append(d);
    s
}

impl DomainError {
    /// The human-readable text of the error.
    pub fn to_string(&self) -> (r: String)
        ensures
            r@ == domain_message(*self),
    {
        match self {
            DomainError::EmptyTitle => String::from_str("title must not be empty"),
            DomainError::InvalidDateRange => String::from_str(
                "end date must be on or after start date",
            ),
            DomainError::DateOutsideCycle => String::from_str(
                "date range must fall within the parent cycle",
            ),
            DomainError::InvalidStatusTransition { from, to } => joined(
                "cannot transition from ",
                from,
                " to ",
                to,
            ),
            DomainError::EmptyReviewContent => String::from_str("review content must not be empty"),
            DomainError::UnknownStatus(v) => quoted("unknown status `", v),
            DomainError::UnknownProgressKind(v) => quoted("unknown progress kind `", v),
            DomainError::UnknownMilestoneState(v) => quoted("unknown milestone state `", v),
            DomainError::InvalidProgressDefinition { kind, reason } => joined(
                "invalid ",
                kind,
                " progress definition: ",
                reason,
            ),
            DomainError::InvalidCheckInPayload { kind, reason } => joined(
                "invalid ",
                kind,
                " check-in: ",
                reason,
            ),
            DomainError::ProgressKindImmutable => String::from_str("progress kind cannot change"),
        }
    }
}

/// Failures of a use case.
#[derive(Debug, Clone, PartialEq, Eq)]
pub enum AppError {
    Domain(DomainError),
    NotFound { entity: &'static str, id: String },
    Conflict { message: String },
    Persistence { message: String },
}

/// Spec counterpart of an `AppError`.
pub enum AppErrorView {
    Domain(DomainErrorView),
    NotFound { entity: Seq<char>, id: Seq<char> },
    Conflict { message: Seq<char> },
    Persistence { message: Seq<char> },
}

impl View for AppError {
    type V = AppErrorView;

    open spec fn view(&self) -> AppErrorView {
        match self {
            AppError::Domain(d) => AppErrorView::Domain(d@),
            AppError::NotFound { entity, id } => AppErrorView::NotFound { entity: entity@, id: id@ },
            AppError::Conflict { message } => AppErrorView::Conflict { message: message@ },
            AppError::Persistence { message } => AppErrorView::Persistence { message: message@ },
        }
    }
}

/// A failure of the store itself, such as a lost connection or a value it
/// could not read back, which no rule of the domain decides.
pub open spec fn store_failure(e: AppErrorView) -> bool {
    e is Persistence
}

/// The human-readable text of a use-case error.
pub open spec fn app_message(e: AppError) -> Seq<char> {
    match e {
        AppError::Domain(d) => domain_message(d),
        AppError::NotFound { entity, id } => entity@ + " `"@ + id@ + "` was not found"@,
        AppError::Conflict { message } => message@,
        AppError::Persistence { message } => "persistence error: "@ + message@,
    }
}

impl AppError {
    /// The entity of the given kind with the given identifier does not exist.
    pub fn not_found(entity: &'static str, id: String) -> (r: AppError)
        ensures
            r == (AppError::NotFound { entity, id }),
    {
        AppError::NotFound { entity, id }
    }

    /// The request clashes with the current state.
    pub fn conflict(message: &str) -> (r: AppError)
        ensures
            r matches AppError::Conflict { message: m } && m@ == message@,
    {
        AppError::Conflict { message: message.to_owned() }
    }

    /// Storage failed.
    pub fn persistence(message: &str) -> (r: AppError)
        ensures
            r matches AppError::Persistence { message: m } && m@ == message@,
    {
        AppError::Persistence { message: message.to_owned() }
    }

    /// The human-readable text of the error.
    pub fn to_string(&self) -> (r: String)
        ensures
            r@ == app_message(*self),
    {
        match self {
            AppError::Domain(d) => d.to_string(),
            AppError::NotFound { entity, id } => joined(entity, " `", id.as_str(), "` was not found"),
            AppError::Conflict { message } => message.clone(),
            AppError::Persistence { message } => {
                let mut s = String::from_str("persistence error: ");
                s.append(message.as_str());
                s
            },
        }
    }
}

impl From<DomainError> for AppError {
    fn from(value: DomainError) -> (r: Self) {
        AppError::Domain(value)
    }
}

impl vstd::std_specs::convert::FromSpecImpl<DomainError> for AppError {
    open spec fn obeys_from_spec() -> bool {
        true
    }

    open spec fn from_spec(v: DomainError) -> AppError {
        AppError::Domain(v)
    }
}

} // verus!
