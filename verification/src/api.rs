//! How the HTTP interface answers: the errors it reports, and the readings of
//! path and body parameters it makes before calling a use case.
use crate::calendar::Date;
use crate::error::{app_message, domain_message, AppError, DomainError};
use crate::ids::{parse_uuid, uuid_parse};
use crate::progress::ProgressKind;
use crate::services::daily_execution::{CreateDailyExecution, UpdateDailyExecution};
use crate::services::project::{CreateProject, UpdateProject};
use crate::services::task::UpdateTask;
use crate::status::DailyExecutionStatus;
use vstd::prelude::*;

verus! {

/// A failed request: a use case's error, or a request that could not be read.
#[derive(Debug)]
pub enum ApiError {
    App(AppError),
    BadRequest(String),
}

/// The HTTP status, the error code and the message that answer an error.
pub open spec fn response_of(e: ApiError) -> (u16, Seq<char>, Seq<char>) {
    match e {
        ApiError::BadRequest(m) => (400, "bad_request"@, m@),
        ApiError::App(AppError::Domain(d)) => (422, "domain"@, domain_message(d)),
        ApiError::App(a) => match a {
            AppError::NotFound { .. } => (404, "not_found"@, app_message(a)),
            AppError::Conflict { message } => (409, "conflict"@, message@),
            AppError::Persistence { message } => (500, "persistence"@, message@),
            AppError::Domain(d) => (422, "domain"@, domain_message(d)),
        },
    }
}

impl ApiError {
    /// A request that could not be read, with the reason.
    pub fn bad_request(message: &str) -> (r: ApiError)
        ensures
            r matches ApiError::BadRequest(m) && m@ == message@,
    {
        ApiError::BadRequest(message.to_owned())
    }

    /// The HTTP status, the error code and the message of the error's answer.
    pub fn response_parts(self) -> (r: (u16, &'static str, String))
        ensures
            (r.0, r.1@, r.2@) == response_of(self),
    {
        match self {
            ApiError::BadRequest(message) => (400, "bad_request", message),
            ApiError::App(AppError::Domain(err)) => (422, "domain", err.to_string()),
            ApiError::App(AppError::NotFound { entity, id }) => {
                let message = AppError::NotFound { entity, id }.to_string();
                (404, "not_found", message)
            },
            ApiError::App(AppError::Conflict { message }) => (409, "conflict", message),
            ApiError::App(AppError::Persistence { message }) => (500, "persistence", message),
        }
    }
}

impl From<AppError> for ApiError {
    fn from(value: AppError) -> (r: Self) {
        ApiError::App(value)
    }
}

impl vstd::std_specs::convert::FromSpecImpl<AppError> for ApiError {
    open spec fn obeys_from_spec() -> bool {
        true
    }

    open spec fn from_spec(v: AppError) -> ApiError {
        ApiError::App(v)
    }
}

/// Reads an identifier from a path parameter; `label` names what it
/// identifies in the refusal.
pub fn parse_id(raw: &str, label: &str) -> (r: Result<u128, ApiError>)
    ensures
        r is Ok <==> uuid_parse(raw@) is Some,
        r matches Ok(v) ==> uuid_parse(raw@) == Some(v),
        r matches Err(e) ==> e matches ApiError::BadRequest(m) && m@ == "invalid "@ + label@
            + " id"@,
{
    match parse_uuid(raw) {
        Ok(v) => Ok(v),
        Err(_) => {
            let mut message = String::from_str("invalid ");
            message.append(label);
            message.append(" id");
            Err(ApiError::BadRequest(message))
        },
    }
}

/// Reads a progress kind from its wire text; an unknown one is a bad request
/// that carries the domain's message.
pub fn parse_progress_kind(raw: &str) -> (r: Result<ProgressKind, ApiError>)
    ensures
        r matches Ok(k) ==> k.text() == raw@,
        r is Err <==> forall|k: ProgressKind| k.text() != raw@,
        r matches Err(e) ==> e matches ApiError::BadRequest(m) && m@ == "unknown progress kind `"@
            + raw@ + "`"@,
{
    match ProgressKind::parse(raw) {
        Ok(k) => Ok(k),
        Err(e) => Err(ApiError::BadRequest(e.to_string())),
    }
}

/// The status a new daily execution takes when the request names none.
pub fn default_planned() -> (r: String)
    ensures
        r@ == "planned"@,
{
    String::from_str("planned")
}

/// The body of a request that adds a project.
pub struct CreateProjectRequest {
    pub title: String,
    pub description: Option<String>,
}

impl CreateProjectRequest {
    pub fn into_command(self) -> (r: CreateProject)
        ensures
            r.title@ == self.title@,
            r.description == self.description,
    {
        CreateProject { title: self.title, description: self.description }
    }
}

/// The body of a request that edits a project.
pub struct UpdateProjectRequest {
    pub title: String,
    pub description: Option<String>,
}

impl UpdateProjectRequest {
    pub fn into_command(self) -> (r: UpdateProject)
        ensures
            r.title@ == self.title@,
            r.description == self.description,
    {
        UpdateProject { title: self.title, description: self.description }
    }
}

/// The body of a request that edits a task.
pub struct UpdateTaskRequest {
    pub title: String,
    pub description: Option<String>,
}

impl UpdateTaskRequest {
    pub fn into_command(self) -> (r: UpdateTask)
        ensures
            r.title@ == self.title@,
            r.description == self.description,
    {
        UpdateTask { title: self.title, description: self.description }
    }
}

/// Reads the status of a daily execution from its wire text; an unknown one
/// is a domain error.
fn execution_status(text: String) -> (r: Result<DailyExecutionStatus, ApiError>)
    ensures
        match r {
            Ok(s) => s.text() == text@,
            Err(e) => (forall|s: DailyExecutionStatus| s.text() != text@) && (e matches ApiError::App(
                AppError::Domain(DomainError::UnknownStatus(v)),
            ) && v@ == text@),
        },
{
    match DailyExecutionStatus::parse(text.as_str()) {
        Ok(s) => Ok(s),
        Err(e) => Err(ApiError::App(AppError::Domain(e))),
    }
}

/// The body of a request that logs a day of a task; the status defaults to
/// `planned` where the request names none.
pub struct CreateDailyExecutionRequest {
    pub execution_date: Date,
    pub notes: Option<String>,
    pub status: String,
}

impl CreateDailyExecutionRequest {
    /// The command, once the status text is read; an unknown status is a
    /// domain error.
    pub fn into_command(self) -> (r: Result<CreateDailyExecution, ApiError>)
        ensures
            match r {
                Ok(c) => c.execution_date == self.execution_date && c.notes == self.notes
                    && c.status.text() == self.status@,
                Err(e) => (forall|s: DailyExecutionStatus| s.text() != self.status@) && (e matches ApiError::App(
                    AppError::Domain(DomainError::UnknownStatus(v)),
                ) && v@ == self.status@),
            },
    {
        let status = execution_status(self.status)?;
        Ok(CreateDailyExecution { execution_date: self.execution_date, notes: self.notes, status })
    }
}

/// The body of a request that edits a day's log entry.
pub struct UpdateDailyExecutionRequest {
    pub notes: Option<String>,
    pub status: String,
}

impl UpdateDailyExecutionRequest {
    /// The command, once the status text is read; an unknown status is a
    /// domain error.
    pub fn into_command(self) -> (r: Result<UpdateDailyExecution, ApiError>)
        ensures
            match r {
                Ok(c) => c.notes == self.notes && c.status.text() == self.status@,
                Err(e) => (forall|s: DailyExecutionStatus| s.text() != self.status@) && (e matches ApiError::App(
                    AppError::Domain(DomainError::UnknownStatus(v)),
                ) && v@ == self.status@),
            },
    {
        let status = execution_status(self.status)?;
        Ok(UpdateDailyExecution { notes: self.notes, status })
    }
}

} // verus!
