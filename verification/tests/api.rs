use forge::api::{default_planned, parse_id, parse_progress_kind, ApiError};
use forge::convert::{parse, title};
use forge::error::{AppError, DomainError};
use forge::ids::{CycleId, TaskId};
use forge::logging::LoggingError;
use forge::progress::ProgressKind;
use forge::text::empty_to_none;
use forge::review::parse_content;

#[test]
fn api_errors_answer_with_status_code_and_message() {
    let cases = [
        (ApiError::bad_request("invalid cycle id"), 400, "bad_request", "invalid cycle id"),
        (
            ApiError::from(AppError::Domain(DomainError::EmptyTitle)),
            422,
            "domain",
            "title must not be empty",
        ),
        (
            ApiError::from(AppError::not_found("cycle", "abc".to_string())),
            404,
            "not_found",
            "cycle `abc` was not found",
        ),
        (ApiError::from(AppError::conflict("clash")), 409, "conflict", "clash"),
        (ApiError::from(AppError::persistence("disk")), 500, "persistence", "disk"),
    ];
    for (error, status, code, message) in cases {
        let (s, c, m) = error.response_parts();
        assert_eq!(s, status);
        assert_eq!(c, code);
        assert_eq!(m, message);
    }
}

#[test]
fn domain_error_messages() {
    assert_eq!(
        DomainError::InvalidStatusTransition { from: "closed", to: "active" }.to_string(),
        "cannot transition from closed to active"
    );
    assert_eq!(DomainError::UnknownStatus("x".to_string()).to_string(), "unknown status `x`");
    assert_eq!(
        DomainError::InvalidProgressDefinition { kind: "numeric", reason: "start_value is required" }
            .to_string(),
        "invalid numeric progress definition: start_value is required"
    );
    assert_eq!(
        AppError::persistence("disk").to_string(),
        "persistence error: disk"
    );
    assert_eq!(
        LoggingError::InvalidFilter("bad".to_string()).to_string(),
        "invalid log filter: bad"
    );
}

#[test]
fn parse_id_reads_uuids_and_names_what_is_refused() {
    let id = TaskId::new();
    let value = parse_id(&id.to_string(), "task").unwrap();
    assert_eq!(TaskId::from_uuid(value), id);
    match parse_id("nope", "task") {
        Err(ApiError::BadRequest(message)) => assert_eq!(message, "invalid task id"),
        other => panic!("unexpected {other:?}"),
    }
}

#[test]
fn parse_progress_kind_reports_unknown_kinds() {
    assert_eq!(parse_progress_kind("milestone").unwrap(), ProgressKind::Milestone);
    match parse_progress_kind("ratio") {
        Err(ApiError::BadRequest(message)) => {
            assert_eq!(message, "unknown progress kind `ratio`")
        },
        other => panic!("unexpected {other:?}"),
    }
    assert_eq!(default_planned(), "planned");
}

#[test]
fn stored_text_that_does_not_read_is_a_persistence_error() {
    assert_eq!(title("  Q1 ").unwrap().as_str(), "Q1");
    assert_eq!(title(" ").unwrap_err(), AppError::persistence("title must not be empty"));
    let id = CycleId::new();
    assert_eq!(CycleId::from_uuid(parse(&id.to_string()).unwrap()), id);
    assert!(matches!(parse("xyz"), Err(AppError::Persistence { .. })));
}

#[test]
fn blank_text_counts_as_none() {
    assert_eq!(empty_to_none(Some("  a b  ".to_string())), Some("a b".to_string()));
    assert_eq!(empty_to_none(Some(" \t\n".to_string())), None);
    assert_eq!(empty_to_none(None), None);
    assert_eq!(parse_content("  Notes ").unwrap(), "Notes");
    assert_eq!(parse_content("   ").unwrap_err(), DomainError::EmptyReviewContent);
}
