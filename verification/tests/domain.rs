use forge::calendar::{Date, Timestamp};
use forge::check_in::{latest_check_in, CheckIn};
use forge::cycle::Cycle;
use forge::error::DomainError;
use forge::ids::{CheckInId, CycleId, KeyResultId, ObjectiveId, ProjectId};
use forge::key_result::KeyResult;
use forge::objective::Objective;
use forge::progress::{MilestoneState, ProgressDefinition, ProgressKind};
use forge::review::Review;
use forge::status::{
    CycleStatus, KeyResultStatus, ObjectiveStatus, ProjectStatus, TaskStatus,
};
use forge::task::{today_bucket, Task, TodayBucket};
use forge::title::Title;

fn day(year: i32, month: u8, d: u8) -> Date {
    Date::from_calendar_date(year, month, d).unwrap()
}

fn at(year: i32, month: u8, d: u8, hour: i128, minute: i128, second: i128) -> Timestamp {
    let days = day(year, month, d).julian_day() as i128 - 2_440_588;
    let seconds = days * 86_400 + hour * 3_600 + minute * 60 + second;
    Timestamp::from_unix_nanos(seconds * 1_000_000_000).unwrap()
}

fn now() -> Timestamp {
    at(2026, 1, 15, 12, 0, 0)
}

// ---- identifiers, titles, statuses, progress kinds ----

#[test]
fn parses_and_displays_round_trip() {
    let id = CycleId::new();
    let parsed: CycleId = id.to_string().parse().unwrap();
    assert_eq!(id, parsed);
}

#[test]
fn rejects_invalid_uuid() {
    let err = "not-a-uuid".parse::<CycleId>().unwrap_err();
    assert!(!err.to_string().is_empty());
}

#[test]
fn trims_and_accepts_non_empty() {
    let title = Title::parse("  Focus  ").unwrap();
    assert_eq!(title.as_str(), "Focus");
}

#[test]
fn rejects_empty_and_whitespace() {
    assert_eq!(Title::parse("").unwrap_err(), DomainError::EmptyTitle);
    assert_eq!(Title::parse("   ").unwrap_err(), DomainError::EmptyTitle);
}

#[test]
fn round_trips_wire_values() {
    assert_eq!(
        CycleStatus::Planning.as_str().parse::<CycleStatus>().unwrap(),
        CycleStatus::Planning
    );
    assert_eq!(TaskStatus::InProgress.as_str(), "in_progress");
}

#[test]
fn unknown_status_is_an_error() {
    assert!(matches!(
        "nope".parse::<CycleStatus>(),
        Err(DomainError::UnknownStatus(value)) if value == "nope"
    ));
}

#[test]
fn child_rules() {
    assert!(CycleStatus::Planning.allows_tree_mutation());
    assert!(CycleStatus::Active.allows_tree_mutation());
    assert!(!CycleStatus::Closed.allows_tree_mutation());
    assert!(ObjectiveStatus::Draft.allows_children());
    assert!(!ObjectiveStatus::Completed.allows_children());
    assert!(ProjectStatus::Draft.allows_tasks());
    assert!(ProjectStatus::Active.allows_tasks());
    assert!(!ProjectStatus::Completed.allows_tasks());
    assert!(!ProjectStatus::Archived.allows_tasks());
    assert!(TaskStatus::Done.is_terminal());
    assert!(!TaskStatus::Todo.is_terminal());
}

#[test]
fn parses_kinds_and_states() {
    assert_eq!("numeric".parse::<ProgressKind>().unwrap(), ProgressKind::Numeric);
    assert_eq!(
        "achieved".parse::<MilestoneState>().unwrap(),
        MilestoneState::Achieved
    );
    assert!(matches!(
        "nope".parse::<ProgressKind>(),
        Err(DomainError::UnknownProgressKind(_))
    ));
}

#[test]
fn numeric_requires_start() {
    let err = ProgressDefinition::parse(ProgressKind::Numeric, None, Some(10.0), None)
        .unwrap_err();
    assert!(matches!(err, DomainError::InvalidProgressDefinition { .. }));
}

#[test]
fn percentage_requires_start_and_target() {
    assert!(ProgressDefinition::parse(ProgressKind::Percentage, Some(60.0), None, None).is_err());
    let def = ProgressDefinition::parse(ProgressKind::Percentage, Some(60.0), Some(90.0), None)
        .unwrap();
    assert_eq!(def.kind(), ProgressKind::Percentage);
}

#[test]
fn milestone_and_qualitative_reject_numeric_fields() {
    assert!(ProgressDefinition::parse(ProgressKind::Milestone, Some(0.0), None, None).is_err());
    assert!(ProgressDefinition::<f64>::parse(
        ProgressKind::Qualitative,
        None,
        None,
        Some("%".to_string())
    )
    .is_err());
    assert!(ProgressDefinition::<f64>::parse(ProgressKind::Milestone, None, None, None).is_ok());
    assert!(ProgressDefinition::<f64>::parse(ProgressKind::Qualitative, None, None, None).is_ok());
}

// ---- check-ins ----

#[test]
fn latest_prefers_checked_on_then_created_at() {
    let kr = KeyResultId::new();
    let early = CheckIn::reconstitute(
        CheckInId::new(),
        kr,
        Some(10.0),
        None,
        None,
        day(2026, 1, 10),
        at(2026, 1, 20, 12, 0, 0),
        at(2026, 1, 20, 12, 0, 0),
    );
    let same_day_first = CheckIn::reconstitute(
        CheckInId::new(),
        kr,
        Some(20.0),
        None,
        None,
        day(2026, 1, 15),
        at(2026, 1, 15, 9, 0, 0),
        at(2026, 1, 15, 9, 0, 0),
    );
    let same_day_later = CheckIn::reconstitute(
        CheckInId::new(),
        kr,
        Some(30.0),
        None,
        None,
        day(2026, 1, 15),
        at(2026, 1, 15, 18, 0, 0),
        at(2026, 1, 15, 18, 0, 0),
    );
    let items = [early, same_day_first, same_day_later];
    let latest = latest_check_in(&items).unwrap();
    assert_eq!(latest.value(), Some(30.0));
}

#[test]
fn qualitative_requires_note() {
    let err = CheckIn::<f64>::create(
        KeyResultId::new(),
        ProgressKind::Qualitative,
        None,
        None,
        None,
        day(2026, 1, 10),
        now(),
    )
    .unwrap_err();
    assert!(matches!(err, DomainError::InvalidCheckInPayload { .. }));
}

#[test]
fn numeric_allows_value_and_note() {
    let check = CheckIn::create(
        KeyResultId::new(),
        ProgressKind::Numeric,
        Some(3.0),
        None,
        Some("week 1".to_string()),
        day(2026, 1, 10),
        now(),
    )
    .unwrap();
    assert_eq!(check.value(), Some(3.0));
    assert_eq!(check.note(), Some("week 1"));
}

#[test]
fn mismatched_payload_is_rejected() {
    assert!(CheckIn::create(
        KeyResultId::new(),
        ProgressKind::Milestone,
        Some(1.0),
        Some(MilestoneState::InProgress),
        None,
        day(2026, 1, 10),
        now(),
    )
    .is_err());
    assert!(CheckIn::<f64>::create(
        KeyResultId::new(),
        ProgressKind::Numeric,
        None,
        None,
        Some("note".to_string()),
        day(2026, 1, 10),
        now(),
    )
    .is_err());
}

// ---- cycles ----

fn cycle() -> Cycle {
    Cycle::create(
        Title::parse("2026 Q1").unwrap(),
        day(2026, 1, 1),
        day(2026, 3, 31),
        now(),
    )
    .unwrap()
}

#[test]
fn rejects_inverted_dates() {
    let err = Cycle::create(
        Title::parse("Q1").unwrap(),
        day(2026, 3, 31),
        day(2026, 1, 1),
        now(),
    )
    .unwrap_err();
    assert_eq!(err, DomainError::InvalidDateRange);
}

#[test]
fn create_starts_planning() {
    assert_eq!(cycle().status(), CycleStatus::Planning);
}

#[test]
fn planning_to_active_to_closed() {
    let mut cycle = cycle();
    cycle.activate(now()).unwrap();
    assert_eq!(cycle.status(), CycleStatus::Active);
    cycle.close(now()).unwrap();
    assert_eq!(cycle.status(), CycleStatus::Closed);
}

#[test]
fn invalid_lifecycle_transitions() {
    let mut cycle = cycle();
    assert!(cycle.close(now()).is_err());
    cycle.activate(now()).unwrap();
    assert!(cycle.activate(now()).is_err());
    cycle.close(now()).unwrap();
    assert!(cycle.activate(now()).is_err());
    assert!(cycle.close(now()).is_err());
}

#[test]
fn archive_from_any_non_archived() {
    let mut cycle = cycle();
    cycle.archive(now()).unwrap();
    assert_eq!(cycle.status(), CycleStatus::Archived);
    assert!(cycle.archive(now()).is_err());
    assert!(cycle.activate(now()).is_err());
}

// ---- key results ----

fn numeric(start: f64, target: Option<f64>) -> KeyResult<f64> {
    KeyResult::create(
        ObjectiveId::new(),
        Title::parse("Metric").unwrap(),
        None,
        ProgressDefinition::parse(ProgressKind::Numeric, Some(start), target, Some("kg".to_string()))
            .unwrap(),
        now(),
    )
}

#[test]
fn current_defaults_to_start() {
    let kr = numeric(10.0, Some(20.0));
    assert_eq!(kr.current_value(None), Some(10.0));
}

#[test]
fn current_uses_latest_check_in() {
    let kr = numeric(10.0, Some(20.0));
    let check = CheckIn::create(
        kr.id(),
        ProgressKind::Numeric,
        Some(14.0),
        None,
        None,
        day(2026, 1, 10),
        now(),
    )
    .unwrap();
    assert_eq!(kr.current_value(Some(&check)), Some(14.0));
}

#[test]
fn complete_is_explicit() {
    let mut kr = numeric(0.0, Some(10.0));
    assert!(kr.complete(now()).is_err());
    kr.activate(now()).unwrap();
    kr.complete(now()).unwrap();
    assert_eq!(kr.status(), KeyResultStatus::Completed);
    assert!(!kr.status().allows_check_in());
}

#[test]
fn progress_kind_cannot_change() {
    let mut kr = numeric(0.0, Some(10.0));
    let err = kr
        .update(
            Title::parse("Metric").unwrap(),
            None,
            ProgressDefinition::parse(ProgressKind::Qualitative, None, None, None).unwrap(),
            now(),
        )
        .unwrap_err();
    assert_eq!(err, DomainError::ProgressKindImmutable);
}

#[test]
fn complete_is_independent_of_reading() {
    let mut kr = numeric(0.0, Some(10.0));
    kr.activate(now()).unwrap();
    let check = CheckIn::create(
        kr.id(),
        ProgressKind::Numeric,
        Some(10.0),
        None,
        None,
        day(2026, 1, 10),
        now(),
    )
    .unwrap();
    assert_eq!(kr.current_value(Some(&check)), Some(10.0));
    assert_eq!(kr.status(), KeyResultStatus::Active);
    kr.complete(now()).unwrap();
    assert_eq!(kr.status(), KeyResultStatus::Completed);
}

#[test]
fn milestone_state_defaults_to_not_started() {
    let kr: KeyResult<f64> = KeyResult::create(
        ObjectiveId::new(),
        Title::parse("Launch").unwrap(),
        None,
        ProgressDefinition::parse(ProgressKind::Milestone, None, None, None).unwrap(),
        now(),
    );
    assert_eq!(kr.current_state(None), Some(MilestoneState::NotStarted));
    let check = CheckIn::create(
        kr.id(),
        ProgressKind::Milestone,
        None,
        Some(MilestoneState::Achieved),
        None,
        day(2026, 1, 10),
        now(),
    )
    .unwrap();
    assert_eq!(kr.current_state(Some(&check)), Some(MilestoneState::Achieved));
    assert_eq!(kr.current_value(Some(&check)), None);
}

#[test]
fn qualitative_reading_is_the_latest_note() {
    let kr: KeyResult<f64> = KeyResult::create(
        ObjectiveId::new(),
        Title::parse("Learn").unwrap(),
        None,
        ProgressDefinition::parse(ProgressKind::Qualitative, None, None, None).unwrap(),
        now(),
    );
    let check = CheckIn::create(
        kr.id(),
        ProgressKind::Qualitative,
        None,
        None,
        Some("read two papers".to_string()),
        day(2026, 1, 10),
        now(),
    )
    .unwrap();
    assert_eq!(kr.latest_note(Some(&check)), Some("read two papers"));
    assert_eq!(kr.current_value(Some(&check)), None);
    assert_eq!(kr.current_state(Some(&check)), None);
}

// ---- objectives, projects, reviews ----

fn objective() -> Objective {
    Objective::create(
        CycleId::new(),
        Title::parse("Ship 1A").unwrap(),
        None,
        Some(day(2026, 1, 1)),
        Some(day(2026, 3, 31)),
        day(2026, 1, 1),
        day(2026, 3, 31),
        now(),
    )
    .unwrap()
}

#[test]
fn objective_rejects_dates_outside_cycle() {
    let err = Objective::create(
        CycleId::new(),
        Title::parse("Q1").unwrap(),
        None,
        Some(day(2025, 12, 1)),
        Some(day(2026, 3, 31)),
        day(2026, 1, 1),
        day(2026, 3, 31),
        now(),
    )
    .unwrap_err();
    assert_eq!(err, DomainError::DateOutsideCycle);
}

#[test]
fn draft_to_active_to_completed() {
    let mut objective = objective();
    assert_eq!(objective.status(), ObjectiveStatus::Draft);
    objective.activate(now()).unwrap();
    objective.complete(now()).unwrap();
    assert_eq!(objective.status(), ObjectiveStatus::Completed);
    assert!(objective.activate(now()).is_err());
    assert!(!objective.status().allows_children());
}

#[test]
fn archive_blocks_children() {
    let mut objective = objective();
    objective.archive(now()).unwrap();
    assert!(!objective.status().allows_children());
    assert!(objective.archive(now()).is_err());
}

#[test]
fn belongs_to_cycle_and_checks_period() {
    let cycle = CycleId::new();
    let review = Review::create(
        cycle,
        "Mid-cycle notes",
        Some(day(2026, 1, 1)),
        Some(day(2026, 1, 31)),
        day(2026, 1, 1),
        day(2026, 3, 31),
        now(),
    )
    .unwrap();
    assert_eq!(review.cycle_id(), cycle);

    let err = Review::create(
        cycle,
        "outside",
        Some(day(2025, 12, 1)),
        Some(day(2026, 1, 31)),
        day(2026, 1, 1),
        day(2026, 3, 31),
        now(),
    )
    .unwrap_err();
    assert_eq!(err, DomainError::DateOutsideCycle);
}

#[test]
fn rejects_empty_content() {
    let err = Review::create(
        CycleId::new(),
        "   ",
        None,
        None,
        day(2026, 1, 1),
        day(2026, 3, 31),
        now(),
    )
    .unwrap_err();
    assert_eq!(err, DomainError::EmptyReviewContent);
}

// ---- tasks and the buckets of a day ----

fn today() -> Date {
    day(2026, 8, 30)
}

fn tomorrow() -> Date {
    day(2026, 8, 31)
}

fn yesterday() -> Date {
    day(2026, 8, 29)
}

fn task() -> Task {
    Task::create(ProjectId::new(), Title::parse("Do it").unwrap(), None, None, now())
}

fn task_on(scheduled_on: Option<Date>) -> Task {
    Task::create(ProjectId::new(), Title::parse("Do it").unwrap(), None, scheduled_on, now())
}

#[test]
fn valid_transitions() {
    let mut task = task();
    task.start(now()).unwrap();
    assert_eq!(task.status(), TaskStatus::InProgress);
    task.complete(now()).unwrap();
    assert_eq!(task.status(), TaskStatus::Done);
    assert_eq!(task.completed_at(), Some(now()));
}

#[test]
fn cancel_from_todo_and_in_progress() {
    let mut todo = task();
    todo.cancel(now()).unwrap();
    assert_eq!(todo.status(), TaskStatus::Cancelled);
    assert!(!todo.status().is_active());

    let mut started = task();
    started.start(now()).unwrap();
    started.cancel(now()).unwrap();
    assert_eq!(started.status(), TaskStatus::Cancelled);
}

#[test]
fn terminal_states_reject_further_changes() {
    let mut done = task();
    done.start(now()).unwrap();
    done.complete(now()).unwrap();
    assert!(done.start(now()).is_err());
    assert!(done.complete(now()).is_err());
    assert!(done.cancel(now()).is_err());
    assert!(done.update(Title::parse("Nope").unwrap(), None, now()).is_err());

    let mut cancelled = task();
    cancelled.cancel(now()).unwrap();
    assert!(cancelled.start(now()).is_err());
    assert!(cancelled.complete(now()).is_err());
}

#[test]
fn task_create_without_scheduled_on() {
    let task = task();
    assert_eq!(task.scheduled_on(), None);
    assert_eq!(task.status(), TaskStatus::Todo);
}

#[test]
fn task_create_with_scheduled_on() {
    let task = task_on(Some(today()));
    assert_eq!(task.scheduled_on(), Some(today()));
    assert_eq!(task.status(), TaskStatus::Todo);
}

#[test]
fn task_schedule_todo() {
    let mut task = task();
    task.schedule(Some(today()), now()).unwrap();
    assert_eq!(task.scheduled_on(), Some(today()));
    assert_eq!(task.status(), TaskStatus::Todo);
}

#[test]
fn task_reschedule_todo() {
    let mut task = task_on(Some(today()));
    task.schedule(Some(tomorrow()), now()).unwrap();
    assert_eq!(task.scheduled_on(), Some(tomorrow()));
    assert_eq!(task.status(), TaskStatus::Todo);
}

#[test]
fn task_unschedule_todo() {
    let mut task = task_on(Some(today()));
    task.schedule(None, now()).unwrap();
    assert_eq!(task.scheduled_on(), None);
    assert_eq!(task.status(), TaskStatus::Todo);
}

#[test]
fn task_schedule_in_progress() {
    let mut task = task();
    task.start(now()).unwrap();
    task.schedule(Some(today()), now()).unwrap();
    assert_eq!(task.scheduled_on(), Some(today()));
    assert_eq!(task.status(), TaskStatus::InProgress);
}

#[test]
fn task_terminal_task_cannot_schedule() {
    let mut done = task();
    done.start(now()).unwrap();
    done.complete(now()).unwrap();
    let err = done.schedule(Some(today()), now()).unwrap_err();
    assert!(matches!(err, DomainError::InvalidStatusTransition { .. }));
    assert_eq!(done.scheduled_on(), None);

    let mut cancelled = task();
    cancelled.cancel(now()).unwrap();
    assert!(cancelled.schedule(Some(today()), now()).is_err());
}

#[test]
fn task_terminal_task_cannot_unschedule() {
    let mut done = task_on(Some(today()));
    done.start(now()).unwrap();
    done.complete(now()).unwrap();
    let err = done.schedule(None, now()).unwrap_err();
    assert!(matches!(err, DomainError::InvalidStatusTransition { .. }));
    assert_eq!(done.scheduled_on(), Some(today()));

    let mut cancelled = task_on(Some(today()));
    cancelled.cancel(now()).unwrap();
    assert!(cancelled.schedule(None, now()).is_err());
    assert_eq!(cancelled.scheduled_on(), Some(today()));
}

#[test]
fn start_preserves_scheduled_on() {
    let mut task = task_on(Some(today()));
    task.start(now()).unwrap();
    assert_eq!(task.scheduled_on(), Some(today()));
}

#[test]
fn complete_preserves_scheduled_on() {
    let mut task = task_on(Some(today()));
    task.start(now()).unwrap();
    task.complete(now()).unwrap();
    assert_eq!(task.scheduled_on(), Some(today()));
    assert_eq!(task.status(), TaskStatus::Done);
}

#[test]
fn cancel_preserves_scheduled_on() {
    let mut task = task_on(Some(today()));
    task.cancel(now()).unwrap();
    assert_eq!(task.scheduled_on(), Some(today()));
    assert_eq!(task.status(), TaskStatus::Cancelled);
}

#[test]
fn todo_scheduled_today_is_scheduled() {
    assert_eq!(today_bucket(&task_on(Some(today())), today()), Some(TodayBucket::Scheduled));
}

#[test]
fn in_progress_scheduled_today_is_scheduled() {
    let mut task = task_on(Some(today()));
    task.start(now()).unwrap();
    assert_eq!(today_bucket(&task, today()), Some(TodayBucket::Scheduled));
}

#[test]
fn todo_scheduled_yesterday_is_overdue() {
    assert_eq!(today_bucket(&task_on(Some(yesterday())), today()), Some(TodayBucket::Overdue));
}

#[test]
fn in_progress_scheduled_yesterday_is_overdue() {
    let mut task = task_on(Some(yesterday()));
    task.start(now()).unwrap();
    assert_eq!(today_bucket(&task, today()), Some(TodayBucket::Overdue));
}

#[test]
fn todo_scheduled_tomorrow_is_none() {
    assert_eq!(today_bucket(&task_on(Some(tomorrow())), today()), None);
}

#[test]
fn in_progress_scheduled_tomorrow_is_none() {
    let mut task = task_on(Some(tomorrow()));
    task.start(now()).unwrap();
    assert_eq!(today_bucket(&task, today()), None);
}

#[test]
fn in_progress_without_schedule_is_unscheduled_in_progress() {
    let mut task = task();
    task.start(now()).unwrap();
    assert_eq!(today_bucket(&task, today()), Some(TodayBucket::UnscheduledInProgress));
}

#[test]
fn todo_without_schedule_is_none() {
    assert_eq!(today_bucket(&task(), today()), None);
}

#[test]
fn done_completed_on_requested_utc_date_is_completed() {
    let mut task = task();
    task.start(now()).unwrap();
    task.complete(at(2026, 8, 30, 15, 0, 0)).unwrap();
    assert_eq!(today_bucket(&task, today()), Some(TodayBucket::Completed));
}

#[test]
fn done_completed_on_another_utc_date_is_none() {
    let mut task = task();
    task.start(now()).unwrap();
    task.complete(at(2026, 8, 31, 15, 0, 0)).unwrap();
    assert_eq!(today_bucket(&task, today()), None);
}

#[test]
fn cancelled_is_none() {
    let mut task = task_on(Some(today()));
    task.cancel(now()).unwrap();
    assert_eq!(today_bucket(&task, today()), None);
}

#[test]
fn scheduled_done_is_completed_when_completed_at_matches() {
    let mut task = task_on(Some(today()));
    task.start(now()).unwrap();
    task.complete(at(2026, 8, 30, 9, 0, 0)).unwrap();
    assert_eq!(task.scheduled_on(), Some(today()));
    assert_eq!(today_bucket(&task, today()), Some(TodayBucket::Completed));
    assert_eq!(today_bucket(&task, tomorrow()), None);
}

#[test]
fn completed_bucket_uses_utc_midnight_boundary() {
    let mut before = task();
    before.start(now()).unwrap();
    before.complete(at(2026, 8, 30, 23, 59, 59)).unwrap();
    assert_eq!(today_bucket(&before, today()), Some(TodayBucket::Completed));
    assert_eq!(today_bucket(&before, tomorrow()), None);

    let mut after = task();
    after.start(now()).unwrap();
    after.complete(at(2026, 8, 31, 0, 0, 0)).unwrap();
    assert_eq!(today_bucket(&after, today()), None);
    assert_eq!(today_bucket(&after, tomorrow()), Some(TodayBucket::Completed));
}

#[test]
fn a_title_reads_back_as_itself() {
    let title = Title::parse("\t Ship the beta \n").unwrap();
    let text = title.as_str();
    assert_eq!(text, text.trim());
    assert!(!text.is_empty());
    assert_eq!(Title::parse(text).unwrap(), title);
}
