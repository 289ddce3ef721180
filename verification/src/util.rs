//! Date-range rules shared by the entities that live inside a cycle.
use crate::calendar::Date;
use crate::error::DomainError;
use vstd::prelude::*;

verus! {

/// Julian day of an optional date.
pub open spec fn opt_day(d: Option<Date>) -> Option<int> {
    match d {
        Some(x) => Some(x@),
        None => None,
    }
}

/// An end never precedes its start; a missing bound constrains nothing.
pub open spec fn range_ordered(start: Option<int>, end: Option<int>) -> bool {
    match (start, end) {
        (Some(s), Some(e)) => s <= e,
        _ => true,
    }
}

/// A present date lies between the cycle's first and last day.
pub open spec fn inside(cycle_start: int, cycle_end: int, d: Option<int>) -> bool {
    match d {
        Some(x) => cycle_start <= x <= cycle_end,
        None => true,
    }
}

/// The verdict of `dates_within_cycle` on Julian days.
pub open spec fn within_cycle_outcome(
    cycle_start: int,
    cycle_end: int,
    start: Option<int>,
    end: Option<int>,
) -> Result<(), DomainError> {
    if !range_ordered(start, end) {
        Err(DomainError::InvalidDateRange)
    } else if !(inside(cycle_start, cycle_end, start) && inside(cycle_start, cycle_end, end)) {
        Err(DomainError::DateOutsideCycle)
    } else {
        Ok(())
    }
}

/// The dates of an entity inside a cycle are accepted exactly when each date
/// given lies from the cycle's first day to its last, both included, and a
/// given end does not precede a given start. A misordered range is refused as
/// such; an ordered one with a date before the cycle starts or after it ends
/// is refused as outside the cycle.
pub proof fn dates_within_cycle_law(
    cycle_start: int,
    cycle_end: int,
    start: Option<int>,
    end: Option<int>,
)
    ensures
        within_cycle_outcome(cycle_start, cycle_end, start, end) is Ok <==> ((start is Some
            ==> cycle_start <= start->Some_0 && start->Some_0 <= cycle_end) && (end is Some
            ==> cycle_start <= end->Some_0 && end->Some_0 <= cycle_end) && (start is Some
            && end is Some ==> start->Some_0 <= end->Some_0)),
        start is Some && end is Some && end->Some_0 < start->Some_0 ==> within_cycle_outcome(
            cycle_start,
            cycle_end,
            start,
            end,
        ) == Err::<(), DomainError>(DomainError::InvalidDateRange),
        !(start is Some && end is Some && end->Some_0 < start->Some_0) && ((start is Some && (
        start->Some_0 < cycle_start || cycle_end < start->Some_0)) || (end is Some && (end->Some_0
            < cycle_start || cycle_end < end->Some_0))) ==> within_cycle_outcome(
            cycle_start,
            cycle_end,
            start,
            end,
        ) == Err::<(), DomainError>(DomainError::DateOutsideCycle),
{
}

/// Refuses an optional range whose end comes before its start.
pub fn validate_date_range(start: Option<Date>, end: Option<Date>) -> (r: Result<(), DomainError>)
    ensures
        r is Ok <==> range_ordered(opt_day(start), opt_day(end)),
        r is Err ==> r == Err::<(), DomainError>(DomainError::InvalidDateRange),
{
    match (start, end) {
        (Some(s), Some(e)) => {
            if e.is_before(&s) {
                Err(DomainError::InvalidDateRange)
            } else {
                Ok(())
            }
        },
        _ => Ok(()),
    }
}

/// Refuses a range whose end comes before its start.
pub fn require_date_range(start: Date, end: Date) -> (r: Result<(), DomainError>)
    ensures
        r is Ok <==> start@ <= end@,
        r is Err ==> r == Err::<(), DomainError>(DomainError::InvalidDateRange),
{
    if end.is_before(&start) {
        Err(DomainError::InvalidDateRange)
    } else {
        Ok(())
    }
}

fn date_inside(cycle_start: Date, cycle_end: Date, d: Option<Date>) -> (r: bool)
    ensures
        r == inside(cycle_start@, cycle_end@, opt_day(d)),
{
    match d {
        Some(x) => !(x.is_before(&cycle_start) || cycle_end.is_before(&x)),
        None => true,
    }
}

/// Checks that an optional range is ordered and that each present bound falls
/// within the cycle's dates.
pub fn dates_within_cycle(
    cycle_start: Date,
    cycle_end: Date,
    start_on: Option<Date>,
    end_on: Option<Date>,
) -> (r: Result<(), DomainError>)
    ensures
        r == within_cycle_outcome(cycle_start@, cycle_end@, opt_day(start_on), opt_day(end_on)),
{
    validate_date_range(start_on, end_on)?;
    if !date_inside(cycle_start, cycle_end, start_on) || !date_inside(cycle_start, cycle_end, end_on) {
        return Err(DomainError::DateOutsideCycle);
    }
    Ok(())
}

} // verus!
