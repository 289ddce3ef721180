//! A written review of a cycle.
use crate::calendar::{Date, Timestamp};
use crate::error::DomainError;
use crate::ids::{is_version_7, CycleId, ReviewId};
use crate::text::{non_blank, trimmed};
use crate::util::{dates_within_cycle, opt_day, within_cycle_outcome};
use vstd::prelude::*;

verus! {

/// Spec counterpart of a `Review`.
pub struct ReviewView {
    pub id: u128,
    pub cycle_id: u128,
    pub content: Seq<char>,
    pub period_start: Option<int>,
    pub period_end: Option<int>,
    pub created_at: int,
    pub updated_at: int,
}

#[derive(Debug, Clone, PartialEq, Eq)]
pub struct Review {
    id: ReviewId,
    cycle_id: CycleId,
    content: String,
    period_start: Option<Date>,
    period_end: Option<Date>,
    created_at: Timestamp,
    updated_at: Timestamp,
}

impl View for Review {
    type V = ReviewView;

    closed spec fn view(&self) -> ReviewView {
        ReviewView {
            id: self.id@,
            cycle_id: self.cycle_id@,
            content: self.content@,
            period_start: opt_day(self.period_start),
            period_end: opt_day(self.period_end),
            created_at: self.created_at@,
            updated_at: self.updated_at@,
        }
    }
}

/// The trimmed content of a review; blank content is refused.
pub fn parse_content(content: &str) -> (r: Result<String, DomainError>)
    ensures
        match r {
            Ok(c) => non_blank(content@) == Some(c@),
            Err(e) => non_blank(content@) is None && e == DomainError::EmptyReviewContent,
        },
{
    let t = trimmed(content);
    if t.as_str().is_empty() {
        Err(DomainError::EmptyReviewContent)
    } else {
        Ok(t)
    }
}

impl Review {
    /// A new review of a cycle. The optional period must be ordered and within
    /// the cycle's dates, checked first; then the content must not be blank.
    pub fn create(
        cycle_id: CycleId,
        content: &str,
        period_start: Option<Date>,
        period_end: Option<Date>,
        cycle_start: Date,
        cycle_end: Date,
        now: Timestamp,
    ) -> (r: Result<Review, DomainError>)
        ensures
            ({
                let outcome = within_cycle_outcome(
                    cycle_start@,
                    cycle_end@,
                    opt_day(period_start),
                    opt_day(period_end),
                );
                &&& r is Ok <==> outcome is Ok && non_blank(content@) is Some
                &&& outcome matches Err(e) ==> r == Err::<Review, DomainError>(e)
                &&& outcome is Ok && non_blank(content@) is None ==> r == Err::<
                    Review,
                    DomainError,
                >(DomainError::EmptyReviewContent)
            }),
            r matches Ok(v) ==> is_version_7(v@.id) && v@ == (ReviewView {
                id: v@.id,
                cycle_id: cycle_id@,
                content: non_blank(content@)->Some_0,
                period_start: opt_day(period_start),
                period_end: opt_day(period_end),
                created_at: now@,
                updated_at: now@,
            }),
    {
        dates_within_cycle(cycle_start, cycle_end, period_start, period_end)?;
        let content = parse_content(content)?;
        Ok(
            Review {
                id: ReviewId::new(),
                cycle_id,
                content,
                period_start,
                period_end,
                created_at: now,
                updated_at: now,
            },
        )
    }

    /// A review rebuilt from stored fields, as they are.
    pub fn reconstitute(
        id: ReviewId,
        cycle_id: CycleId,
        content: String,
        period_start: Option<Date>,
        period_end: Option<Date>,
        created_at: Timestamp,
        updated_at: Timestamp,
    ) -> (r: Review)
        ensures
            r@ == (ReviewView {
                id: id@,
                cycle_id: cycle_id@,
                content: content@,
                period_start: opt_day(period_start),
                period_end: opt_day(period_end),
                created_at: created_at@,
                updated_at: updated_at@,
            }),
    {
        Review { id, cycle_id, content, period_start, period_end, created_at, updated_at }
    }

    pub fn id(&self) -> (r: ReviewId)
        ensures
            r@ == self@.id,
    {
        self.id
    }

    pub fn cycle_id(&self) -> (r: CycleId)
        ensures
            r@ == self@.cycle_id,
    {
        self.cycle_id
    }

    pub fn content(&self) -> (r: &str)
        ensures
            r@ == self@.content,
    {
        self.content.as_str()
    }

    pub fn period_start(&self) -> (r: Option<Date>)
        ensures
            opt_day(r) == self@.period_start,
    {
        self.period_start
    }

    pub fn period_end(&self) -> (r: Option<Date>)
        ensures
            opt_day(r) == self@.period_end,
    {
        self.period_end
    }

    pub fn created_at(&self) -> (r: Timestamp)
        ensures
            r@ == self@.created_at,
    {
        self.created_at
    }

    pub fn updated_at(&self) -> (r: Timestamp)
        ensures
            r@ == self@.updated_at,
    {
        self.updated_at
    }
}

} // verus!
