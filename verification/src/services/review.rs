//! Use cases on reviews.
use crate::calendar::{Date, Timestamp};
use crate::cycle::CycleView;
use crate::error::{AppError, AppErrorView, DomainErrorView};
use crate::ids::{is_version_7, CycleId};
use crate::repos::{reviews_by_cycle_id, CycleRepository, ReviewRepository};
use crate::review::{Review, ReviewView};
use crate::services::cycle::get_cycle;
use crate::services::{guarded, may_clash, lists_under, lookup, result_view, then_check};
use crate::text::non_blank;
use crate::util::{opt_day, within_cycle_outcome};
use vstd::prelude::*;

verus! {

pub struct CreateReview {
    pub content: String,
    pub period_start: Option<Date>,
    pub period_end: Option<Date>,
}

/// What writing a review of `cycle` decides: the period must be ordered and
/// inside the cycle, then the content must not be blank.
pub open spec fn create_verdict(
    cycle: CycleView,
    content: Seq<char>,
    period_start: Option<int>,
    period_end: Option<int>,
) -> Result<(), AppErrorView> {
    match within_cycle_outcome(cycle.start_on, cycle.end_on, period_start, period_end) {
        Err(e) => Err(AppErrorView::Domain(e@)),
        Ok(()) => if non_blank(content) is None {
            Err(AppErrorView::Domain(DomainErrorView::EmptyReviewContent))
        } else {
            Ok(())
        },
    }
}

#[derive(Clone)]
pub struct ReviewService<C, R> {
    cycles: C,
    reviews: R,
}

impl<C: CycleRepository, R: ReviewRepository> ReviewService<C, R> {
    /// The cycles the service reads.
    pub closed spec fn cycles(&self) -> Map<u128, CycleView> {
        self.cycles.cycles()
    }

    /// The reviews the service reads and writes.
    pub closed spec fn reviews(&self) -> Map<u128, ReviewView> {
        self.reviews.reviews()
    }

    pub fn new(cycles: C, reviews: R) -> (r: Self)
        ensures
            r.cycles() == cycles.cycles(),
            r.reviews() == reviews.reviews(),
    {
        ReviewService { cycles, reviews }
    }

    /// Write a review of a stored cycle.
    pub fn create(&mut self, cycle_id: CycleId, cmd: CreateReview, now: Timestamp) -> (r: Result<
        Review,
        AppError,
    >)
        ensures
            final(self).cycles() == old(self).cycles(),
            guarded(
                then_check(
                    lookup(old(self).cycles(), "cycle"@, cycle_id@),
                    |c: CycleView|
                        create_verdict(
                            c,
                            cmd.content@,
                            opt_day(cmd.period_start),
                            opt_day(cmd.period_end),
                        ),
                ),
                may_clash(old(self).reviews()),
                result_view(r),
            ),
            r matches Ok(v) ==> is_version_7(v@.id) && v@ == (ReviewView {
                id: v@.id,
                cycle_id: cycle_id@,
                content: non_blank(cmd.content@)->Some_0,
                period_start: opt_day(cmd.period_start),
                period_end: opt_day(cmd.period_end),
                created_at: now@,
                updated_at: now@,
            }) && final(self).reviews() == old(self).reviews().insert(v@.id, v@),
            r is Err ==> final(self).reviews() == old(self).reviews(),
    {
        let cycle = get_cycle(&self.cycles, cycle_id)?;
        let review = match Review::create(
            cycle_id,
            cmd.content.as_str(),
            cmd.period_start,
            cmd.period_end,
            cycle.start_on(),
            cycle.end_on(),
            now,
        ) {
            Ok(v) => v,
            Err(e) => return Err(AppError::Domain(e)),
        };
        self.reviews.create(&review)?;
        Ok(review)
    }

    /// The stored reviews of a stored cycle.
    pub fn list_by_cycle(&self, cycle_id: CycleId) -> (r: Result<Vec<Review>, AppError>)
        ensures
            lists_under(self.cycles(), "cycle"@, cycle_id@, result_view(r)),
            r matches Ok(items) ==> reviews_by_cycle_id(self.reviews(), items@, cycle_id@),
    {
        get_cycle(&self.cycles, cycle_id)?;
        self.reviews.list_by_cycle(cycle_id)
    }
}

} // verus!
