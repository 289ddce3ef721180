//! Use cases over the repositories: each loads what it needs, applies the
//! domain rules, and stores what changed.
use crate::error::{store_failure, AppError, AppErrorView, DomainErrorView};
use crate::ids::{is_version_7, uuid_text};
use vstd::prelude::*;

pub mod check_in;
pub mod cycle;
pub mod daily_execution;
pub mod key_result;
pub mod objective;
pub mod project;
pub mod review;
pub mod task;

verus! {

/// Spec counterpart of a use case's result.
pub open spec fn result_view<E: View>(r: Result<E, AppError>) -> Result<E::V, AppErrorView> {
    match r {
        Ok(v) => Ok(v@),
        Err(e) => Err(e@),
    }
}

/// The error of the entity of kind `entity` with identifier `id` missing.
pub open spec fn missing(entity: Seq<char>, id: u128) -> AppErrorView {
    AppErrorView::NotFound { entity, id: uuid_text(id as int) }
}

/// What is stored under `id`, or the error of it missing.
pub open spec fn lookup<T>(model: Map<u128, T>, entity: Seq<char>, id: u128) -> Result<
    T,
    AppErrorView,
> {
    if model.contains_key(id) {
        Ok(model[id])
    } else {
        Err(missing(entity, id))
    }
}

/// A domain decision as the answer of a use case.
pub open spec fn decided<T>(d: Result<T, DomainErrorView>) -> Result<T, AppErrorView> {
    match d {
        Ok(v) => Ok(v),
        Err(e) => Err(AppErrorView::Domain(e)),
    }
}

/// `result` is `expected`, unless the store failed on the way.
pub open spec fn answers<T>(expected: Result<T, AppErrorView>, result: Result<T, AppErrorView>) -> bool {
    result == expected || (result matches Err(e) && store_failure(e))
}

/// A read of one stored entity: what is stored under `id`, or the error of it
/// missing, unless the store failed.
pub open spec fn reads_one<T>(
    model: Map<u128, T>,
    entity: Seq<char>,
    id: u128,
    result: Result<T, AppErrorView>,
) -> bool {
    answers(lookup(model, entity, id), result)
}

/// A use case that loads the entity stored under `id`, decides on it with
/// `decide`, and stores the decision: it answers the decision (or the error of
/// the entity missing) unless the store failed, a success is stored, and any
/// error leaves the store as it was.
pub open spec fn changes_one<T>(
    before: Map<u128, T>,
    after: Map<u128, T>,
    entity: Seq<char>,
    id: u128,
    result: Result<T, AppErrorView>,
    decide: spec_fn(T) -> Result<T, DomainErrorView>,
) -> bool {
    &&& answers(
        match lookup(before, entity, id) {
            Ok(v) => decided(decide(v)),
            Err(e) => Err(e),
        },
        result,
    )
    &&& result matches Ok(v) ==> after == before.insert(id, v)
    &&& result is Err ==> after == before
}

/// A listing under the entity stored under `id`: it fails when that entity is
/// missing, and otherwise only when the store fails.
pub open spec fn lists_under<T, U>(
    model: Map<u128, T>,
    entity: Seq<char>,
    id: u128,
    result: Result<U, AppErrorView>,
) -> bool {
    &&& !model.contains_key(id) ==> result is Err
    &&& result matches Err(e) ==> store_failure(e) || (!model.contains_key(id) && e == missing(
        entity,
        id,
    ))
}

/// The check `check` of what was found, or the error of finding it.
pub open spec fn then_check<T>(
    found: Result<T, AppErrorView>,
    check: spec_fn(T) -> Result<(), AppErrorView>,
) -> Result<(), AppErrorView> {
    match found {
        Ok(v) => check(v),
        Err(e) => Err(e),
    }
}

/// The refusal of a status change from the status with text `from` to the one
/// with text `to`.
pub open spec fn refusal(from: Seq<char>, to: Seq<char>) -> DomainErrorView {
    DomainErrorView::InvalidStatusTransition { from, to }
}

/// Whether the store already holds an entity under some identifier of the
/// kind that new entities get, so that a new one may clash with it.
pub open spec fn may_clash<T>(model: Map<u128, T>) -> bool {
    exists|id: u128| is_version_7(id) && #[trigger] model.contains_key(id)
}

/// A use case that checks what it read with `verdict` before it writes
/// anything: a refusal is its answer; an accepted check succeeds, unless the
/// store fails or (where `clash` allows it) the new entity's identifier is
/// already stored.
pub open spec fn guarded<T>(
    verdict: Result<(), AppErrorView>,
    clash: bool,
    result: Result<T, AppErrorView>,
) -> bool {
    match verdict {
        Ok(()) => result is Ok || (result matches Err(e) && (store_failure(e) || (clash
            && e is Conflict))),
        Err(v) => result == Err::<T, AppErrorView>(v) || (result matches Err(e) && store_failure(e)),
    }
}

} // verus!
