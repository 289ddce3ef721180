//! A check-in: one recorded reading of a key result's progress.
use crate::calendar::{Date, Timestamp};
use crate::error::DomainError;
use crate::ids::{is_version_7, CheckInId, KeyResultId};
use crate::progress::{MilestoneState, ProgressKind};
use crate::text::{empty_to_none, opt_non_blank, opt_text};
use vstd::prelude::*;

verus! {

/// Spec counterpart of a `CheckIn`.
pub struct CheckInView<V> {
    pub id: u128,
    pub key_result_id: u128,
    pub value: Option<V>,
    pub state: Option<MilestoneState>,
    pub note: Option<Seq<char>>,
    pub checked_on: int,
    pub created_at: int,
    pub updated_at: int,
}

#[derive(Debug, Clone, PartialEq)]
pub struct CheckIn<V> {
    id: CheckInId,
    key_result_id: KeyResultId,
    value: Option<V>,
    state: Option<MilestoneState>,
    note: Option<String>,
    checked_on: Date,
    created_at: Timestamp,
    updated_at: Timestamp,
}

impl<V> View for CheckIn<V> {
    type V = CheckInView<V>;

    closed spec fn view(&self) -> CheckInView<V> {
        CheckInView {
            id: self.id@,
            key_result_id: self.key_result_id@,
            value: self.value,
            state: self.state,
            note: opt_text(self.note),
            checked_on: self.checked_on@,
            created_at: self.created_at@,
            updated_at: self.updated_at@,
        }
    }
}

/// Why a check-in payload does not fit a key result of the given kind, if it
/// does not: numeric and percentage readings carry a value and no state,
/// milestone readings a state and no value, qualitative readings a note and
/// nothing else. `note` is the note after trimming.
pub open spec fn payload_problem(
    kind: ProgressKind,
    has_value: bool,
    has_state: bool,
    note: Option<Seq<char>>,
) -> Option<Seq<char>> {
    match kind {
        ProgressKind::Numeric | ProgressKind::Percentage => if !has_value {
            Some("value is required"@)
        } else if has_state {
            Some("state is not used"@)
        } else {
            None
        },
        ProgressKind::Milestone => if !has_state {
            Some("state is required"@)
        } else if has_value {
            Some("value is not used"@)
        } else {
            None
        },
        ProgressKind::Qualitative => if note is None {
            Some("note is required"@)
        } else if has_value || has_state {
            Some("value and state are not used"@)
        } else {
            None
        },
    }
}

/// Whether `a` was taken after `b`: by day, then by creation instant, then by
/// identifier.
pub open spec fn taken_after<V>(a: CheckInView<V>, b: CheckInView<V>) -> bool {
    ||| a.checked_on > b.checked_on
    ||| a.checked_on == b.checked_on && a.created_at > b.created_at
    ||| a.checked_on == b.checked_on && a.created_at == b.created_at && a.id > b.id
}

/// `s[i]` is the latest reading of `s`: none is taken after it, and every
/// later position holds one taken before it.
pub open spec fn is_latest_at<V>(s: Seq<CheckIn<V>>, i: int) -> bool {
    &&& 0 <= i < s.len()
    &&& forall|j: int| 0 <= j < s.len() ==> !taken_after(#[trigger] s[j]@, s[i]@)
    &&& forall|j: int| i < j < s.len() ==> taken_after(s[i]@, #[trigger] s[j]@)
}

fn invalid_payload(kind: ProgressKind, reason: &'static str) -> (r: DomainError)
    ensures
        r matches DomainError::InvalidCheckInPayload { kind: k, reason: m } && k@ == kind.text()
            && m@ == reason@,
{
    DomainError::InvalidCheckInPayload { kind: kind.as_str(), reason }
}

impl<V: Copy> CheckIn<V> {
    /// A new check-in on a key result of the given kind, whose payload must fit
    /// the kind. A blank note counts as none.
    pub fn create(
        key_result_id: KeyResultId,
        kind: ProgressKind,
        value: Option<V>,
        state: Option<MilestoneState>,
        note: Option<String>,
        checked_on: Date,
        now: Timestamp,
    ) -> (r: Result<CheckIn<V>, DomainError>)
        ensures
            ({
                let problem = payload_problem(
                    kind,
                    value is Some,
                    state is Some,
                    opt_non_blank(opt_text(note)),
                );
                &&& r is Ok <==> problem is None
                &&& problem matches Some(reason) ==> (r matches Err(
                    DomainError::InvalidCheckInPayload { kind: k, reason: m },
                ) && k@ == kind.text() && m@ == reason)
            }),
            r matches Ok(c) ==> is_version_7(c@.id) && c@ == (CheckInView {
                id: c@.id,
                key_result_id: key_result_id@,
                value,
                state,
                note: opt_non_blank(opt_text(note)),
                checked_on: checked_on@,
                created_at: now@,
                updated_at: now@,
            }),
    {
        let note = empty_to_none(note);
        match kind {
            ProgressKind::Numeric | ProgressKind::Percentage => {
                if value.is_none() {
                    return Err(invalid_payload(kind, "value is required"));
                }
                if state.is_some() {
                    return Err(invalid_payload(kind, "state is not used"));
                }
            },
            ProgressKind::Milestone => {
                if state.is_none() {
                    return Err(invalid_payload(kind, "state is required"));
                }
                if value.is_some() {
                    return Err(invalid_payload(kind, "value is not used"));
                }
            },
            ProgressKind::Qualitative => {
                if note.is_none() {
                    return Err(invalid_payload(kind, "note is required"));
                }
                if value.is_some() || state.is_some() {
                    return Err(invalid_payload(kind, "value and state are not used"));
                }
            },
        }
        Ok(
            CheckIn {
                id: CheckInId::new(),
                key_result_id,
                value,
                state,
                note,
                checked_on,
                created_at: now,
                updated_at: now,
            },
        )
    }

    /// A check-in rebuilt from stored fields, as they are.
    pub fn reconstitute(
        id: CheckInId,
        key_result_id: KeyResultId,
        value: Option<V>,
        state: Option<MilestoneState>,
        note: Option<String>,
        checked_on: Date,
        created_at: Timestamp,
        updated_at: Timestamp,
    ) -> (r: CheckIn<V>)
        ensures
            r@ == (CheckInView {
                id: id@,
                key_result_id: key_result_id@,
                value,
                state,
                note: opt_text(note),
                checked_on: checked_on@,
                created_at: created_at@,
                updated_at: updated_at@,
            }),
    {
        CheckIn { id, key_result_id, value, state, note, checked_on, created_at, updated_at }
    }

    pub fn id(&self) -> (r: CheckInId)
        ensures
            r@ == self@.id,
    {
        self.id
    }

    pub fn key_result_id(&self) -> (r: KeyResultId)
        ensures
            r@ == self@.key_result_id,
    {
        self.key_result_id
    }

    pub fn value(&self) -> (r: Option<V>)
        ensures
            r == self@.value,
    {
        self.value
    }

    pub fn state(&self) -> (r: Option<MilestoneState>)
        ensures
            r == self@.state,
    {
        self.state
    }

    pub fn note(&self) -> (r: Option<&str>)
        ensures
            match r {
                Some(n) => self@.note == Some(n@),
                None => self@.note is None,
            },
    {
        match &self.note {
            Some(n) => Some(n.as_str()),
            None => None,
        }
    }

    pub fn checked_on(&self) -> (r: Date)
        ensures
            r@ == self@.checked_on,
    {
        self.checked_on
    }

    pub fn created_at(&self) -> (r: Timestamp)
        ensures
            r@ == self@.created_at,
    {
        self.created_at
    }

    pub fn updated_at(&self) -> (r: Timestamp)
        ensures
            r@ == self@.updated_at,
    {
        self.updated_at
    }
}

fn is_taken_after<V: Copy>(a: &CheckIn<V>, b: &CheckIn<V>) -> (r: bool)
    ensures
        r == taken_after(a@, b@),
{
    let (ad, bd) = (a.checked_on(), b.checked_on());
    if ad.is_before(&bd) {
        return false;
    }
    if bd.is_before(&ad) {
        return true;
    }
    let (at, bt) = (a.created_at().unix_nanos(), b.created_at().unix_nanos());
    if at != bt {
        return at > bt;
    }
    a.id().as_uuid() > b.id().as_uuid()
}

/// The latest check-in: by `checked_on`, then `created_at`, then identifier;
/// of equal ones, the last.
pub fn latest_check_in<V: Copy>(check_ins: &[CheckIn<V>]) -> (r: Option<&CheckIn<V>>)
    ensures
        r is Some <==> check_ins@.len() > 0,
        r matches Some(c) ==> exists|i: int| is_latest_at(check_ins@, i) && *c == check_ins@[i],
{
    if check_ins.len() == 0 {
        return None;
    }
    let mut best: usize = 0;
    let mut k: usize = 1;
    while k < check_ins.len()
        invariant
            0 <= best < k <= check_ins@.len(),
            forall|j: int| 0 <= j < k ==> !taken_after(#[trigger] check_ins@[j]@, check_ins@[best as int]@),
            forall|j: int| best < j < k ==> taken_after(check_ins@[best as int]@, #[trigger] check_ins@[j]@),
        decreases check_ins@.len() - k,
    {
        if !is_taken_after(&check_ins[best], &check_ins[k]) {
            best = k;
        }
        k = k + 1;
    }
    assert(is_latest_at(check_ins@, best as int));
    Some(&check_ins[best])
}

} // verus!
