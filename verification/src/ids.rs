//! Identifiers of the domain's entities: 128-bit UUID values, version 7 when
//! freshly allocated, written in the hyphenated lowercase form.
use vstd::arithmetic::power2::pow2;
use vstd::prelude::*;

verus! {

/// Lowercase hexadecimal digit for a value below 16.
pub open spec fn hex_digit(n: int) -> char {
    if n < 10 {
        (48 + n) as char
    } else {
        (87 + n) as char
    }
}

/// Position of the `k`-th hexadecimal digit (0 is the most significant) in
/// the hyphenated form, which puts a hyphen after digits 8, 12, 16 and 20.
pub open spec fn digit_slot(i: int) -> int {
    if i < 8 {
        i
    } else if i < 13 {
        i - 1
    } else if i < 18 {
        i - 2
    } else if i < 23 {
        i - 3
    } else {
        i - 4
    }
}

/// The hyphenated lowercase text of a UUID value, `xxxxxxxx-xxxx-xxxx-xxxx-xxxxxxxxxxxx`.
pub open spec fn uuid_text(value: int) -> Seq<char> {
    Seq::new(
        36,
        |i: int|
            if i == 8 || i == 13 || i == 18 || i == 23 {
                '-'
            } else {
                hex_digit((value / pow2((4 * (31 - digit_slot(i))) as nat) as int) % 16)
            },
    )
}

/// The value that `uuid::Uuid::parse_str` reads from a text, or `None` where it
/// rejects the text.
pub uninterp spec fn uuid_parse(text: Seq<char>) -> Option<u128>;

/// Whether a UUID value carries version 7 in its version field (bits 76 to 79).
pub open spec fn is_version_7(value: u128) -> bool {
    (value as int / pow2(76) as int) % 16 == 7
}

/// Calls `uuid::Uuid::now_v7`, which builds a version 7 UUID from the clock
/// and random bits. Nothing else is promised of the value.
#[verifier::external_body]
fn fresh_uuid() -> (r: u128)
    ensures
        is_version_7(r),
{
    uuid::Uuid::now_v7().as_u128()
}

/// Calls the `Display` impl of `uuid::Uuid`, which writes the hyphenated
/// lowercase form; `uuid::Uuid::parse_str` reads that form back.
#[verifier::external_body]
fn uuid_string(value: u128) -> (r: String)
    ensures
        r@ == uuid_text(value as int),
        uuid_parse(r@) == Some(value),
{
    uuid::Uuid::from_u128(value).to_string()
}

/// Calls `uuid::Uuid::parse_str`; an error is turned into its message.
#[verifier::external_body]
pub(crate) fn parse_uuid(text: &str) -> (r: Result<u128, String>)
    ensures
        r is Ok <==> uuid_parse(text@) is Some,
        r matches Ok(v) ==> uuid_parse(text@) == Some(v),
{
    match uuid::Uuid::parse_str(text) {
        Ok(u) => Ok(u.as_u128()),
        Err(e) => Err(e.to_string()),
    }
}

/// A text that is not a UUID.
#[derive(Debug, Clone, PartialEq, Eq)]
pub struct ParseIdError {
    pub message: String,
}

impl ParseIdError {
    /// Why the text was refused.
    pub fn to_string(&self) -> (r: String)
        ensures
            r@ == self.message@,
    {
        self.message.clone()
    }
}

/// Identifier of a cycle.
#[derive(Clone, Copy, Debug, PartialEq, Eq, Hash, Structural)]
pub struct CycleId {
    value: u128,
}

impl View for CycleId {
    type V = u128;

    closed spec fn view(&self) -> u128 {
        self.value
    }
}

impl CycleId {
    /// Allocate a fresh version 7 identifier.
    #[allow(clippy::new_without_default)]
    pub fn new() -> (r: Self)
        ensures
            is_version_7(r@),
    {
        CycleId { value: fresh_uuid() }
    }

    pub fn from_uuid(value: u128) -> (r: Self)
        ensures
            r@ == value,
    {
        CycleId { value }
    }

    pub fn as_uuid(self) -> (r: u128)
        ensures
            r == self@,
    {
        self.value
    }

    /// The hyphenated lowercase text of the identifier.
    pub fn to_string(&self) -> (r: String)
        ensures
            r@ == uuid_text(self@ as int),
            uuid_parse(r@) == Some(self@),
    {
        uuid_string(self.value)
    }

    /// Read an identifier from any text form that `uuid` accepts.
    pub fn parse(text: &str) -> (r: Result<Self, ParseIdError>)
        ensures
            r is Ok <==> uuid_parse(text@) is Some,
            r matches Ok(id) ==> uuid_parse(text@) == Some(id@),
    {
        match parse_uuid(text) {
            Ok(value) => Ok(CycleId { value }),
            Err(message) => Err(ParseIdError { message }),
        }
    }
}

impl core::str::FromStr for CycleId {
    type Err = ParseIdError;

    fn from_str(text: &str) -> (r: Result<Self, Self::Err>)
        ensures
            r is Ok <==> uuid_parse(text@) is Some,
            r matches Ok(id) ==> uuid_parse(text@) == Some(id@),
    {
        CycleId::parse(text)
    }
}

/// Identifier of an objective.
#[derive(Clone, Copy, Debug, PartialEq, Eq, Hash, Structural)]
pub struct ObjectiveId {
    value: u128,
}

impl View for ObjectiveId {
    type V = u128;

    closed spec fn view(&self) -> u128 {
        self.value
    }
}

impl ObjectiveId {
    /// Allocate a fresh version 7 identifier.
    #[allow(clippy::new_without_default)]
    pub fn new() -> (r: Self)
        ensures
            is_version_7(r@),
    {
        ObjectiveId { value: fresh_uuid() }
    }

    pub fn from_uuid(value: u128) -> (r: Self)
        ensures
            r@ == value,
    {
        ObjectiveId { value }
    }

    pub fn as_uuid(self) -> (r: u128)
        ensures
            r == self@,
    {
        self.value
    }

    /// The hyphenated lowercase text of the identifier.
    pub fn to_string(&self) -> (r: String)
        ensures
            r@ == uuid_text(self@ as int),
            uuid_parse(r@) == Some(self@),
    {
        uuid_string(self.value)
    }

    /// Read an identifier from any text form that `uuid` accepts.
    pub fn parse(text: &str) -> (r: Result<Self, ParseIdError>)
        ensures
            r is Ok <==> uuid_parse(text@) is Some,
            r matches Ok(id) ==> uuid_parse(text@) == Some(id@),
    {
        match parse_uuid(text) {
            Ok(value) => Ok(ObjectiveId { value }),
            Err(message) => Err(ParseIdError { message }),
        }
    }
}

impl core::str::FromStr for ObjectiveId {
    type Err = ParseIdError;

    fn from_str(text: &str) -> (r: Result<Self, Self::Err>)
        ensures
            r is Ok <==> uuid_parse(text@) is Some,
            r matches Ok(id) ==> uuid_parse(text@) == Some(id@),
    {
        ObjectiveId::parse(text)
    }
}

/// Identifier of a key result.
#[derive(Clone, Copy, Debug, PartialEq, Eq, Hash, Structural)]
pub struct KeyResultId {
    value: u128,
}

impl View for KeyResultId {
    type V = u128;

    closed spec fn view(&self) -> u128 {
        self.value
    }
}

impl KeyResultId {
    /// Allocate a fresh version 7 identifier.
    #[allow(clippy::new_without_default)]
    pub fn new() -> (r: Self)
        ensures
            is_version_7(r@),
    {
        KeyResultId { value: fresh_uuid() }
    }

    pub fn from_uuid(value: u128) -> (r: Self)
        ensures
            r@ == value,
    {
        KeyResultId { value }
    }

    pub fn as_uuid(self) -> (r: u128)
        ensures
            r == self@,
    {
        self.value
    }

    /// The hyphenated lowercase text of the identifier.
    pub fn to_string(&self) -> (r: String)
        ensures
            r@ == uuid_text(self@ as int),
            uuid_parse(r@) == Some(self@),
    {
        uuid_string(self.value)
    }

    /// Read an identifier from any text form that `uuid` accepts.
    pub fn parse(text: &str) -> (r: Result<Self, ParseIdError>)
        ensures
            r is Ok <==> uuid_parse(text@) is Some,
            r matches Ok(id) ==> uuid_parse(text@) == Some(id@),
    {
        match parse_uuid(text) {
            Ok(value) => Ok(KeyResultId { value }),
            Err(message) => Err(ParseIdError { message }),
        }
    }
}

impl core::str::FromStr for KeyResultId {
    type Err = ParseIdError;

    fn from_str(text: &str) -> (r: Result<Self, Self::Err>)
        ensures
            r is Ok <==> uuid_parse(text@) is Some,
            r matches Ok(id) ==> uuid_parse(text@) == Some(id@),
    {
        KeyResultId::parse(text)
    }
}

/// Identifier of a check-in.
#[derive(Clone, Copy, Debug, PartialEq, Eq, Hash, Structural)]
pub struct CheckInId {
    value: u128,
}

impl View for CheckInId {
    type V = u128;

    closed spec fn view(&self) -> u128 {
        self.value
    }
}

impl CheckInId {
    /// Allocate a fresh version 7 identifier.
    #[allow(clippy::new_without_default)]
    pub fn new() -> (r: Self)
        ensures
            is_version_7(r@),
    {
        CheckInId { value: fresh_uuid() }
    }

    pub fn from_uuid(value: u128) -> (r: Self)
        ensures
            r@ == value,
    {
        CheckInId { value }
    }

    pub fn as_uuid(self) -> (r: u128)
        ensures
            r == self@,
    {
        self.value
    }

    /// The hyphenated lowercase text of the identifier.
    pub fn to_string(&self) -> (r: String)
        ensures
            r@ == uuid_text(self@ as int),
            uuid_parse(r@) == Some(self@),
    {
        uuid_string(self.value)
    }

    /// Read an identifier from any text form that `uuid` accepts.
    pub fn parse(text: &str) -> (r: Result<Self, ParseIdError>)
        ensures
            r is Ok <==> uuid_parse(text@) is Some,
            r matches Ok(id) ==> uuid_parse(text@) == Some(id@),
    {
        match parse_uuid(text) {
            Ok(value) => Ok(CheckInId { value }),
            Err(message) => Err(ParseIdError { message }),
        }
    }
}

impl core::str::FromStr for CheckInId {
    type Err = ParseIdError;

    fn from_str(text: &str) -> (r: Result<Self, Self::Err>)
        ensures
            r is Ok <==> uuid_parse(text@) is Some,
            r matches Ok(id) ==> uuid_parse(text@) == Some(id@),
    {
        CheckInId::parse(text)
    }
}

/// Identifier of a project.
#[derive(Clone, Copy, Debug, PartialEq, Eq, Hash, Structural)]
pub struct ProjectId {
    value: u128,
}

impl View for ProjectId {
    type V = u128;

    closed spec fn view(&self) -> u128 {
        self.value
    }
}

impl ProjectId {
    /// Allocate a fresh version 7 identifier.
    #[allow(clippy::new_without_default)]
    pub fn new() -> (r: Self)
        ensures
            is_version_7(r@),
    {
        ProjectId { value: fresh_uuid() }
    }

    pub fn from_uuid(value: u128) -> (r: Self)
        ensures
            r@ == value,
    {
        ProjectId { value }
    }

    pub fn as_uuid(self) -> (r: u128)
        ensures
            r == self@,
    {
        self.value
    }

    /// The hyphenated lowercase text of the identifier.
    pub fn to_string(&self) -> (r: String)
        ensures
            r@ == uuid_text(self@ as int),
            uuid_parse(r@) == Some(self@),
    {
        uuid_string(self.value)
    }

    /// Read an identifier from any text form that `uuid` accepts.
    pub fn parse(text: &str) -> (r: Result<Self, ParseIdError>)
        ensures
            r is Ok <==> uuid_parse(text@) is Some,
            r matches Ok(id) ==> uuid_parse(text@) == Some(id@),
    {
        match parse_uuid(text) {
            Ok(value) => Ok(ProjectId { value }),
            Err(message) => Err(ParseIdError { message }),
        }
    }
}

impl core::str::FromStr for ProjectId {
    type Err = ParseIdError;

    fn from_str(text: &str) -> (r: Result<Self, Self::Err>)
        ensures
            r is Ok <==> uuid_parse(text@) is Some,
            r matches Ok(id) ==> uuid_parse(text@) == Some(id@),
    {
        ProjectId::parse(text)
    }
}

/// Identifier of a task.
#[derive(Clone, Copy, Debug, PartialEq, Eq, Hash, Structural)]
pub struct TaskId {
    value: u128,
}

impl View for TaskId {
    type V = u128;

    closed spec fn view(&self) -> u128 {
        self.value
    }
}

impl TaskId {
    /// Allocate a fresh version 7 identifier.
    #[allow(clippy::new_without_default)]
    pub fn new() -> (r: Self)
        ensures
            is_version_7(r@),
    {
        TaskId { value: fresh_uuid() }
    }

    pub fn from_uuid(value: u128) -> (r: Self)
        ensures
            r@ == value,
    {
        TaskId { value }
    }

    pub fn as_uuid(self) -> (r: u128)
        ensures
            r == self@,
    {
        self.value
    }

    /// The hyphenated lowercase text of the identifier.
    pub fn to_string(&self) -> (r: String)
        ensures
            r@ == uuid_text(self@ as int),
            uuid_parse(r@) == Some(self@),
    {
        uuid_string(self.value)
    }

    /// Read an identifier from any text form that `uuid` accepts.
    pub fn parse(text: &str) -> (r: Result<Self, ParseIdError>)
        ensures
            r is Ok <==> uuid_parse(text@) is Some,
            r matches Ok(id) ==> uuid_parse(text@) == Some(id@),
    {
        match parse_uuid(text) {
            Ok(value) => Ok(TaskId { value }),
            Err(message) => Err(ParseIdError { message }),
        }
    }
}

impl core::str::FromStr for TaskId {
    type Err = ParseIdError;

    fn from_str(text: &str) -> (r: Result<Self, Self::Err>)
        ensures
            r is Ok <==> uuid_parse(text@) is Some,
            r matches Ok(id) ==> uuid_parse(text@) == Some(id@),
    {
        TaskId::parse(text)
    }
}

/// Identifier of a daily execution.
#[derive(Clone, Copy, Debug, PartialEq, Eq, Hash, Structural)]
pub struct DailyExecutionId {
    value: u128,
}

impl View for DailyExecutionId {
    type V = u128;

    closed spec fn view(&self) -> u128 {
        self.value
    }
}

impl DailyExecutionId {
    /// Allocate a fresh version 7 identifier.
    #[allow(clippy::new_without_default)]
    pub fn new() -> (r: Self)
        ensures
            is_version_7(r@),
    {
        DailyExecutionId { value: fresh_uuid() }
    }

    pub fn from_uuid(value: u128) -> (r: Self)
        ensures
            r@ == value,
    {
        DailyExecutionId { value }
    }

    pub fn as_uuid(self) -> (r: u128)
        ensures
            r == self@,
    {
        self.value
    }

    /// The hyphenated lowercase text of the identifier.
    pub fn to_string(&self) -> (r: String)
        ensures
            r@ == uuid_text(self@ as int),
            uuid_parse(r@) == Some(self@),
    {
        uuid_string(self.value)
    }

    /// Read an identifier from any text form that `uuid` accepts.
    pub fn parse(text: &str) -> (r: Result<Self, ParseIdError>)
        ensures
            r is Ok <==> uuid_parse(text@) is Some,
            r matches Ok(id) ==> uuid_parse(text@) == Some(id@),
    {
        match parse_uuid(text) {
            Ok(value) => Ok(DailyExecutionId { value }),
            Err(message) => Err(ParseIdError { message }),
        }
    }
}

impl core::str::FromStr for DailyExecutionId {
    type Err = ParseIdError;

    fn from_str(text: &str) -> (r: Result<Self, Self::Err>)
        ensures
            r is Ok <==> uuid_parse(text@) is Some,
            r matches Ok(id) ==> uuid_parse(text@) == Some(id@),
    {
        DailyExecutionId::parse(text)
    }
}

/// Identifier of a review.
#[derive(Clone, Copy, Debug, PartialEq, Eq, Hash, Structural)]
pub struct ReviewId {
    value: u128,
}

impl View for ReviewId {
    type V = u128;

    closed spec fn view(&self) -> u128 {
        self.value
    }
}

impl ReviewId {
    /// Allocate a fresh version 7 identifier.
    #[allow(clippy::new_without_default)]
    pub fn new() -> (r: Self)
        ensures
            is_version_7(r@),
    {
        ReviewId { value: fresh_uuid() }
    }

    pub fn from_uuid(value: u128) -> (r: Self)
        ensures
            r@ == value,
    {
        ReviewId { value }
    }

    pub fn as_uuid(self) -> (r: u128)
        ensures
            r == self@,
    {
        self.value
    }

    /// The hyphenated lowercase text of the identifier.
    pub fn to_string(&self) -> (r: String)
        ensures
            r@ == uuid_text(self@ as int),
            uuid_parse(r@) == Some(self@),
    {
        uuid_string(self.value)
    }

    /// Read an identifier from any text form that `uuid` accepts.
    pub fn parse(text: &str) -> (r: Result<Self, ParseIdError>)
        ensures
            r is Ok <==> uuid_parse(text@) is Some,
            r matches Ok(id) ==> uuid_parse(text@) == Some(id@),
    {
        match parse_uuid(text) {
            Ok(value) => Ok(ReviewId { value }),
            Err(message) => Err(ParseIdError { message }),
        }
    }
}

impl core::str::FromStr for ReviewId {
    type Err = ParseIdError;

    fn from_str(text: &str) -> (r: Result<Self, Self::Err>)
        ensures
            r is Ok <==> uuid_parse(text@) is Some,
            r matches Ok(id) ==> uuid_parse(text@) == Some(id@),
    {
        ReviewId::parse(text)
    }
}

} // verus!
