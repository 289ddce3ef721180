//! How a key result measures progress, and the states of a milestone.
//!
//! Measured values are of a type `V` chosen by the caller; the rules here only
//! look at which values are present, never at their size.
use crate::error::DomainError;
use crate::text::{empty_to_none, opt_non_blank, opt_text, str_eq};
use vstd::prelude::*;

verus! {

/// The way a key result measures its progress.
#[derive(Clone, Copy, Debug, PartialEq, Eq, Hash, Structural)]
pub enum ProgressKind {
    Numeric,
    Percentage,
    Milestone,
    Qualitative,
}
impl ProgressKind {
    /// The wire text of the kind.
    pub open spec fn text(self) -> Seq<char> {
        match self {
            ProgressKind::Numeric => "numeric"@,
            ProgressKind::Percentage => "percentage"@,
            ProgressKind::Milestone => "milestone"@,
            ProgressKind::Qualitative => "qualitative"@,
        }
    }

    /// What parsing `s` gives: the kind whose text it is, or an error
    /// holding `s`.
    pub open spec fn parses_to(s: Seq<char>, r: Result<ProgressKind, DomainError>) -> bool {
        match r {
            Ok(x) => x.text() == s,
            Err(e) => (forall|x: ProgressKind| #[trigger] x.text() != s) && (e matches DomainError::UnknownProgressKind(m)
                && m@ == s),
        }
    }

    pub fn as_str(self) -> (r: &'static str)
        ensures
            r@ == self.text(),
    {
        match self {
            ProgressKind::Numeric => "numeric",
            ProgressKind::Percentage => "percentage",
            ProgressKind::Milestone => "milestone",
            ProgressKind::Qualitative => "qualitative",
        }
    }

    /// Read a kind from its wire text.
    pub fn parse(s: &str) -> (r: Result<ProgressKind, DomainError>)
        ensures
            ProgressKind::parses_to(s@, r),
    {
        proof {
            progress_kind_texts_distinct();
        }
        if str_eq(s, "numeric") {
            return Ok(ProgressKind::Numeric);
        }
        if str_eq(s, "percentage") {
            return Ok(ProgressKind::Percentage);
        }
        if str_eq(s, "milestone") {
            return Ok(ProgressKind::Milestone);
        }
        if str_eq(s, "qualitative") {
            return Ok(ProgressKind::Qualitative);
        }
        Err(DomainError::UnknownProgressKind(s.to_owned()))
    }
}

proof fn progress_kind_texts_distinct()
    ensures
        forall|x: ProgressKind, y: ProgressKind| x.text() == y.text() ==> x == y,
{
    reveal_strlit("numeric");
    reveal_strlit("percentage");
    reveal_strlit("milestone");
    reveal_strlit("qualitative");
    assert forall|x: ProgressKind, y: ProgressKind| x.text() == y.text() implies x == y by {
        if x != y {
            assert(x.text().len() != y.text().len() || x.text()[0] != y.text()[0]);
        }
    }
}

/// Parsing the wire text of a key result's progress kind gives that kind back.
pub proof fn progress_kind_round_trip(x: ProgressKind, r: Result<ProgressKind, DomainError>)
    requires
        ProgressKind::parses_to(x.text(), r),
    ensures
        r == Ok::<ProgressKind, DomainError>(x),
{
    progress_kind_texts_distinct();
}

impl core::str::FromStr for ProgressKind {
    type Err = DomainError;

    fn from_str(s: &str) -> (r: Result<Self, Self::Err>)
        ensures
            ProgressKind::parses_to(s@, r),
    {
        ProgressKind::parse(s)
    }
}

/// How far a milestone has come.
#[derive(Clone, Copy, Debug, PartialEq, Eq, Hash, Structural)]
pub enum MilestoneState {
    NotStarted,
    InProgress,
    Achieved,
}
impl MilestoneState {
    /// The wire text of the state.
    pub open spec fn text(self) -> Seq<char> {
        match self {
            MilestoneState::NotStarted => "not_started"@,
            MilestoneState::InProgress => "in_progress"@,
            MilestoneState::Achieved => "achieved"@,
        }
    }

    /// What parsing `s` gives: the state whose text it is, or an error
    /// holding `s`.
    pub open spec fn parses_to(s: Seq<char>, r: Result<MilestoneState, DomainError>) -> bool {
        match r {
            Ok(x) => x.text() == s,
            Err(e) => (forall|x: MilestoneState| #[trigger] x.text() != s) && (e matches DomainError::UnknownMilestoneState(m)
                && m@ == s),
        }
    }

    pub fn as_str(self) -> (r: &'static str)
        ensures
            r@ == self.text(),
    {
        match self {
            MilestoneState::NotStarted => "not_started",
            MilestoneState::InProgress => "in_progress",
            MilestoneState::Achieved => "achieved",
        }
    }

    /// Read a state from its wire text.
    pub fn parse(s: &str) -> (r: Result<MilestoneState, DomainError>)
        ensures
            MilestoneState::parses_to(s@, r),
    {
        proof {
            milestone_state_texts_distinct();
        }
        if str_eq(s, "not_started") {
            return Ok(MilestoneState::NotStarted);
        }
        if str_eq(s, "in_progress") {
            return Ok(MilestoneState::InProgress);
        }
        if str_eq(s, "achieved") {
            return Ok(MilestoneState::Achieved);
        }
        Err(DomainError::UnknownMilestoneState(s.to_owned()))
    }
}

proof fn milestone_state_texts_distinct()
    ensures
        forall|x: MilestoneState, y: MilestoneState| x.text() == y.text() ==> x == y,
{
    reveal_strlit("not_started");
    reveal_strlit("in_progress");
    reveal_strlit("achieved");
    assert forall|x: MilestoneState, y: MilestoneState| x.text() == y.text() implies x == y by {
        if x != y {
            assert(x.text().len() != y.text().len() || x.text()[0] != y.text()[0]);
        }
    }
}

/// Parsing the wire text of a milestone's progress state gives that state back.
pub proof fn milestone_state_round_trip(x: MilestoneState, r: Result<MilestoneState, DomainError>)
    requires
        MilestoneState::parses_to(x.text(), r),
    ensures
        r == Ok::<MilestoneState, DomainError>(x),
{
    milestone_state_texts_distinct();
}

impl core::str::FromStr for MilestoneState {
    type Err = DomainError;

    fn from_str(s: &str) -> (r: Result<Self, Self::Err>)
        ensures
            MilestoneState::parses_to(s@, r),
    {
        MilestoneState::parse(s)
    }
}

/// The measurement that a key result is defined by.
#[derive(Debug, Clone, PartialEq)]
pub enum ProgressDefinition<V> {
    Numeric { start_value: V, target_value: Option<V>, unit: Option<String> },
    Percentage { start_value: V, target_value: V },
    Milestone,
    Qualitative,
}

/// Spec counterpart of `ProgressDefinition`, with the unit as text.
pub enum DefinitionView<V> {
    Numeric { start_value: V, target_value: Option<V>, unit: Option<Seq<char>> },
    Percentage { start_value: V, target_value: V },
    Milestone,
    Qualitative,
}

impl<V> View for ProgressDefinition<V> {
    type V = DefinitionView<V>;

    open spec fn view(&self) -> DefinitionView<V> {
        match self {
            ProgressDefinition::Numeric { start_value, target_value, unit } => DefinitionView::Numeric {
                start_value: *start_value,
                target_value: *target_value,
                unit: opt_text(*unit),
            },
            ProgressDefinition::Percentage { start_value, target_value } => DefinitionView::Percentage {
                start_value: *start_value,
                target_value: *target_value,
            },
            ProgressDefinition::Milestone => DefinitionView::Milestone,
            ProgressDefinition::Qualitative => DefinitionView::Qualitative,
        }
    }
}

impl<V> DefinitionView<V> {
    pub open spec fn kind(self) -> ProgressKind {
        match self {
            DefinitionView::Numeric { .. } => ProgressKind::Numeric,
            DefinitionView::Percentage { .. } => ProgressKind::Percentage,
            DefinitionView::Milestone => ProgressKind::Milestone,
            DefinitionView::Qualitative => ProgressKind::Qualitative,
        }
    }

    pub open spec fn start_value(self) -> Option<V> {
        match self {
            DefinitionView::Numeric { start_value, .. } => Some(start_value),
            DefinitionView::Percentage { start_value, .. } => Some(start_value),
            _ => None,
        }
    }

    pub open spec fn target_value(self) -> Option<V> {
        match self {
            DefinitionView::Numeric { target_value, .. } => target_value,
            DefinitionView::Percentage { target_value, .. } => Some(target_value),
            _ => None,
        }
    }

    pub open spec fn unit(self) -> Option<Seq<char>> {
        match self {
            DefinitionView::Numeric { unit, .. } => unit,
            _ => None,
        }
    }
}

/// What `ProgressDefinition::parse` makes of its input: the definition, or the
/// reason it refuses them. `unit` is the unit after trimming, `None` when blank.
pub open spec fn definition_outcome<V>(
    kind: ProgressKind,
    start_value: Option<V>,
    target_value: Option<V>,
    unit: Option<Seq<char>>,
) -> Result<DefinitionView<V>, Seq<char>> {
    match kind {
        ProgressKind::Numeric => match start_value {
            None => Err("start_value is required"@),
            Some(s) => Ok(DefinitionView::Numeric { start_value: s, target_value, unit }),
        },
        ProgressKind::Percentage => match (start_value, target_value) {
            (None, _) => Err("start_value is required"@),
            (Some(_), None) => Err("target_value is required"@),
            (Some(s), Some(t)) => if unit is Some {
                Err("unit is not used"@)
            } else {
                Ok(DefinitionView::Percentage { start_value: s, target_value: t })
            },
        },
        ProgressKind::Milestone => if start_value is Some || target_value is Some || unit is Some {
            Err("numeric fields are not used"@)
        } else {
            Ok(DefinitionView::Milestone)
        },
        ProgressKind::Qualitative => if start_value is Some || target_value is Some || unit is Some {
            Err("numeric fields are not used"@)
        } else {
            Ok(DefinitionView::Qualitative)
        },
    }
}

/// Whether a result of `ProgressDefinition::parse` matches the outcome above.
pub open spec fn definition_matches<V>(
    kind: ProgressKind,
    outcome: Result<DefinitionView<V>, Seq<char>>,
    r: Result<ProgressDefinition<V>, DomainError>,
) -> bool {
    match (outcome, r) {
        (Ok(v), Ok(d)) => d@ == v,
        (Err(reason), Err(e)) => e matches DomainError::InvalidProgressDefinition { kind: k, reason: m }
            && k@ == kind.text() && m@ == reason,
        _ => false,
    }
}

fn invalid_definition(kind: ProgressKind, reason: &'static str) -> (r: DomainError)
    ensures
        r matches DomainError::InvalidProgressDefinition { kind: k, reason: m } && k@ == kind.text()
            && m@ == reason@,
{
    DomainError::InvalidProgressDefinition { kind: kind.as_str(), reason }
}

impl<V: Copy> ProgressDefinition<V> {
    /// Check that the supplied fields fit the kind and build the definition.
    /// A blank unit counts as no unit.
    pub fn parse(
        kind: ProgressKind,
        start_value: Option<V>,
        target_value: Option<V>,
        unit: Option<String>,
    ) -> (r: Result<Self, DomainError>)
        ensures
            definition_matches(
                kind,
                definition_outcome(kind, start_value, target_value, opt_non_blank(opt_text(unit))),
                r,
            ),
    {
        let unit = empty_to_none(unit);
        match kind {
            ProgressKind::Numeric => match start_value {
                None => Err(invalid_definition(kind, "start_value is required")),
                Some(s) => Ok(ProgressDefinition::Numeric { start_value: s, target_value, unit }),
            },
            ProgressKind::Percentage => match start_value {
                None => Err(invalid_definition(kind, "start_value is required")),
                Some(s) => match target_value {
                    None => Err(invalid_definition(kind, "target_value is required")),
                    Some(t) => {
                        if unit.is_some() {
                            Err(invalid_definition(kind, "unit is not used"))
                        } else {
                            Ok(ProgressDefinition::Percentage { start_value: s, target_value: t })
                        }
                    },
                },
            },
            ProgressKind::Milestone => {
                if start_value.is_some() || target_value.is_some() || unit.is_some() {
                    Err(invalid_definition(kind, "numeric fields are not used"))
                } else {
                    Ok(ProgressDefinition::Milestone)
                }
            },
            ProgressKind::Qualitative => {
                if start_value.is_some() || target_value.is_some() || unit.is_some() {
                    Err(invalid_definition(kind, "numeric fields are not used"))
                } else {
                    Ok(ProgressDefinition::Qualitative)
                }
            },
        }
    }

    pub fn kind(&self) -> (r: ProgressKind)
        ensures
            r == self@.kind(),
    {
        match self {
            ProgressDefinition::Numeric { .. } => ProgressKind::Numeric,
            ProgressDefinition::Percentage { .. } => ProgressKind::Percentage,
            ProgressDefinition::Milestone => ProgressKind::Milestone,
            ProgressDefinition::Qualitative => ProgressKind::Qualitative,
        }
    }

    pub fn start_value(&self) -> (r: Option<V>)
        ensures
            r == self@.start_value(),
    {
        match self {
            ProgressDefinition::Numeric { start_value, .. } => Some(*start_value),
            ProgressDefinition::Percentage { start_value, .. } => Some(*start_value),
            _ => None,
        }
    }

    pub fn target_value(&self) -> (r: Option<V>)
        ensures
            r == self@.target_value(),
    {
        match self {
            ProgressDefinition::Numeric { target_value, .. } => *target_value,
            ProgressDefinition::Percentage { target_value, .. } => Some(*target_value),
            _ => None,
        }
    }

    pub fn unit(&self) -> (r: Option<&str>)
        ensures
            match r {
                Some(u) => self@.unit() == Some(u@),
                None => self@.unit() is None,
            },
    {
        match self {
            ProgressDefinition::Numeric { unit, .. } => match unit {
                Some(u) => Some(u.as_str()),
                None => None,
            },
            _ => None,
        }
    }
}

} // verus!
