//! A key result: a measurable result that evidences an objective.
use crate::calendar::Timestamp;
use crate::check_in::CheckIn;
use crate::error::{is_transition_error, DomainError};
use crate::ids::{is_version_7, KeyResultId, ObjectiveId};
use crate::progress::{DefinitionView, MilestoneState, ProgressDefinition, ProgressKind};
use crate::status::KeyResultStatus;
use crate::text::{empty_to_none, opt_non_blank, opt_text};
use crate::title::Title;
use vstd::prelude::*;

verus! {

/// Spec counterpart of a `KeyResult`.
pub struct KeyResultView<V> {
    pub id: u128,
    pub objective_id: u128,
    pub title: Seq<char>,
    pub description: Option<Seq<char>>,
    pub status: KeyResultStatus,
    pub definition: DefinitionView<V>,
    pub created_at: int,
    pub updated_at: int,
}

#[derive(Debug, Clone, PartialEq)]
pub struct KeyResult<V> {
    id: KeyResultId,
    objective_id: ObjectiveId,
    title: Title,
    description: Option<String>,
    status: KeyResultStatus,
    definition: ProgressDefinition<V>,
    created_at: Timestamp,
    updated_at: Timestamp,
}

impl<V> View for KeyResult<V> {
    type V = KeyResultView<V>;

    closed spec fn view(&self) -> KeyResultView<V> {
        KeyResultView {
            id: self.id@,
            objective_id: self.objective_id@,
            title: self.title@,
            description: opt_text(self.description),
            status: self.status,
            definition: self.definition@,
            created_at: self.created_at@,
            updated_at: self.updated_at@,
        }
    }
}

impl<V> KeyResultView<V> {
    pub open spec fn with_status(self, status: KeyResultStatus, now: int) -> KeyResultView<V> {
        KeyResultView { status, updated_at: now, ..self }
    }

    /// Completed and archived key results accept no edits.
    pub open spec fn is_frozen(self) -> bool {
        self.status == KeyResultStatus::Completed || self.status == KeyResultStatus::Archived
    }

    /// The current reading: the latest check-in's value, or the start value
    /// while there is none; only numeric and percentage key results have one.
    pub open spec fn current_value(self, latest: Option<Option<V>>) -> Option<V> {
        match self.definition.start_value() {
            Some(start) => Some(
                match latest {
                    Some(Some(v)) => v,
                    _ => start,
                },
            ),
            None => None,
        }
    }

    /// The current milestone state: the latest check-in's state, or not
    /// started; only milestone key results have one.
    pub open spec fn current_state(self, latest: Option<Option<MilestoneState>>) -> Option<
        MilestoneState,
    > {
        if self.definition.kind() == ProgressKind::Milestone {
            Some(
                match latest {
                    Some(Some(s)) => s,
                    _ => MilestoneState::NotStarted,
                },
            )
        } else {
            None
        }
    }
}

/// The value of an optional latest check-in, as `current_value` reads it.
pub open spec fn latest_value<V>(latest: Option<CheckIn<V>>) -> Option<Option<V>> {
    match latest {
        Some(c) => Some(c@.value),
        None => None,
    }
}

/// The state of an optional latest check-in, as `current_state` reads it.
pub open spec fn latest_state<V>(latest: Option<CheckIn<V>>) -> Option<Option<MilestoneState>> {
    match latest {
        Some(c) => Some(c@.state),
        None => None,
    }
}

/// The owned form of an optional borrowed check-in, for specifications.
pub open spec fn deref_opt<V>(latest: Option<&CheckIn<V>>) -> Option<CheckIn<V>> {
    match latest {
        Some(c) => Some(*c),
        None => None,
    }
}

impl<V: Copy> KeyResult<V> {
    /// A new draft key result of an objective. A blank description counts as none.
    pub fn create(
        objective_id: ObjectiveId,
        title: Title,
        description: Option<String>,
        definition: ProgressDefinition<V>,
        now: Timestamp,
    ) -> (r: KeyResult<V>)
        ensures
            is_version_7(r@.id),
            r@ == (KeyResultView {
                id: r@.id,
                objective_id: objective_id@,
                title: title@,
                description: opt_non_blank(opt_text(description)),
                status: KeyResultStatus::Draft,
                definition: definition@,
                created_at: now@,
                updated_at: now@,
            }),
    {
        KeyResult {
            id: KeyResultId::new(),
            objective_id,
            title,
            description: empty_to_none(description),
            status: KeyResultStatus::Draft,
            definition,
            created_at: now,
            updated_at: now,
        }
    }

    /// A key result rebuilt from stored fields, as they are.
    pub fn reconstitute(
        id: KeyResultId,
        objective_id: ObjectiveId,
        title: Title,
        description: Option<String>,
        status: KeyResultStatus,
        definition: ProgressDefinition<V>,
        created_at: Timestamp,
        updated_at: Timestamp,
    ) -> (r: KeyResult<V>)
        ensures
            r@ == (KeyResultView {
                id: id@,
                objective_id: objective_id@,
                title: title@,
                description: opt_text(description),
                status,
                definition: definition@,
                created_at: created_at@,
                updated_at: updated_at@,
            }),
    {
        KeyResult {
            id,
            objective_id,
            title,
            description,
            status,
            definition,
            created_at,
            updated_at,
        }
    }

    /// Edit a key result that is neither completed nor archived; its progress
    /// kind cannot change.
    pub fn update(
        &mut self,
        title: Title,
        description: Option<String>,
        definition: ProgressDefinition<V>,
        now: Timestamp,
    ) -> (r: Result<(), DomainError>)
        ensures
            old(self)@.is_frozen() ==> (r matches Err(e) && is_transition_error(
                e,
                old(self)@.status.text(),
                old(self)@.status.text(),
            )),
            !old(self)@.is_frozen() && definition@.kind() != old(self)@.definition.kind() ==> r
                == Err::<(), DomainError>(DomainError::ProgressKindImmutable),
            r is Ok <==> !old(self)@.is_frozen() && definition@.kind()
                == old(self)@.definition.kind(),
            r is Ok ==> final(self)@ == (KeyResultView {
                title: title@,
                description: opt_non_blank(opt_text(description)),
                definition: definition@,
                updated_at: now@,
                ..old(self)@
            }),
            r is Err ==> final(self)@ == old(self)@,
    {
        if self.status == KeyResultStatus::Completed || self.status == KeyResultStatus::Archived {
            return Err(
                DomainError::InvalidStatusTransition {
                    from: self.status.as_str(),
                    to: self.status.as_str(),
                },
            );
        }
        if definition.kind() != self.definition.kind() {
            return Err(DomainError::ProgressKindImmutable);
        }
        self.title = title;
        self.description = empty_to_none(description);
        self.definition = definition;
        self.updated_at = now;
        Ok(())
    }

    /// Draft becomes active.
    pub fn activate(&mut self, now: Timestamp) -> (r: Result<(), DomainError>)
        ensures
            r is Ok <==> old(self)@.status == KeyResultStatus::Draft,
            r is Ok ==> final(self)@ == old(self)@.with_status(KeyResultStatus::Active, now@),
            r matches Err(e) ==> is_transition_error(e, old(self)@.status.text(), "active"@)
                && final(self)@ == old(self)@,
    {
        if self.status != KeyResultStatus::Draft {
            return Err(
                DomainError::InvalidStatusTransition {
                    from: self.status.as_str(),
                    to: KeyResultStatus::Active.as_str(),
                },
            );
        }
        self.status = KeyResultStatus::Active;
        self.updated_at = now;
        Ok(())
    }

    /// Active becomes completed, whatever the progress reads.
    pub fn complete(&mut self, now: Timestamp) -> (r: Result<(), DomainError>)
        ensures
            r is Ok <==> old(self)@.status == KeyResultStatus::Active,
            r is Ok ==> final(self)@ == old(self)@.with_status(KeyResultStatus::Completed, now@),
            r matches Err(e) ==> is_transition_error(e, old(self)@.status.text(), "completed"@)
                && final(self)@ == old(self)@,
    {
        if self.status != KeyResultStatus::Active {
            return Err(
                DomainError::InvalidStatusTransition {
                    from: self.status.as_str(),
                    to: KeyResultStatus::Completed.as_str(),
                },
            );
        }
        self.status = KeyResultStatus::Completed;
        self.updated_at = now;
        Ok(())
    }

    /// Any status but archived becomes archived.
    pub fn archive(&mut self, now: Timestamp) -> (r: Result<(), DomainError>)
        ensures
            r is Ok <==> old(self)@.status != KeyResultStatus::Archived,
            r is Ok ==> final(self)@ == old(self)@.with_status(KeyResultStatus::Archived, now@),
            r matches Err(e) ==> is_transition_error(e, "archived"@, "archived"@) && final(self)@
                == old(self)@,
    {
        if self.status == KeyResultStatus::Archived {
            return Err(
                DomainError::InvalidStatusTransition {
                    from: self.status.as_str(),
                    to: KeyResultStatus::Archived.as_str(),
                },
            );
        }
        self.status = KeyResultStatus::Archived;
        self.updated_at = now;
        Ok(())
    }

    /// The current reading, given the latest check-in.
    pub fn current_value(&self, latest: Option<&CheckIn<V>>) -> (r: Option<V>)
        ensures
            r == self@.current_value(latest_value(deref_opt(latest))),
    {
        match self.definition.start_value() {
            Some(start) => {
                let reading = match latest {
                    Some(c) => c.value(),
                    None => None,
                };
                match reading {
                    Some(v) => Some(v),
                    None => Some(start),
                }
            },
            None => None,
        }
    }

    /// The current milestone state, given the latest check-in.
    pub fn current_state(&self, latest: Option<&CheckIn<V>>) -> (r: Option<MilestoneState>)
        ensures
            r == self@.current_state(latest_state(deref_opt(latest))),
    {
        match self.definition {
            ProgressDefinition::Milestone => {
                let reading = match latest {
                    Some(c) => c.state(),
                    None => None,
                };
                match reading {
                    Some(s) => Some(s),
                    None => Some(MilestoneState::NotStarted),
                }
            },
            _ => None,
        }
    }

    /// The note of the latest check-in.
    pub fn latest_note<'a>(&'a self, latest: Option<&'a CheckIn<V>>) -> (r: Option<&'a str>)
        ensures
            match r {
                Some(n) => latest matches Some(c) && c@.note == Some(n@),
                None => latest matches Some(c) ==> c@.note is None,
            },
    {
        match latest {
            Some(c) => c.note(),
            None => None,
        }
    }

    pub fn id(&self) -> (r: KeyResultId)
        ensures
            r@ == self@.id,
    {
        self.id
    }

    pub fn objective_id(&self) -> (r: ObjectiveId)
        ensures
            r@ == self@.objective_id,
    {
        self.objective_id
    }

    pub fn title(&self) -> (r: &Title)
        ensures
            r@ == self@.title,
    {
        &self.title
    }

    pub fn description(&self) -> (r: Option<&str>)
        ensures
            match r {
                Some(d) => self@.description == Some(d@),
                None => self@.description is None,
            },
    {
        match &self.description {
            Some(d) => Some(d.as_str()),
            None => None,
        }
    }

    pub fn status(&self) -> (r: KeyResultStatus)
        ensures
            r == self@.status,
    {
        self.status
    }

    pub fn progress_kind(&self) -> (r: ProgressKind)
        ensures
            r == self@.definition.kind(),
    {
        self.definition.kind()
    }

    pub fn definition(&self) -> (r: &ProgressDefinition<V>)
        ensures
            r@ == self@.definition,
    {
        &self.definition
    }

    pub fn start_value(&self) -> (r: Option<V>)
        ensures
            r == self@.definition.start_value(),
    {
        self.definition.start_value()
    }

    pub fn target_value(&self) -> (r: Option<V>)
        ensures
            r == self@.definition.target_value(),
    {
        self.definition.target_value()
    }

    pub fn unit(&self) -> (r: Option<&str>)
        ensures
            match r {
                Some(u) => self@.definition.unit() == Some(u@),
                None => self@.definition.unit() is None,
            },
    {
        self.definition.unit()
    }

    pub fn created_at(&self) -> (r: Timestamp)
        ensures
            r@ == self@.created_at,
    {
        self.created_at
    }

    pub fn updated_at(&self) -> (r: Timestamp)
        ensures
            r@ == self@.updated_at,
    {
        self.updated_at
    }
}

} // verus!
