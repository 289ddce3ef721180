//! Display names of domain entities.
use crate::error::DomainError;
use crate::text::{trim, trim_is_idempotent, trimmed};
use vstd::prelude::*;

verus! {

/// Non-empty, trimmed display name for a domain entity.
#[derive(Debug, PartialEq, Eq)]
pub struct Title {
    text: String,
}

impl View for Title {
    type V = Seq<char>;

    closed spec fn view(&self) -> Seq<char> {
        self.text@
    }
}

/// What `Title::parse` makes of `raw`: its trimmed text, unless that is empty.
pub open spec fn title_outcome(raw: Seq<char>) -> Option<Seq<char>> {
    if trim(raw).len() == 0 {
        None
    } else {
        Some(trim(raw))
    }
}

impl Title {
    #[verifier::type_invariant]
    spec fn well_formed(self) -> bool {
        self.text@.len() > 0 && trim(self.text@) == self.text@
    }

    /// The title holding the trimmed `raw`; blank input is refused.
    pub fn parse(raw: &str) -> (r: Result<Title, DomainError>)
        ensures
            match r {
                Ok(t) => title_outcome(raw@) == Some(t@),
                Err(e) => title_outcome(raw@) is None && e == DomainError::EmptyTitle,
            },
    {
        let text = trimmed(raw);
        proof {
            trim_is_idempotent(raw@);
        }
        if text.as_str().is_empty() {
            return Err(DomainError::EmptyTitle);
        }
        Ok(Title { text })
    }

    /// The title text: not empty, already trimmed, and read back by
    /// `Title::parse` as this very title.
    pub fn as_str(&self) -> (r: &str)
        ensures
            r@ == self@,
            r@.len() > 0,
            trim(r@) == r@,
            title_outcome(r@) == Some(r@),
    {
        proof {
            use_type_invariant(self);
        }
        self.text.as_str()
    }
}

impl Clone for Title {
    fn clone(&self) -> (r: Self)
        ensures
            r@ == self@,
    {
        proof {
            use_type_invariant(self);
        }
        Title { text: self.text.clone() }
    }
}

} // verus!
