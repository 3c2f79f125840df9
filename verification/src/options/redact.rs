//! The kinds of sensitive information that can be redacted.

use vstd::prelude::*;

verus! {

/// A kind of sensitive information to remove from the transcript.
#[derive(Debug, PartialEq, Eq, Clone, Hash)]
#[non_exhaustive]
pub enum Redact {
    /// `pci`
    Pci,
    /// `numbers`
    Numbers,
    /// `ssn`
    Ssn,
    /// An item that this crate does not list.
    /// Prefer the listed variants where one fits.
    Other(String),
}

impl Redact {
    /// The tag by which the service knows this value.
    pub open spec fn text(self) -> Seq<char> {
        match self {
            Redact::Pci => "pci"@,
            Redact::Numbers => "numbers"@,
            Redact::Ssn => "ssn"@,
            Redact::Other(tag) => tag@,
        }
    }

    /// The tag by which the service knows this value.
    pub fn as_ref(&self) -> (r: &str)
        ensures
            r@ == self.text(),
    {
        match self {
            Redact::Pci => "pci",
            Redact::Numbers => "numbers",
            Redact::Ssn => "ssn",
            Redact::Other(tag) => tag.as_str(),
        }
    }
}

} // verus!
