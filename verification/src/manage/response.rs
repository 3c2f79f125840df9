//! What the management endpoints answer.

use vstd::prelude::*;

verus! {

/// A message that says that a request has succeeded.
#[derive(Debug, PartialEq, Eq, Clone)]
#[non_exhaustive]
pub struct Message {
    /// The text of the message.
    pub message: String,
}

/// The scopes of a member.
#[derive(Debug, PartialEq, Eq, Clone)]
#[non_exhaustive]
pub struct Scopes {
    /// The scopes, by name.
    pub scopes: Vec<String>,
}

/// A message with the given text.
pub fn message(text: String) -> (r: Message)
    ensures
        r.message == text,
{
    Message { message: text }
}

/// The scopes with the given names.
pub fn scopes(names: Vec<String>) -> (r: Scopes)
    ensures
        r.scopes == names,
{
    Scopes { scopes: names }
}

} // verus!
