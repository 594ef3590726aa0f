//! The error taxonomy of the library.

use vstd::prelude::*;

verus! {

/// Why a completion collaborator call failed. The collaborator itself is
/// outside the library; callers hand its outcome to the conversation
/// service, which maps a failure to [`CoreError::Conversation`].
#[derive(Clone, Copy, PartialEq, Eq, Structural, Debug)]
pub enum CompletionFailure {
    /// The call did not finish within its deadline.
    Timeout,
    /// The provider reported an error.
    ProviderFailure,
    /// The provider answered, but the answer was unusable
    /// (for the library: a reply that is blank).
    InvalidResponse,
}

/// Every error the library reports.
#[derive(Clone, Copy, PartialEq, Eq, Structural, Debug)]
pub enum CoreError {
    /// Invalid configuration at construction time: a history capacity of
    /// zero, or an empty preamble. Fatal at startup, never raised later.
    Configuration,
    /// A caller error: blank input text, or an operation on a user that has
    /// no session where one is required.
    Validation,
    /// A turn failed because the completion collaborator failed; the cause
    /// is carried along. The session stays usable for the next turn.
    Conversation(CompletionFailure),
}

impl CoreError {
    /// A short human-readable description, for transports to log or map to
    /// their own wire format.
    pub fn describe(&self) -> (r: &'static str)
        ensures
            self is Configuration ==> r@ == "invalid configuration"@,
            self is Validation ==> r@ == "invalid request"@,
            self is Conversation ==> r@ == "completion failed"@,
    {
        match self {
            CoreError::Configuration => "invalid configuration",
            CoreError::Validation => "invalid request",
            CoreError::Conversation(_) => "completion failed",
        }
    }
}

} // verus!
