//! What can go wrong between the library and the two things it depends on:
//! the store and the person at the keyboard.

use vstd::prelude::*;
use vstd::std_specs::convert::FromSpecImpl;

verus! {

/// Failure of one write or one lookup in the store.
#[derive(Debug, Clone, Copy, PartialEq, Eq, Structural)]
pub enum StorageError {
    /// The store could not be opened, read or written.
    Unavailable,
    /// The store refused a row because of its uniqueness constraint.
    Conflict,
}

/// Why a session ended early.
#[derive(Debug, Clone, Copy, PartialEq, Eq, Structural)]
pub enum SessionError {
    /// The store could not be opened, read or written.
    StorageUnavailable,
    /// No answer could be had from the user.
    InputClosed,
    /// A uniqueness constraint was violated, which a correct key never does.
    SchemaViolation,
}

impl StorageError {
    /// The words of `message`.
    pub open spec fn text(self) -> Seq<char> {
        match self {
            StorageError::Unavailable => "the store is unavailable"@,
            StorageError::Conflict => "the store already holds a row with this key"@,
        }
    }

    /// What went wrong, in words.
    pub fn message(&self) -> (s: &'static str)
        ensures
            s@ == self.text(),
    {
        match self {
            StorageError::Unavailable => "the store is unavailable",
            StorageError::Conflict => "the store already holds a row with this key",
        }
    }
}

impl SessionError {
    /// The failure of a session that a failure of the store amounts to.
    pub open spec fn of(error: StorageError) -> SessionError {
        match error {
            StorageError::Unavailable => SessionError::StorageUnavailable,
            StorageError::Conflict => SessionError::SchemaViolation,
        }
    }

    /// The words of `message`.
    pub open spec fn text(self) -> Seq<char> {
        match self {
            SessionError::StorageUnavailable => "the store is unavailable"@,
            SessionError::InputClosed => "no answer could be read"@,
            SessionError::SchemaViolation => "the store already holds a row with this key"@,
        }
    }

    /// What went wrong, in words.
    pub fn message(&self) -> (s: &'static str)
        ensures
            s@ == self.text(),
    {
        match self {
            SessionError::StorageUnavailable => "the store is unavailable",
            SessionError::InputClosed => "no answer could be read",
            SessionError::SchemaViolation => "the store already holds a row with this key",
        }
    }
}

impl From<StorageError> for SessionError {
    fn from(e: StorageError) -> (r: SessionError) {
        match e {
            StorageError::Unavailable => SessionError::StorageUnavailable,
            StorageError::Conflict => SessionError::SchemaViolation,
        }
    }
}

impl FromSpecImpl<StorageError> for SessionError {
    open spec fn obeys_from_spec() -> bool {
        true
    }

    open spec fn from_spec(e: StorageError) -> SessionError {
        SessionError::of(e)
    }
}

} // verus!
