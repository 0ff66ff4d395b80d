//! What can go wrong with a lock.

use vstd::prelude::*;

use crate::text::{decimal, decimal_of};

verus! {

/// A failed lock operation.
#[derive(Debug)]
pub enum Error {
    /// A setting or an argument is out of bounds.
    InvalidConfig(String),
    /// Someone else holds the key.
    Held { key: String },
    /// The wait for the key ran out.
    Timeout { key: String },
    /// The lease is no longer ours.
    Lost { key: String, fence: u64 },
    /// The store could not be reached or refused the command.
    Backend(String),
}

/// An [`Error`] with its texts as character sequences.
pub enum ErrorV {
    InvalidConfig(Seq<char>),
    Held { key: Seq<char> },
    Timeout { key: Seq<char> },
    Lost { key: Seq<char>, fence: u64 },
    Backend(Seq<char>),
}

impl View for Error {
    type V = ErrorV;

    open spec fn view(&self) -> ErrorV {
        match self {
            Error::InvalidConfig(m) => ErrorV::InvalidConfig(m@),
            Error::Held { key } => ErrorV::Held { key: key@ },
            Error::Timeout { key } => ErrorV::Timeout { key: key@ },
            Error::Lost { key, fence } => ErrorV::Lost { key: key@, fence: *fence },
            Error::Backend(m) => ErrorV::Backend(m@),
        }
    }
}

/// The line shown to a person for an error.
pub open spec fn error_text(e: ErrorV) -> Seq<char> {
    match e {
        ErrorV::InvalidConfig(m) => "invalid config: "@ + m,
        ErrorV::Held { key } => "lock is held: "@ + key,
        ErrorV::Timeout { key } => "timed out waiting for lock: "@ + key,
        ErrorV::Lost { key, fence } => "lock lost: "@ + key + " (fence "@ + decimal(fence as nat)
            + ")"@,
        ErrorV::Backend(m) => "backend error: "@ + m,
    }
}

/// `Held` for `key`.
pub fn held(key: &str) -> (r: Error)
    ensures
        r@ == (ErrorV::Held { key: key@ }),
{
    Error::Held { key: key.to_owned() }
}

/// `Timeout` for `key`.
pub fn timeout(key: &str) -> (r: Error)
    ensures
        r@ == (ErrorV::Timeout { key: key@ }),
{
    Error::Timeout { key: key.to_owned() }
}

/// `Lost` for `key` under `fence`.
pub fn lost(key: &str, fence: u64) -> (r: Error)
    ensures
        r@ == (ErrorV::Lost { key: key@, fence }),
{
    Error::Lost { key: key.to_owned(), fence }
}

/// `Backend` whose text is `what` followed by the store's own words.
pub fn backend(what: &str, cause: &str) -> (r: Error)
    ensures
        r@ == ErrorV::Backend(what@ + cause@),
{
    Error::Backend(what.to_owned().concat(cause))
}

/// `InvalidConfig` with the text `m`.
pub fn invalid(m: &str) -> (r: Error)
    ensures
        r@ == ErrorV::InvalidConfig(m@),
{
    Error::InvalidConfig(m.to_owned())
}

impl Error {
    /// The line shown to a person.
    pub fn message(&self) -> (r: String)
        ensures
            r@ == error_text(self@),
    {
        match self {
            Error::InvalidConfig(m) => "invalid config: ".to_owned().concat(m.as_str()),
            Error::Held { key } => "lock is held: ".to_owned().concat(key.as_str()),
            Error::Timeout { key } => "timed out waiting for lock: ".to_owned().concat(
                key.as_str(),
            ),
            Error::Lost { key, fence } => "lock lost: ".to_owned().concat(key.as_str()).concat(
                " (fence ",
            ).concat(decimal_of(*fence).as_str()).concat(")"),
            Error::Backend(m) => "backend error: ".to_owned().concat(m.as_str()),
        }
    }

    /// Whether the error says that someone else holds the key.
    pub fn is_held(&self) -> (r: bool)
        ensures
            r == (self@ is Held),
    {
        match self {
            Error::Held { .. } => true,
            _ => false,
        }
    }
}

} // verus!
