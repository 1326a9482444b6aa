//! Error values surfaced by the store. "Not found" is never an error: a
//! backend that has no payload reports `None` from `read` instead.

use vstd::prelude::*;

verus! {

/// Failure taxonomy of the store: a backend I/O failure, an encode/decode
/// failure, or a condition defined by a custom backend. Each variant carries
/// a descriptive message so the underlying cause is preserved, not swallowed.
#[derive(Debug, Clone, PartialEq, Eq)]
pub enum SaberError {
    /// The backend failed to read or write for a reason other than
    /// "no payload exists yet".
    Io(String),
    /// The payload could not be decoded into the value, or the value could
    /// not be encoded.
    Serialization(String),
    /// A custom-backend-defined failure condition.
    Adapter(String),
}

impl SaberError {
    /// The descriptive message carried by this error.
    pub fn message(&self) -> (r: &String)
        ensures
            *self matches SaberError::Io(m) ==> r@ == m@,
            *self matches SaberError::Serialization(m) ==> r@ == m@,
            *self matches SaberError::Adapter(m) ==> r@ == m@,
    {
        match self {
            SaberError::Io(m) => m,
            SaberError::Serialization(m) => m,
            SaberError::Adapter(m) => m,
        }
    }

    /// Whether this is a backend I/O failure.
    pub fn is_io(&self) -> (r: bool)
        ensures
            r == (*self matches SaberError::Io(_)),
    {
        match self {
            SaberError::Io(_) => true,
            _ => false,
        }
    }

    /// Whether this is an encode/decode failure.
    pub fn is_serialization(&self) -> (r: bool)
        ensures
            r == (*self matches SaberError::Serialization(_)),
    {
        match self {
            SaberError::Serialization(_) => true,
            _ => false,
        }
    }

    /// Whether this is a custom-backend failure.
    pub fn is_adapter(&self) -> (r: bool)
        ensures
            r == (*self matches SaberError::Adapter(_)),
    {
        match self {
            SaberError::Adapter(_) => true,
            _ => false,
        }
    }
}

} // verus!
