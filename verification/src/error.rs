//! The library's error type.
use vstd::prelude::*;

verus! {

/// Errors reported by the library's operations.
#[derive(Debug, Clone, PartialEq, Eq)]
pub enum Error {
    /// A backend (libvirt, pool, disk) operation failed.
    Backend(String),
    /// A monitoring operation (health checks, guest agent) failed.
    Monitoring(String),
    /// Any other failure.
    Other(String),
}

impl Error {
    /// The human-readable message carried by the error.
    pub open spec fn message(self) -> Seq<char> {
        match self {
            Error::Backend(m) => m@,
            Error::Monitoring(m) => m@,
            Error::Other(m) => m@,
        }
    }

    /// The error's message as a string.
    pub fn to_string(&self) -> (r: String)
        ensures
            r@ == self.message(),
    {
        match self {
            Error::Backend(m) => m.clone(),
            Error::Monitoring(m) => m.clone(),
            Error::Other(m) => m.clone(),
        }
    }
}

} // verus!
