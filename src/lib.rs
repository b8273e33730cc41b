//! Bridges spans and leveled events to a host that observes them through
//! plain callbacks: span names are interned under increasing identifiers,
//! event fields are rendered into one owned line, and the decisions about
//! which callback runs, and with what, are made here.
use vstd::prelude::*;

pub mod bridge;
pub mod format;
pub mod table;

verus! {

/// Result of installing the bridge as the process-wide subscriber.
#[derive(Debug, Clone, Copy, PartialEq, Eq, Structural)]
pub enum ReturnCode {
    Success,
    Failure,
}

impl ReturnCode {
    /// The code reported for an installation attempt: `Failure` exactly when
    /// a subscriber was already installed.
    pub fn from_install(already_installed: bool) -> (r: ReturnCode)
        ensures
            r == (if already_installed { ReturnCode::Failure } else { ReturnCode::Success }),
    {
        if already_installed {
            ReturnCode::Failure
        } else {
            ReturnCode::Success
        }
    }

    /// The integer that the host sees for this code.
    pub fn code(&self) -> (r: u32)
        ensures
            r == (if *self == ReturnCode::Success { 0u32 } else { 1u32 }),
    {
        match self {
            ReturnCode::Success => 0,
            ReturnCode::Failure => 1,
        }
    }
}

} // verus!
