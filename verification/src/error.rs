//! The error of a bounded wait.

use vstd::prelude::*;

verus! {

/// Why a bounded wait gave up.
#[derive(Debug, PartialEq, Eq, Structural)]
pub enum RendezvousTimeoutError {
    /// The time allowed ran out while a guard was still alive, so the work
    /// behind it may not be done yet.
    Timeout,
}

impl RendezvousTimeoutError {
    /// The error in words.
    pub fn message(&self) -> (text: String)
        ensures
            text@ == "Timeout"@,
    {
        match self {
            RendezvousTimeoutError::Timeout => "Timeout".to_owned(),
        }
    }
}

} // verus!
