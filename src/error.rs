//! The two ways a code derivation can fail.

use vstd::prelude::*;

verus! {

/// Why a derivation failed.
#[derive(Clone, Copy, Debug, PartialEq, Eq, Structural)]
pub enum TOTPErrorReason {
    /// The secret is not valid Base32.
    InvalidKey,
    /// The system clock reads a time before the Unix epoch.
    InvalidTime,
}

/// The error of a derivation; it carries its reason and nothing of the secret.
#[derive(Clone, Copy, Debug, PartialEq, Eq, Structural)]
pub struct TOTPError {
    reason: TOTPErrorReason,
}

impl View for TOTPError {
    type V = TOTPErrorReason;

    closed spec fn view(&self) -> TOTPErrorReason {
        self.reason
    }
}

impl TOTPError {
    /// An error for the given reason.
    pub fn new(reason: TOTPErrorReason) -> (e: TOTPError)
        ensures
            e@ == reason,
    {
        TOTPError { reason }
    }

    /// Why the derivation failed.
    pub fn reason(&self) -> (r: TOTPErrorReason)
        ensures
            r == self@,
    {
        self.reason
    }

    /// A human-readable description of the failure.
    pub fn description(&self) -> (text: &'static str)
        ensures
            self@ == TOTPErrorReason::InvalidKey ==> text@ == "Provided key could not be BASE32 decoded"@,
            self@ == TOTPErrorReason::InvalidTime ==> text@ == "System time set to before UNIX epoch"@,
    {
        match self.reason {
            TOTPErrorReason::InvalidKey => "Provided key could not be BASE32 decoded",
            TOTPErrorReason::InvalidTime => "System time set to before UNIX epoch",
        }
    }
}

} // verus!
