//! Why a request is turned down.

use vstd::prelude::*;

verus! {

/// The three refusals that the lock itself pronounces.
#[derive(Clone, Copy, Debug, PartialEq, Eq, Structural, Hash)]
pub enum Error {
    /// The delegate has no quota registered for the target contract.
    NotAuthorizedMinter,
    /// The quota rule turned the projected consumption down.
    DailyLimitInsufficient,
    /// The requested amount is below zero.
    NegativeAmount,
}

impl Error {
    /// The number under which a refusal is reported to callers.
    pub open spec fn spec_code(self) -> u32 {
        match self {
            Error::NotAuthorizedMinter => 1,
            Error::DailyLimitInsufficient => 2,
            Error::NegativeAmount => 3,
        }
    }

    /// The number under which this refusal is reported to callers.
    #[verifier::when_used_as_spec(spec_code)]
    pub fn code(self) -> (code: u32)
        ensures
            code == self.spec_code(),
    {
        match self {
            Error::NotAuthorizedMinter => 1,
            Error::DailyLimitInsufficient => 2,
            Error::NegativeAmount => 3,
        }
    }

    /// The refusal that is reported under `code`, if there is one.
    pub fn from_code(code: u32) -> (error: Option<Error>)
        ensures
            match error {
                Some(e) => e.spec_code() == code,
                None => forall|e: Error| e.spec_code() != code,
            },
    {
        if code == 1 {
            Some(Error::NotAuthorizedMinter)
        } else if code == 2 {
            Some(Error::DailyLimitInsufficient)
        } else if code == 3 {
            Some(Error::NegativeAmount)
        } else {
            None
        }
    }
}

/// Every way in which a request can end without taking effect.
#[derive(Clone, Copy, Debug, PartialEq, Eq, Structural, Hash)]
pub enum Rejection {
    /// The signature check did not confirm the party that the request names.
    Unauthenticated,
    /// The lock refused the request.
    Refused(Error),
    /// The lock let the request through, but the issuance did not take place.
    /// Whatever the request had stored is taken back.
    IssuanceFailed,
}

} // verus!
