//! The failures an entry point reports.

use vstd::prelude::*;

verus! {

/// Why a call was rejected. A rejected call changes nothing and emits nothing.
#[derive(Clone, Copy, Debug, PartialEq, Eq, Structural)]
pub enum Error {
    /// The caller is not one of the two admins.
    NotAuthorized,
    /// The instance has not been initialised yet.
    NotInitialized,
    /// The instance was initialised before.
    AlreadyInitialized,
}

impl Error {
    /// The number under which the failure is reported to the caller of a transaction.
    pub open spec fn spec_code(self) -> u32 {
        match self {
            Error::NotAuthorized => 1,
            Error::NotInitialized => 2,
            Error::AlreadyInitialized => 3,
        }
    }

    /// The failure's code: 1 for `NotAuthorized`, 2 for `NotInitialized`,
    /// 3 for `AlreadyInitialized`.
    #[verifier::when_used_as_spec(spec_code)]
    pub fn code(self) -> (code: u32)
        ensures
            code == self.spec_code(),
    {
        match self {
            Error::NotAuthorized => 1,
            Error::NotInitialized => 2,
            Error::AlreadyInitialized => 3,
        }
    }
}

} // verus!
