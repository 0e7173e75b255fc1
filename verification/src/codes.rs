//! Result codes reported by every foreign entry point of the runtime
//! library: zero and positive codes are success, negative codes are errors.

use vstd::prelude::*;

verus! {

/// Result codes for operations; negative codes are errors, zero or positive
/// codes are success.
#[derive(Debug, Copy, Clone, Hash, PartialEq, Eq, Structural)]
pub enum MndResult {
    Success,
    ErrorInvalidVersion,
    ErrorInvalidValue,
    ErrorConnectingFailed,
    ErrorOperationFailed,
}

/// The structured outcome that a raw result code stands for. Every code the
/// runtime can return maps to exactly one variant; a negative code outside
/// the documented range counts as a failed operation.
pub open spec fn spec_from_code(code: i32) -> MndResult {
    if code >= 0 {
        MndResult::Success
    } else if code == -1 {
        MndResult::ErrorInvalidVersion
    } else if code == -2 {
        MndResult::ErrorInvalidValue
    } else if code == -3 {
        MndResult::ErrorConnectingFailed
    } else {
        MndResult::ErrorOperationFailed
    }
}

impl MndResult {
    /// Interpret a raw result code from a foreign call.
    pub fn from_code(code: i32) -> (r: MndResult)
        ensures
            r == spec_from_code(code),
    {
        if code >= 0 {
            MndResult::Success
        } else if code == -1 {
            MndResult::ErrorInvalidVersion
        } else if code == -2 {
            MndResult::ErrorInvalidValue
        } else if code == -3 {
            MndResult::ErrorConnectingFailed
        } else {
            MndResult::ErrorOperationFailed
        }
    }

    /// Turn a result code into a `Result`, so that a non-success code is
    /// surfaced as a typed error and never treated as partial success.
    pub fn to_result(self) -> (r: Result<(), MndResult>)
        ensures
            self == MndResult::Success <==> r is Ok,
            r matches Err(e) ==> e == self,
    {
        if self == MndResult::Success {
            Ok(())
        } else {
            Err(self)
        }
    }
}

/// Check a raw result code in one step: success codes give `Ok`, every
/// other code gives the error it maps to.
pub fn code_to_result(code: i32) -> (r: Result<(), MndResult>)
    ensures
        code >= 0 <==> r is Ok,
        code < 0 ==> (r matches Err(e) && e == spec_from_code(code)),
{
    MndResult::from_code(code).to_result()
}

} // verus!
