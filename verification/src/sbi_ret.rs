//! The pair of values that every SBI function returns in `a0` and `a1`.
use vstd::prelude::*;

verus! {

/// SBI success state.
pub const RET_SUCCESS: usize = 0;

/// Error for SBI call failed for unknown reasons (`-1`).
pub const RET_ERR_FAILED: usize = usize::MAX;

/// Error for target operation not supported (`-2`).
pub const RET_ERR_NOT_SUPPORTED: usize = usize::MAX - 1;

/// Error for invalid parameter (`-3`).
pub const RET_ERR_INVALID_PARAM: usize = usize::MAX - 2;

/// SBI function return value: an error number and a result value.
#[derive(Debug, Clone, Copy, PartialEq, Eq, Structural)]
pub struct SbiRet {
    /// Error number.
    pub error: usize,
    /// Result value.
    pub value: usize,
}

impl SbiRet {
    /// Successful return carrying `value`.
    pub open spec fn spec_success(value: usize) -> SbiRet {
        SbiRet { error: RET_SUCCESS, value }
    }

    /// Return for a call that failed for unknown reasons.
    pub open spec fn spec_failed() -> SbiRet {
        SbiRet { error: RET_ERR_FAILED, value: 0 }
    }

    /// Return for an operation that is not supported.
    pub open spec fn spec_not_supported() -> SbiRet {
        SbiRet { error: RET_ERR_NOT_SUPPORTED, value: 0 }
    }

    /// Return for a call with an invalid parameter.
    pub open spec fn spec_invalid_param() -> SbiRet {
        SbiRet { error: RET_ERR_INVALID_PARAM, value: 0 }
    }

    /// Returns success SBI state with given `value`.
    pub fn success(value: usize) -> (r: SbiRet)
        ensures
            r == SbiRet::spec_success(value),
    {
        SbiRet { error: RET_SUCCESS, value }
    }

    /// The SBI call request failed for unknown reasons.
    pub fn failed() -> (r: SbiRet)
        ensures
            r == SbiRet::spec_failed(),
    {
        SbiRet { error: RET_ERR_FAILED, value: 0 }
    }

    /// The operation is not supported by the target.
    pub fn not_supported() -> (r: SbiRet)
        ensures
            r == SbiRet::spec_not_supported(),
    {
        SbiRet { error: RET_ERR_NOT_SUPPORTED, value: 0 }
    }

    /// A parameter of the call is invalid.
    pub fn invalid_param() -> (r: SbiRet)
        ensures
            r == SbiRet::spec_invalid_param(),
    {
        SbiRet { error: RET_ERR_INVALID_PARAM, value: 0 }
    }
}

} // verus!
