//! The two-field result `{error, value}` that every monitor entry point
//! returns, with the standard SBI error codes it uses.
//!
//! The codes follow the RISC-V SBI binary encoding: `0` is success and
//! the error codes are small negative numbers in two's complement, so
//! `-1` is `usize::MAX`, `-2` is `usize::MAX - 1`, and so on.

use vstd::prelude::*;

verus! {

/// SBI code for a successful call.
pub const RET_SUCCESS: usize = 0;
/// SBI code for a call that failed for unspecified reasons (`-1`).
pub const RET_ERR_FAILED: usize = usize::MAX;
/// SBI code for an operation the monitor does not support (`-2`).
pub const RET_ERR_NOT_SUPPORTED: usize = usize::MAX - 1;
/// SBI code for an invalid caller-supplied parameter (`-3`).
pub const RET_ERR_INVALID_PARAM: usize = usize::MAX - 2;
/// SBI code for a request the monitor refuses to carry out (`-4`).
pub const RET_ERR_DENIED: usize = usize::MAX - 3;

/// The result of a monitor call: an SBI error code and a value register.
#[derive(Clone, Copy, Debug, PartialEq, Eq, Structural)]
pub struct SbiRet {
    /// Error code; `RET_SUCCESS` on success.
    pub error: usize,
    /// Return value; meaningful only when `error == RET_SUCCESS`.
    pub value: usize,
}

impl SbiRet {
    /// A successful result carrying `value`.
    pub fn success(value: usize) -> (r: SbiRet)
        ensures
            r.error == RET_SUCCESS,
            r.value == value,
    {
        SbiRet { error: RET_SUCCESS, value }
    }

    /// The call failed for unspecified reasons.
    pub fn failed() -> (r: SbiRet)
        ensures
            r == (SbiRet { error: RET_ERR_FAILED, value: 0 }),
    {
        SbiRet { error: RET_ERR_FAILED, value: 0 }
    }

    /// The requested operation is not supported.
    pub fn not_supported() -> (r: SbiRet)
        ensures
            r == (SbiRet { error: RET_ERR_NOT_SUPPORTED, value: 0 }),
    {
        SbiRet { error: RET_ERR_NOT_SUPPORTED, value: 0 }
    }

    /// A caller-supplied parameter was invalid.
    pub fn invalid_param() -> (r: SbiRet)
        ensures
            r == (SbiRet { error: RET_ERR_INVALID_PARAM, value: 0 }),
    {
        SbiRet { error: RET_ERR_INVALID_PARAM, value: 0 }
    }

    /// The request was refused.
    pub fn denied() -> (r: SbiRet)
        ensures
            r == (SbiRet { error: RET_ERR_DENIED, value: 0 }),
    {
        SbiRet { error: RET_ERR_DENIED, value: 0 }
    }

    /// Whether this result reports success.
    pub fn is_ok(&self) -> (r: bool)
        ensures
            r == (self.error == RET_SUCCESS),
    {
        self.error == RET_SUCCESS
    }

    /// Whether this result reports an error.
    pub fn is_err(&self) -> (r: bool)
        ensures
            r == (self.error != RET_SUCCESS),
    {
        self.error != RET_SUCCESS
    }
}

} // verus!
