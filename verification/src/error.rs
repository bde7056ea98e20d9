//! The failures the server reports, and the status code each one carries
//! across the activation boundary.
use vstd::prelude::*;

verus! {

/// Success.
pub const S_OK: i32 = 0;

/// Success with a negative answer.
pub const S_FALSE: i32 = 1;

/// Unspecified failure (`0x80004005`).
pub const E_FAIL: i32 = -2147467259;

/// A required pointer was null (`0x80004003`).
pub const E_POINTER: i32 = -2147467261;

/// An argument was not acceptable (`0x80070057`).
pub const E_INVALIDARG: i32 = -2147024809;

/// The class does not support aggregation (`0x80040110`).
pub const CLASS_E_NOAGGREGATION: i32 = -2147221232;

/// The requested class is not served here (`0x80040111`).
pub const CLASS_E_CLASSNOTAVAILABLE: i32 = -2147221231;

/// Why a request was refused.
#[derive(Clone, Copy, Debug, PartialEq, Eq, Structural)]
pub enum ErrorKind {
    /// A constructor argument or a divisor was rejected.
    InvalidArgument,
    /// A required identifier or output slot was absent.
    InvalidPointer,
    /// Aggregation was requested.
    NoAggregation,
    /// The requested class identifier is not the calculator's.
    ClassNotAvailable,
    /// The instance lock was poisoned by an earlier holder.
    Fatal,
    /// A step of registration or unregistration failed.
    RegistryOperationFailed,
}

impl ErrorKind {
    /// The status code that stands for this failure at the boundary. A
    /// registry failure is flattened to the generic failure code there.
    pub open spec fn status_spec(self) -> i32 {
        match self {
            ErrorKind::InvalidArgument => E_INVALIDARG,
            ErrorKind::InvalidPointer => E_POINTER,
            ErrorKind::NoAggregation => CLASS_E_NOAGGREGATION,
            ErrorKind::ClassNotAvailable => CLASS_E_CLASSNOTAVAILABLE,
            ErrorKind::Fatal => E_FAIL,
            ErrorKind::RegistryOperationFailed => E_FAIL,
        }
    }

    pub fn status(&self) -> (code: i32)
        ensures
            code == self.status_spec(),
            code < 0,
    {
        match self {
            ErrorKind::InvalidArgument => E_INVALIDARG,
            ErrorKind::InvalidPointer => E_POINTER,
            ErrorKind::NoAggregation => CLASS_E_NOAGGREGATION,
            ErrorKind::ClassNotAvailable => CLASS_E_CLASSNOTAVAILABLE,
            ErrorKind::Fatal => E_FAIL,
            ErrorKind::RegistryOperationFailed => E_FAIL,
        }
    }
}

} // verus!
