//! Firmware status codes, modelled as a plain 64-bit value.
//!
//! A code with the high bit set denotes an error, matching the platform's
//! convention; the zero code is success.

use vstd::prelude::*;

verus! {

/// The bit that marks a status code as an error.
pub const STATUS_ERROR_BIT: u64 = 0x8000_0000_0000_0000;

/// A firmware status code.
#[derive(Clone, Copy, PartialEq, Eq, Structural, Debug)]
pub struct Status {
    pub code: u64,
}

impl Status {
    /// The success code.
    pub fn success() -> (r: Status)
        ensures
            r.code == 0,
            !r.is_error(),
    {
        Status { code: 0 }
    }

    /// Wraps a raw firmware code.
    pub fn from_code(code: u64) -> (r: Status)
        ensures
            r.code == code,
    {
        Status { code }
    }

    /// Whether this code denotes an error.
    pub open spec fn spec_is_error(&self) -> bool {
        self.code >= STATUS_ERROR_BIT
    }

    /// Whether this code denotes an error (the high bit is set).
    #[verifier::when_used_as_spec(spec_is_error)]
    pub fn is_error(&self) -> (r: bool)
        ensures
            r == self.spec_is_error(),
    {
        self.code >= STATUS_ERROR_BIT
    }
}

} // verus!
