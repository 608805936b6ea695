//! The outcome of a boundary operation, and its flattening to the closed
//! integer vocabulary that crosses the boundary.

use vstd::prelude::*;
use crate::params::{STATUS_SUCCESS, STATUS_NULL_POINTER, STATUS_CRYPTO_FAILURE};

verus! {

/// The three outcomes an operation can have. Internal logic works on this
/// tag; only the outermost return flattens it to an integer code.
pub enum Status {
    /// The operation completed and every output buffer was filled.
    Success,
    /// A required argument was missing; nothing was computed or written.
    NullPointer,
    /// The underlying primitive (or its randomness source) failed; output
    /// buffers were not written.
    CryptoFailure,
}

impl Status {
    /// The integer code that stands for this outcome at the boundary.
    pub open spec fn as_code(self) -> i32 {
        match self {
            Status::Success => STATUS_SUCCESS,
            Status::NullPointer => STATUS_NULL_POINTER,
            Status::CryptoFailure => STATUS_CRYPTO_FAILURE,
        }
    }

    /// Flatten the outcome to its integer code.
    pub fn code(self) -> (r: i32)
        ensures
            r == self.as_code(),
    {
        match self {
            Status::Success => STATUS_SUCCESS,
            Status::NullPointer => STATUS_NULL_POINTER,
            Status::CryptoFailure => STATUS_CRYPTO_FAILURE,
        }
    }
}

} // verus!
