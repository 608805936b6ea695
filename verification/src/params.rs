//! Fixed buffer sizes and status codes of the boundary contract.
//!
//! Every value crossing the boundary is a byte sequence of one of these
//! exact lengths; the sizes are those of the Kyber-768 parameter set, fixed
//! at compile time and published so callers can allocate correctly.

use vstd::prelude::*;

verus! {

/// Length in bytes of a public key.
pub const PUBLICKEYBYTES: usize = 1184;

/// Length in bytes of a secret key.
pub const SECRETKEYBYTES: usize = 2400;

/// Length in bytes of a ciphertext.
pub const CIPHERTEXTBYTES: usize = 1088;

/// Length in bytes of a shared secret (algorithm-independent).
pub const SHAREDSECRETBYTES: usize = 32;

/// Status code: the operation succeeded.
pub const STATUS_SUCCESS: i32 = 0;

/// Status code: a required argument was missing (a null pointer at the
/// outer boundary).
pub const STATUS_NULL_POINTER: i32 = -1;

/// Status code: the underlying cryptographic operation failed.
pub const STATUS_CRYPTO_FAILURE: i32 = -2;

} // verus!
