//! A verified boundary layer for a CRYSTALS-Kyber key-encapsulation mechanism.
//!
//! Three operations — keypair generation, encapsulation, decapsulation — are
//! exposed over fixed-size byte buffers and integer status codes. The
//! cryptographic primitive itself is delegated to the `pqc_kyber` crate; what
//! is verified here is the boundary discipline: argument validation, exact
//! buffer lengths, the closed error-code vocabulary, and that no output buffer
//! is touched on a rejected call.

pub mod params;
pub mod status;
pub mod kem;
pub mod boundary;
