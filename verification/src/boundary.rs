//! The three exposed operations, over nullable caller-owned buffers.
//!
//! A caller's buffer argument is modeled as `Option<Vec<u8>>`: `None` is a
//! missing argument (a null pointer at the outer boundary), `Some(bytes)`
//! a buffer the caller owns. Every operation validates its arguments
//! before any cryptographic work, writes either every output buffer or
//! none, and returns one of the three status codes.

use vstd::prelude::*;
use crate::params::{
    PUBLICKEYBYTES, SECRETKEYBYTES, CIPHERTEXTBYTES, SHAREDSECRETBYTES,
    STATUS_SUCCESS, STATUS_NULL_POINTER, STATUS_CRYPTO_FAILURE,
};
use crate::status::Status;
use crate::kem::{
    matched_keypair, honest_encapsulation, decapsulation_of,
    kyber_keypair, kyber_encapsulate, kyber_decapsulate,
};

verus! {

/// Generate a fresh key pair into the two caller buffers.
///
/// With both buffers present, the public and secret key of a matched pair
/// are written, each of its exact documented length; if either buffer is
/// missing, or the primitive fails, neither buffer is touched.
pub fn generate_keypair(
    public_key_buf: &mut Option<Vec<u8>>,
    secret_key_buf: &mut Option<Vec<u8>>,
) -> (status: i32)
    ensures
        status == STATUS_SUCCESS || status == STATUS_NULL_POINTER
            || status == STATUS_CRYPTO_FAILURE,
        ((*old(public_key_buf)) is None || (*old(secret_key_buf)) is None)
            <==> status == STATUS_NULL_POINTER,
        status != STATUS_SUCCESS ==> *final(public_key_buf) == *old(public_key_buf)
            && *final(secret_key_buf) == *old(secret_key_buf),
        status == STATUS_SUCCESS ==> (*final(public_key_buf) matches Some(pk)
            && *final(secret_key_buf) matches Some(sk)
            && pk@.len() == PUBLICKEYBYTES
            && sk@.len() == SECRETKEYBYTES
            && matched_keypair(pk@, sk@)),
{
    if public_key_buf.is_none() || secret_key_buf.is_none() {
        return Status::NullPointer.code();
    }
    let status = match kyber_keypair() {
        Ok((pk, sk)) => {
            *public_key_buf = Some(pk);
            *secret_key_buf = Some(sk);
            Status::Success
        },
        Err(_) => Status::CryptoFailure,
    };
    status.code()
}

/// Encapsulate under the caller's public key, writing the ciphertext and
/// the 32-byte shared secret into the two caller buffers.
///
/// With all three arguments present, success writes a ciphertext of its
/// exact documented length together with the shared secret it encodes for
/// the given public key; on a missing argument or a primitive failure,
/// neither output buffer is touched.
pub fn encapsulate_key(
    ciphertext_buf: &mut Option<Vec<u8>>,
    shared_secret_buf: &mut Option<Vec<u8>>,
    public_key_buf: &Option<Vec<u8>>,
) -> (status: i32)
    requires
        *public_key_buf matches Some(pk) ==> pk@.len() == PUBLICKEYBYTES,
    ensures
        status == STATUS_SUCCESS || status == STATUS_NULL_POINTER
            || status == STATUS_CRYPTO_FAILURE,
        (*public_key_buf is None || (*old(ciphertext_buf)) is None
            || (*old(shared_secret_buf)) is None) <==> status == STATUS_NULL_POINTER,
        status != STATUS_SUCCESS ==> *final(ciphertext_buf) == *old(ciphertext_buf)
            && *final(shared_secret_buf) == *old(shared_secret_buf),
        status == STATUS_SUCCESS ==> (*final(ciphertext_buf) matches Some(ct)
            && *final(shared_secret_buf) matches Some(ss)
            && *public_key_buf matches Some(pk)
            && ct@.len() == CIPHERTEXTBYTES
            && ss@.len() == SHAREDSECRETBYTES
            && honest_encapsulation(pk@, ct@, ss@)),
{
    if ciphertext_buf.is_none() || shared_secret_buf.is_none() || public_key_buf.is_none() {
        return Status::NullPointer.code();
    }
    let pk = public_key_buf.as_ref().unwrap();
    let status = match kyber_encapsulate(pk) {
        Ok((ct, ss)) => {
            *ciphertext_buf = Some(ct);
            *shared_secret_buf = Some(ss);
            Status::Success
        },
        Err(_) => Status::CryptoFailure,
    };
    status.code()
}

/// Recover the shared secret from a ciphertext under the caller's secret
/// key, writing it into the caller's buffer.
///
/// With all three arguments present this always succeeds: the written
/// 32-byte secret is the deterministic decapsulation of the ciphertext
/// under the secret key, and whenever the ciphertext is an honest
/// encapsulation under the public key matched with this secret key, it is
/// exactly that encapsulation's shared secret. A ciphertext made under a
/// different key pair still yields a 32-byte value and the same success
/// code, so the code alone does not reveal whether the keys matched.
pub fn decapsulate_key(
    shared_secret_buf: &mut Option<Vec<u8>>,
    ciphertext_buf: &Option<Vec<u8>>,
    secret_key_buf: &Option<Vec<u8>>,
) -> (status: i32)
    requires
        *ciphertext_buf matches Some(ct) ==> ct@.len() == CIPHERTEXTBYTES,
        *secret_key_buf matches Some(sk) ==> sk@.len() == SECRETKEYBYTES,
    ensures
        status == STATUS_SUCCESS || status == STATUS_NULL_POINTER,
        (*ciphertext_buf is None || *secret_key_buf is None
            || (*old(shared_secret_buf)) is None) <==> status == STATUS_NULL_POINTER,
        status == STATUS_NULL_POINTER ==> *final(shared_secret_buf)
            == *old(shared_secret_buf),
        status == STATUS_SUCCESS ==> (*final(shared_secret_buf) matches Some(ss)
            && *ciphertext_buf matches Some(ct)
            && *secret_key_buf matches Some(sk)
            && ss@.len() == SHAREDSECRETBYTES
            && ss@ == decapsulation_of(ct@, sk@)
            && forall|pk: Seq<u8>, ss1: Seq<u8>|
                matched_keypair(pk, sk@) && #[trigger] honest_encapsulation(pk, ct@, ss1)
                    ==> ss@ == ss1),
{
    if ciphertext_buf.is_none() || secret_key_buf.is_none() || shared_secret_buf.is_none() {
        return Status::NullPointer.code();
    }
    let ct = ciphertext_buf.as_ref().unwrap();
    let sk = secret_key_buf.as_ref().unwrap();
    let status = match kyber_decapsulate(ct, sk) {
        Ok(ss) => {
            *shared_secret_buf = Some(ss);
            Status::Success
        },
        Err(_) => Status::CryptoFailure,
    };
    status.code()
}

} // verus!
