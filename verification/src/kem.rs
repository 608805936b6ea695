//! Trusted bindings to the underlying Kyber primitive.
//!
//! The mathematics of the key-encapsulation mechanism is out of scope here
//! and is delegated to the `pqc_kyber` crate. Each operation is reached
//! through exactly one wrapper whose contract states what the primitive's
//! source shows; the properties that relate the three operations — that
//! generation yields a matched pair, that encapsulation binds a ciphertext
//! and secret to a public key, and that decapsulation of an honest
//! encapsulation under the matching secret key recovers its secret — are
//! abstract here, since their definitions are the KEM's internal algebra.

use vstd::prelude::*;
use crate::params::{PUBLICKEYBYTES, SECRETKEYBYTES, CIPHERTEXTBYTES, SHAREDSECRETBYTES};

verus! {

/// Holds when `pk` and `sk` were produced together by one key-generation
/// call, so that `sk` opens what is encapsulated under `pk`.
pub uninterp spec fn matched_keypair(pk: Seq<u8>, sk: Seq<u8>) -> bool;

/// Holds when `(ct, ss)` is a possible outcome of encapsulating under `pk`:
/// the ciphertext `ct` encodes exactly the shared secret `ss` for the key
/// pair that `pk` belongs to.
pub uninterp spec fn honest_encapsulation(pk: Seq<u8>, ct: Seq<u8>, ss: Seq<u8>) -> bool;

/// The shared secret that decapsulating `ct` under `sk` yields:
/// decapsulation is deterministic, a function of the ciphertext and the
/// secret key alone.
pub uninterp spec fn decapsulation_of(ct: Seq<u8>, sk: Seq<u8>) -> Seq<u8>;

#[verifier::external_type_specification]
#[verifier::external_body]
pub struct ExKyberError(pqc_kyber::KyberError);

/// Relies on `pqc_kyber::keypair`, driven by `rand`'s `OsRng`: on success
/// the public and secret key have the fixed Kyber-768 lengths and form a
/// matched pair; it fails only when the operating-system RNG does.
#[verifier::external_body]
pub(crate) fn kyber_keypair() -> (r: Result<(Vec<u8>, Vec<u8>), pqc_kyber::KyberError>)
    ensures
        r matches Ok(keys) ==> keys.0@.len() == PUBLICKEYBYTES
            && keys.1@.len() == SECRETKEYBYTES
            && matched_keypair(keys.0@, keys.1@),
{
    let mut rng = rand::rngs::OsRng;
    match pqc_kyber::keypair(&mut rng) {
        Ok(keys) => Ok((keys.public.to_vec(), keys.secret.to_vec())),
        Err(e) => Err(e),
    }
}

/// Relies on `pqc_kyber::encapsulate`, driven by `rand`'s `OsRng`: given a
/// public key of the documented length it produces, unless the
/// operating-system RNG fails, a ciphertext and a 32-byte shared secret
/// that the ciphertext encodes for that public key.
#[verifier::external_body]
pub(crate) fn kyber_encapsulate(pk: &Vec<u8>) -> (r: Result<
    (Vec<u8>, Vec<u8>),
    pqc_kyber::KyberError,
>)
    requires
        pk@.len() == PUBLICKEYBYTES,
    ensures
        r matches Ok(out) ==> out.0@.len() == CIPHERTEXTBYTES
            && out.1@.len() == SHAREDSECRETBYTES
            && honest_encapsulation(pk@, out.0@, out.1@),
{
    let mut rng = rand::rngs::OsRng;
    match pqc_kyber::encapsulate(pk.as_slice(), &mut rng) {
        Ok((ct, ss)) => Ok((ct.to_vec(), ss.to_vec())),
        Err(e) => Err(e),
    }
}

/// Relies on `pqc_kyber::decapsulate`: with a ciphertext and secret key of
/// the documented lengths it always succeeds — a ciphertext that does not
/// authenticate yields a pseudo-random secret rather than an error
/// (implicit rejection) — and the returned 32-byte secret is a
/// deterministic function of the two inputs; when the ciphertext is an
/// honest encapsulation under the public key matching `sk`, that
/// encapsulation's secret is returned.
#[verifier::external_body]
pub(crate) fn kyber_decapsulate(ct: &Vec<u8>, sk: &Vec<u8>) -> (r: Result<
    Vec<u8>,
    pqc_kyber::KyberError,
>)
    requires
        ct@.len() == CIPHERTEXTBYTES,
        sk@.len() == SECRETKEYBYTES,
    ensures
        r is Ok,
        r matches Ok(ss) ==> ss@.len() == SHAREDSECRETBYTES
            && ss@ == decapsulation_of(ct@, sk@)
            && forall|pk: Seq<u8>, ss1: Seq<u8>|
                matched_keypair(pk, sk@) && #[trigger] honest_encapsulation(pk, ct@, ss1)
                    ==> ss@ == ss1,
{
    match pqc_kyber::decapsulate(ct.as_slice(), sk.as_slice()) {
        Ok(ss) => Ok(ss.to_vec()),
        Err(e) => Err(e),
    }
}

} // verus!
