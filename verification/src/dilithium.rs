//! Adapter around the opaque Dilithium level-2 signature primitive.
//!
//! The lattice arithmetic itself is out of scope: the three operations are
//! called through trusted wrappers with fixed-size byte contracts, and the
//! rest of the library is verified against those contracts.

use vstd::prelude::*;

use pqcrypto_dilithium::dilithium2;
use pqcrypto_traits::sign::DetachedSignature as DetachedSignatureTrait;
use pqcrypto_traits::sign::PublicKey as PublicKeyTrait;
use pqcrypto_traits::sign::SecretKey as SecretKeyTrait;

use crate::DILITHIUM2_PK_SIZE;
use crate::DILITHIUM2_SIG_SIZE;
use crate::DILITHIUM2_SK_SIZE;

verus! {

/// What `pqcrypto_dilithium::dilithium2::verify_detached_signature` returns on
/// a (signature, message, public key) byte triple: verification is a
/// deterministic check of exactly those bytes.
pub uninterp spec fn spec_verify(sig: Seq<u8>, msg: Seq<u8>, pk: Seq<u8>) -> bool;

/// The two halves of a Dilithium level-2 key pair belong together: this holds
/// of every (public key, secret key) pair that key generation returns.
pub uninterp spec fn is_keypair(pk: Seq<u8>, sk: Seq<u8>) -> bool;

/// Relies on `pqcrypto_dilithium::dilithium2::keypair`: a fresh random key
/// pair whose halves have the scheme's fixed sizes (1312 and 2560 bytes) and
/// were generated together.
#[verifier::external_body]
pub(crate) fn dilithium_keypair() -> (r: (Vec<u8>, Vec<u8>))
    ensures
        r.0@.len() == DILITHIUM2_PK_SIZE,
        r.1@.len() == DILITHIUM2_SK_SIZE,
        is_keypair(r.0@, r.1@),
{
    let (pk, sk) = dilithium2::keypair();
    (pk.as_bytes().to_vec(), sk.as_bytes().to_vec())
}

/// Relies on `pqcrypto_dilithium::dilithium2`: `SecretKey::from_bytes`
/// succeeds exactly on 2560-byte inputs, `detached_sign` returns a 2420-byte
/// detached signature, and a signature made with a secret key verifies under
/// the public key generated together with it (the signature scheme's
/// correctness, exercised by that crate's own sign/verify round-trip test).
#[verifier::external_body]
pub(crate) fn dilithium_detached_sign(message: &[u8], sk: &[u8]) -> (r: Option<Vec<u8>>)
    ensures
        r is Some <==> sk@.len() == DILITHIUM2_SK_SIZE,
        r matches Some(sig) ==> sig@.len() == DILITHIUM2_SIG_SIZE,
        r matches Some(sig) ==> forall|pk: Seq<u8>|
            is_keypair(pk, sk@) ==> spec_verify(sig@, message@, pk),
{
    let key = match dilithium2::SecretKey::from_bytes(sk) {
        Ok(key) => key,
        Err(_) => {
            return None;
        },
    };
    let sig = dilithium2::detached_sign(message, &key);
    Some(sig.as_bytes().to_vec())
}

/// Relies on `pqcrypto_dilithium::dilithium2`: `PublicKey::from_bytes`
/// succeeds exactly on 1312-byte inputs, `DetachedSignature::from_bytes`
/// succeeds exactly on inputs of at most 2420 bytes, and
/// `verify_detached_signature` deterministically accepts or rejects the byte
/// triple.
#[verifier::external_body]
pub(crate) fn dilithium_verify(sig: &[u8], message: &[u8], pk: &[u8]) -> (r: Option<bool>)
    ensures
        r is Some <==> (pk@.len() == DILITHIUM2_PK_SIZE && sig@.len() <= DILITHIUM2_SIG_SIZE),
        r matches Some(valid) ==> valid == spec_verify(sig@, message@, pk@),
{
    let key = match dilithium2::PublicKey::from_bytes(pk) {
        Ok(key) => key,
        Err(_) => {
            return None;
        },
    };
    let parsed = match dilithium2::DetachedSignature::from_bytes(sig) {
        Ok(parsed) => parsed,
        Err(_) => {
            return None;
        },
    };
    Some(dilithium2::verify_detached_signature(&parsed, message, &key).is_ok())
}

} // verus!
