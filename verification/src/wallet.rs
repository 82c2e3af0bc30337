//! Wallet identity and the verification service.
//!
//! A wallet owns exactly one Dilithium level-2 key pair for its lifetime and
//! signs message bytes; verification of untrusted (public key, message,
//! signature) triples is a static service that mirrors what an external
//! on-chain verifier must do.

use vstd::prelude::*;

use crate::dilithium::dilithium_detached_sign;
use crate::dilithium::dilithium_keypair;
use crate::dilithium::dilithium_verify;
use crate::dilithium::is_keypair;
use crate::dilithium::spec_verify;
use crate::hexstr::encode_hex;
use crate::hexstr::spec_hex;
use crate::DILITHIUM2_PK_SIZE;
use crate::DILITHIUM2_SIG_SIZE;
use crate::DILITHIUM2_SK_SIZE;
use crate::SanctuaryError;

verus! {

/// The key hash after folding the first `n` bytes of the public key: byte `p`
/// of the key, mixed with its 32-byte chunk index by wrapping addition, is
/// XORed into position `p % 32` of a 32-byte accumulator that starts at zero.
pub open spec fn spec_fold(pk: Seq<u8>, n: int) -> Seq<u8>
    decreases n,
{
    if n <= 0 {
        Seq::new(32, |j: int| 0u8)
    } else {
        let prev = spec_fold(pk, n - 1);
        let p = n - 1;
        let mixed = (((pk[p] + (p / 32) % 256) % 256) as u8);
        prev.update(p % 32, prev[p % 32] ^ mixed)
    }
}

/// The placeholder 32-byte digest of a public key: an XOR fold of its 32-byte
/// chunks. Not collision-resistant; a real deployment must replace it with the
/// cryptographic hash that the external verifier uses.
pub open spec fn spec_key_hash(pk: Seq<u8>) -> Seq<u8> {
    spec_fold(pk, pk.len() as int)
}

/// A quantum-resistant wallet identity: owns one Dilithium level-2 key pair,
/// created by fresh random generation and immutable after construction.
#[derive(Clone)]
pub struct SanctuaryWallet {
    pk: Vec<u8>,
    sk: Vec<u8>,
}

impl SanctuaryWallet {
    /// The stored public-key bytes.
    pub closed spec fn spec_pk(&self) -> Seq<u8> {
        self.pk@
    }

    /// The stored secret-key bytes.
    pub closed spec fn spec_sk(&self) -> Seq<u8> {
        self.sk@
    }

    /// Well-formedness: both halves have the scheme's fixed sizes and were
    /// generated together as one key pair.
    pub open spec fn wf(&self) -> bool {
        &&& self.spec_pk().len() == DILITHIUM2_PK_SIZE
        &&& self.spec_sk().len() == DILITHIUM2_SK_SIZE
        &&& is_keypair(self.spec_pk(), self.spec_sk())
    }

    /// Generate a new wallet with a fresh random Dilithium key pair.
    pub fn new() -> (r: Self)
        ensures
            r.wf(),
    {
        let (pk, sk) = dilithium_keypair();
        SanctuaryWallet { pk, sk }
    }

    /// The public key as bytes: exactly the stored 1312-byte value.
    pub fn public_key(&self) -> (r: &[u8])
        ensures
            r@ == self.spec_pk(),
    {
        self.pk.as_slice()
    }

    /// The public key as a lowercase hex string without prefix.
    pub fn public_key_hex(&self) -> (r: String)
        ensures
            r@ == spec_hex(self.spec_pk()),
    {
        encode_hex(self.pk.as_slice())
    }

    /// The placeholder digest of the public key (see [`spec_key_hash`]): an
    /// XOR fold of 32-byte chunks, explicitly not a security-grade hash.
    pub fn public_key_hash(&self) -> (r: [u8; 32])
        ensures
            r@ == spec_key_hash(self.spec_pk()),
    {
        let mut hash: [u8; 32] = [0u8; 32];
        assert(hash@ =~= spec_fold(self.pk@, 0));
        let len = self.pk.len();
        let mut p: usize = 0;
        while p < len
            invariant
                p <= len,
                len == self.pk@.len(),
                hash@ == spec_fold(self.pk@, p as int),
            decreases len - p,
        {
            let chunk: u8 = ((p / 32) % 256) as u8;
            let mixed = self.pk[p].wrapping_add(chunk);
            proof {
                let pi = p as int;
                let c = (pi / 32) % 256;
                assert(chunk == c as u8);
                assert(self.pk@[pi] + c < 512);
                assert(mixed == ((self.pk@[pi] + c) % 256) as u8);
            }
            hash[p % 32] = hash[p % 32] ^ mixed;
            assert(hash@ =~= spec_fold(self.pk@, p as int + 1));
            p = p + 1;
        }
        hash
    }

    /// Sign message bytes with the wallet's secret key.
    ///
    /// The stored key bytes are re-parsed on every call as a defensive check;
    /// if they no longer form a well-sized secret key the call fails with
    /// `KeyDeserializationFailed`, and succeeds otherwise. A returned
    /// signature has the scheme's fixed size and, on a well-formed wallet,
    /// verifies under this wallet's public key.
    pub fn sign_transaction(&self, message: &[u8]) -> (r: Result<Vec<u8>, SanctuaryError>)
        ensures
            r is Ok <==> self.spec_sk().len() == DILITHIUM2_SK_SIZE,
            r matches Ok(sig) ==> sig@.len() == DILITHIUM2_SIG_SIZE,
            r matches Ok(sig) ==> (self.wf() ==> spec_verify(sig@, message@, self.spec_pk())),
            r matches Err(e) ==> e == SanctuaryError::KeyDeserializationFailed,
    {
        match dilithium_detached_sign(message, self.sk.as_slice()) {
            Some(sig) => Ok(sig),
            None => Err(SanctuaryError::KeyDeserializationFailed),
        }
    }

    /// Validate and verify an untrusted (public key, message, signature)
    /// triple, as an external on-chain verifier would.
    ///
    /// Sizes are checked before any cryptographic parsing: a public key that
    /// is not 1312 bytes fails with `InvalidPublicKeySize`, then a signature
    /// that is not 2420 bytes fails with `InvalidSignatureSize`. On
    /// well-shaped input the result is the boolean verdict of the signature
    /// scheme — a cryptographically invalid signature is `Ok(false)`, never an
    /// error.
    pub fn verify_transaction(pk_bytes: &[u8], message: &[u8], signature_bytes: &[u8]) -> (r:
        Result<bool, SanctuaryError>)
        ensures
            pk_bytes@.len() != DILITHIUM2_PK_SIZE ==> r == Err::<bool, SanctuaryError>(
                SanctuaryError::InvalidPublicKeySize,
            ),
            pk_bytes@.len() == DILITHIUM2_PK_SIZE && signature_bytes@.len() != DILITHIUM2_SIG_SIZE
                ==> r == Err::<bool, SanctuaryError>(SanctuaryError::InvalidSignatureSize),
            pk_bytes@.len() == DILITHIUM2_PK_SIZE && signature_bytes@.len() == DILITHIUM2_SIG_SIZE
                ==> r == Ok::<bool, SanctuaryError>(
                spec_verify(signature_bytes@, message@, pk_bytes@),
            ),
    {
        if pk_bytes.len() != DILITHIUM2_PK_SIZE {
            return Err(SanctuaryError::InvalidPublicKeySize);
        }
        if signature_bytes.len() != DILITHIUM2_SIG_SIZE {
            return Err(SanctuaryError::InvalidSignatureSize);
        }
        match dilithium_verify(signature_bytes, message, pk_bytes) {
            Some(valid) => Ok(valid),
            None => Err(SanctuaryError::KeyDeserializationFailed),
        }
    }
}

impl Default for SanctuaryWallet {
    /// A default wallet is a freshly generated one.
    fn default() -> (r: Self)
        ensures
            r.wf(),
    {
        Self::new()
    }
}

} // verus!
