//! Quantum-resistant wallet identities and transaction authorization for a
//! blockchain account-abstraction layer.
//!
//! A wallet owns a CRYSTALS-Dilithium level-2 key pair, transactions are
//! serialized into a canonical byte string, the wallet signs those bytes, and
//! a verification service checks untrusted (public key, message, signature)
//! triples with strict size validation before any cryptographic parsing.

use vstd::prelude::*;

pub mod dilithium;
pub mod hexstr;
pub mod transaction;
pub mod wallet;

verus! {

/// Size in bytes of a Dilithium level-2 detached signature.
pub const DILITHIUM2_SIG_SIZE: usize = 2420;

/// Size in bytes of a Dilithium level-2 public key.
pub const DILITHIUM2_PK_SIZE: usize = 1312;

/// Size in bytes of a Dilithium level-2 secret key.
pub const DILITHIUM2_SK_SIZE: usize = 2560;

/// Errors of the wallet and of the verification service.
///
/// The size errors report structural violations caught before any parsing;
/// `KeyDeserializationFailed` reports bytes that the signature scheme refuses
/// to parse; a well-formed but cryptographically invalid signature is never an
/// error, it is a boolean verification result.
#[derive(Debug, Clone, PartialEq, Eq, Structural)]
pub enum SanctuaryError {
    InvalidPublicKeySize,
    InvalidSecretKeySize,
    InvalidSignatureSize,
    SignatureVerificationFailed,
    KeyDeserializationFailed,
}

} // verus!
