use sanctuary_signer::transaction::SanctuaryTransaction;
use sanctuary_signer::wallet::SanctuaryWallet;
use sanctuary_signer::SanctuaryError;
use sanctuary_signer::DILITHIUM2_PK_SIZE;
use sanctuary_signer::DILITHIUM2_SIG_SIZE;

#[test]
fn test_undersized_public_key_rejected() {
    let garbage_pk = [0u8; 100];
    let message = b"any message";
    let signature = [0u8; 2420];
    let result = SanctuaryWallet::verify_transaction(&garbage_pk, message, &signature);
    assert_eq!(result, Err(SanctuaryError::InvalidPublicKeySize));
}

#[test]
fn test_undersized_signature_rejected() {
    let wallet = SanctuaryWallet::new();
    let message = b"any message";
    let short_signature = [0u8; 100];
    let result = SanctuaryWallet::verify_transaction(wallet.public_key(), message, &short_signature);
    assert_eq!(result, Err(SanctuaryError::InvalidSignatureSize));

    let long_signature = [0u8; 2421];
    let result = SanctuaryWallet::verify_transaction(wallet.public_key(), message, &long_signature);
    assert_eq!(result, Err(SanctuaryError::InvalidSignatureSize));
}

#[test]
fn test_garbage_signature_of_right_size_is_ok_false() {
    // A well-shaped but forged signature is a boolean verdict, never an error.
    let wallet = SanctuaryWallet::new();
    let message = b"any message";
    let forged = [0u8; 2420];
    let result = SanctuaryWallet::verify_transaction(wallet.public_key(), message, &forged);
    assert_eq!(result, Ok(false));
}

#[test]
fn test_signatures_from_other_wallet_rejected() {
    let wallet = SanctuaryWallet::new();
    let other = SanctuaryWallet::new();
    let message = b"Transfer 100 ETH to Alice";
    let signature = wallet.sign_transaction(message).expect("Signing failed");
    let is_valid = SanctuaryWallet::verify_transaction(other.public_key(), message, &signature)
        .expect("Verification failed");
    assert!(!is_valid, "Signature under a different public key should be rejected");
}

#[test]
fn test_end_to_end_nonce_mismatch() {
    // Wallet, transaction, encode, sign, verify; then the same signature
    // against the encoding of the next nonce must not verify.
    let wallet = SanctuaryWallet::new();
    let tx = SanctuaryTransaction {
        to: "0xabc".to_string(),
        value: 1_000_000_000_000_000_000,
        data: "0x".to_string(),
        nonce: 1,
    };
    let tx_bytes = tx.encode();
    let signature = wallet.sign_transaction(&tx_bytes).expect("Signing failed");
    assert_eq!(signature.len(), DILITHIUM2_SIG_SIZE);
    let is_valid = SanctuaryWallet::verify_transaction(wallet.public_key(), &tx_bytes, &signature)
        .expect("Verification failed");
    assert!(is_valid);

    let mut replayed = tx.clone();
    replayed.nonce = 2;
    let replayed_bytes = replayed.encode();
    let is_valid = SanctuaryWallet::verify_transaction(
        wallet.public_key(),
        &replayed_bytes,
        &signature,
    ).expect("Verification failed");
    assert!(!is_valid, "Signature must not cover a different nonce");
}

#[test]
fn test_public_key_hex_matches_bytes() {
    let wallet = SanctuaryWallet::new();
    let expected: String = wallet
        .public_key()
        .iter()
        .map(|b| format!("{:02x}", b))
        .collect();
    assert_eq!(wallet.public_key_hex(), expected);
    assert_eq!(wallet.public_key_hex().len(), 2 * DILITHIUM2_PK_SIZE);
}

#[test]
fn test_public_key_hash_is_chunk_fold() {
    let wallet = SanctuaryWallet::new();
    let pk = wallet.public_key();
    let mut expected = [0u8; 32];
    for (i, chunk) in pk.chunks(32).enumerate() {
        for (j, &byte) in chunk.iter().enumerate() {
            expected[j] ^= byte.wrapping_add(i as u8);
        }
    }
    assert_eq!(wallet.public_key_hash(), expected);
}
