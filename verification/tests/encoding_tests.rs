use sanctuary_signer::transaction::SanctuaryTransaction;

#[test]
fn test_encode_exact_bytes() {
    let tx = SanctuaryTransaction {
        to: "ab".to_string(),
        value: 1,
        data: "cd".to_string(),
        nonce: 2,
    };
    let mut expected: Vec<u8> = Vec::new();
    expected.extend_from_slice(b"ab");
    expected.extend_from_slice(&[0u8; 15]);
    expected.push(1);
    expected.extend_from_slice(b"cd");
    expected.extend_from_slice(&[0u8; 7]);
    expected.push(2);
    assert_eq!(tx.encode(), expected);
}

#[test]
fn test_encode_field_widths() {
    let tx = SanctuaryTransaction {
        to: "0x742d35Cc6634C0532925a3b844Bc9e7595f8b2E1".to_string(),
        value: u128::MAX,
        data: "".to_string(),
        nonce: u64::MAX,
    };
    let encoded = tx.encode();
    assert_eq!(encoded.len(), 42 + 16 + 0 + 8);
    // value occupies exactly 16 bytes, big-endian
    assert_eq!(&encoded[42..58], &[0xffu8; 16]);
    // nonce occupies exactly 8 bytes, big-endian
    assert_eq!(&encoded[58..66], &[0xffu8; 8]);
}

#[test]
fn test_encode_big_endian_order() {
    let tx = SanctuaryTransaction {
        to: "".to_string(),
        value: 0x0102030405060708090a0b0c0d0e0f10,
        data: "".to_string(),
        nonce: 0x1112131415161718,
    };
    let encoded = tx.encode();
    assert_eq!(
        &encoded[..16],
        &[1, 2, 3, 4, 5, 6, 7, 8, 9, 10, 11, 12, 13, 14, 15, 16]
    );
    assert_eq!(&encoded[16..], &[0x11, 0x12, 0x13, 0x14, 0x15, 0x16, 0x17, 0x18]);
}

#[test]
fn test_encode_deterministic() {
    let tx = SanctuaryTransaction {
        to: "0xabc".to_string(),
        value: 1_000_000_000_000_000_000,
        data: "0x".to_string(),
        nonce: 7,
    };
    assert_eq!(tx.encode(), tx.clone().encode());
    assert_eq!(tx.encode(), tx.encode());
}

#[test]
fn test_encode_distinguishes_fields() {
    let base = SanctuaryTransaction {
        to: "0xabc".to_string(),
        value: 5,
        data: "0x".to_string(),
        nonce: 1,
    };
    let mut other = base.clone();
    other.value = 6;
    assert_ne!(base.encode(), other.encode());

    let mut other = base.clone();
    other.nonce = 2;
    assert_ne!(base.encode(), other.encode());

    let mut other = base.clone();
    other.to = "0xabd".to_string();
    assert_ne!(base.encode(), other.encode());

    let mut other = base.clone();
    other.data = "0y".to_string();
    assert_ne!(base.encode(), other.encode());
}
