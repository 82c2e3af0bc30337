//! Canonical transaction encoding: the exact byte string that gets signed.
//!
//! The wire format is a closed, delimiter-free concatenation
//! `to || value || data || nonce`, where `to` and `data` are taken as the raw
//! bytes of their hex-encoded string representation (not decoded from hex) and
//! `value` and `nonce` are fixed-width big-endian integers of 16 and 8 bytes.
//! An external verifier must replicate this layout bit for bit.

use vstd::prelude::*;
use vstd::utf8::encode_utf8;
use vstd::utf8::encode_utf8_decode_utf8;

verus! {

/// The 16 bytes of a 128-bit integer in big-endian (network) order.
pub open spec fn spec_u128_be_bytes(x: u128) -> Seq<u8> {
    seq![
        (x >> 120) as u8,
        (x >> 112) as u8,
        (x >> 104) as u8,
        (x >> 96) as u8,
        (x >> 88) as u8,
        (x >> 80) as u8,
        (x >> 72) as u8,
        (x >> 64) as u8,
        (x >> 56) as u8,
        (x >> 48) as u8,
        (x >> 40) as u8,
        (x >> 32) as u8,
        (x >> 24) as u8,
        (x >> 16) as u8,
        (x >> 8) as u8,
        x as u8,
    ]
}

/// The 8 bytes of a 64-bit integer in big-endian (network) order.
pub open spec fn spec_u64_be_bytes(x: u64) -> Seq<u8> {
    seq![
        (x >> 56) as u8,
        (x >> 48) as u8,
        (x >> 40) as u8,
        (x >> 32) as u8,
        (x >> 24) as u8,
        (x >> 16) as u8,
        (x >> 8) as u8,
        x as u8,
    ]
}

pub(crate) fn u128_to_be_bytes(x: u128) -> (r: Vec<u8>)
    ensures
        r@ == spec_u128_be_bytes(x),
{
    let mut r: Vec<u8> = Vec::new();
    r.push(#[verifier::truncate] ((x >> 120) as u8));
    r.push(#[verifier::truncate] ((x >> 112) as u8));
    r.push(#[verifier::truncate] ((x >> 104) as u8));
    r.push(#[verifier::truncate] ((x >> 96) as u8));
    r.push(#[verifier::truncate] ((x >> 88) as u8));
    r.push(#[verifier::truncate] ((x >> 80) as u8));
    r.push(#[verifier::truncate] ((x >> 72) as u8));
    r.push(#[verifier::truncate] ((x >> 64) as u8));
    r.push(#[verifier::truncate] ((x >> 56) as u8));
    r.push(#[verifier::truncate] ((x >> 48) as u8));
    r.push(#[verifier::truncate] ((x >> 40) as u8));
    r.push(#[verifier::truncate] ((x >> 32) as u8));
    r.push(#[verifier::truncate] ((x >> 24) as u8));
    r.push(#[verifier::truncate] ((x >> 16) as u8));
    r.push(#[verifier::truncate] ((x >> 8) as u8));
    r.push(#[verifier::truncate] (x as u8));
    assert(r@ =~= spec_u128_be_bytes(x));
    r
}

pub(crate) fn u64_to_be_bytes(x: u64) -> (r: Vec<u8>)
    ensures
        r@ == spec_u64_be_bytes(x),
{
    let mut r: Vec<u8> = Vec::new();
    r.push(#[verifier::truncate] ((x >> 56) as u8));
    r.push(#[verifier::truncate] ((x >> 48) as u8));
    r.push(#[verifier::truncate] ((x >> 40) as u8));
    r.push(#[verifier::truncate] ((x >> 32) as u8));
    r.push(#[verifier::truncate] ((x >> 24) as u8));
    r.push(#[verifier::truncate] ((x >> 16) as u8));
    r.push(#[verifier::truncate] ((x >> 8) as u8));
    r.push(#[verifier::truncate] (x as u8));
    assert(r@ =~= spec_u64_be_bytes(x));
    r
}

/// Two 128-bit integers with the same big-endian bytes are equal.
pub proof fn lemma_u128_be_bytes_injective(x: u128, y: u128)
    requires
        spec_u128_be_bytes(x) == spec_u128_be_bytes(y),
    ensures
        x == y,
{
    let a = spec_u128_be_bytes(x);
    let b = spec_u128_be_bytes(y);
    assert(a[0] == b[0] && a[1] == b[1] && a[2] == b[2] && a[3] == b[3] && a[4] == b[4] && a[5]
        == b[5] && a[6] == b[6] && a[7] == b[7] && a[8] == b[8] && a[9] == b[9] && a[10] == b[10]
        && a[11] == b[11] && a[12] == b[12] && a[13] == b[13] && a[14] == b[14] && a[15] == b[15]);
    assert(((x >> 120) as u8 == (y >> 120) as u8 && (x >> 112) as u8 == (y >> 112) as u8 && (x
        >> 104) as u8 == (y >> 104) as u8 && (x >> 96) as u8 == (y >> 96) as u8 && (x >> 88) as u8
        == (y >> 88) as u8 && (x >> 80) as u8 == (y >> 80) as u8 && (x >> 72) as u8 == (y
        >> 72) as u8 && (x >> 64) as u8 == (y >> 64) as u8 && (x >> 56) as u8 == (y >> 56) as u8
        && (x >> 48) as u8 == (y >> 48) as u8 && (x >> 40) as u8 == (y >> 40) as u8 && (x
        >> 32) as u8 == (y >> 32) as u8 && (x >> 24) as u8 == (y >> 24) as u8 && (x >> 16) as u8
        == (y >> 16) as u8 && (x >> 8) as u8 == (y >> 8) as u8 && x as u8 == y as u8) ==> x == y)
        by (bit_vector);
}

/// Two 64-bit integers with the same big-endian bytes are equal.
pub proof fn lemma_u64_be_bytes_injective(x: u64, y: u64)
    requires
        spec_u64_be_bytes(x) == spec_u64_be_bytes(y),
    ensures
        x == y,
{
    let a = spec_u64_be_bytes(x);
    let b = spec_u64_be_bytes(y);
    assert(a[0] == b[0] && a[1] == b[1] && a[2] == b[2] && a[3] == b[3] && a[4] == b[4] && a[5]
        == b[5] && a[6] == b[6] && a[7] == b[7]);
    assert(((x >> 56) as u8 == (y >> 56) as u8 && (x >> 48) as u8 == (y >> 48) as u8 && (x
        >> 40) as u8 == (y >> 40) as u8 && (x >> 32) as u8 == (y >> 32) as u8 && (x >> 24) as u8
        == (y >> 24) as u8 && (x >> 16) as u8 == (y >> 16) as u8 && (x >> 8) as u8 == (y
        >> 8) as u8 && x as u8 == y as u8) ==> x == y) by (bit_vector);
}

/// A transaction to be authorized: target address and calldata as hex-encoded
/// strings, native-token amount, and a replay-protection nonce.
#[derive(Debug, Clone)]
pub struct SanctuaryTransaction {
    /// Target address (hex encoded).
    pub to: String,
    /// Value in the token's smallest unit.
    pub value: u128,
    /// Calldata (hex encoded).
    pub data: String,
    /// Nonce for replay protection.
    pub nonce: u64,
}

/// The canonical signing bytes of a transaction: the UTF-8 bytes of `to`, the
/// 16 big-endian bytes of `value`, the UTF-8 bytes of `data`, and the 8
/// big-endian bytes of `nonce`, concatenated without delimiters.
pub open spec fn spec_encode(tx: SanctuaryTransaction) -> Seq<u8> {
    encode_utf8(tx.to@) + spec_u128_be_bytes(tx.value) + encode_utf8(tx.data@) + spec_u64_be_bytes(
        tx.nonce,
    )
}

impl SanctuaryTransaction {
    /// Encode the transaction into the exact byte string that gets signed.
    ///
    /// The encoding is a pure function of the four fields, so equal
    /// transactions always produce byte-identical encodings.
    pub fn encode(&self) -> (r: Vec<u8>)
        ensures
            r@ == spec_encode(*self),
    {
        let mut encoded: Vec<u8> = Vec::new();
        encoded.extend_from_slice(self.to.as_str().as_bytes());
        assert(encoded@ =~= encode_utf8(self.to@));
        let value_bytes = u128_to_be_bytes(self.value);
        encoded.extend_from_slice(value_bytes.as_slice());
        assert(encoded@ =~= encode_utf8(self.to@) + spec_u128_be_bytes(self.value));
        encoded.extend_from_slice(self.data.as_str().as_bytes());
        assert(encoded@ =~= encode_utf8(self.to@) + spec_u128_be_bytes(self.value) + encode_utf8(
            self.data@,
        ));
        let nonce_bytes = u64_to_be_bytes(self.nonce);
        encoded.extend_from_slice(nonce_bytes.as_slice());
        assert(encoded@ =~= spec_encode(*self));
        encoded
    }
}

/// Law: the canonical encoding is deterministic, a pure function of the four
/// fields: transactions that agree field by field encode to the same bytes.
pub proof fn lemma_encode_deterministic(a: SanctuaryTransaction, b: SanctuaryTransaction)
    requires
        a.to@ == b.to@,
        a.value == b.value,
        a.data@ == b.data@,
        a.nonce == b.nonce,
    ensures
        spec_encode(a) == spec_encode(b),
{
}

/// Law: the encoding is injective among transactions whose `to` fields occupy
/// the same number of bytes: if such encodings agree, every field agrees.
///
/// Transactions whose `to` fields differ in byte length can collide across the
/// unmarked `to`/`data` boundary of the delimiter-free format; that is a known
/// limitation of the wire format, so this law does not cover those pairs.
pub proof fn lemma_encode_injective(a: SanctuaryTransaction, b: SanctuaryTransaction)
    requires
        encode_utf8(a.to@).len() == encode_utf8(b.to@).len(),
        spec_encode(a) == spec_encode(b),
    ensures
        a.to@ == b.to@,
        a.value == b.value,
        a.data@ == b.data@,
        a.nonce == b.nonce,
{
    let ta = encode_utf8(a.to@);
    let tb = encode_utf8(b.to@);
    let va = spec_u128_be_bytes(a.value);
    let vb = spec_u128_be_bytes(b.value);
    let da = encode_utf8(a.data@);
    let db = encode_utf8(b.data@);
    let na = spec_u64_be_bytes(a.nonce);
    let nb = spec_u64_be_bytes(b.nonce);
    let ea = spec_encode(a);
    let eb = spec_encode(b);
    let l = ta.len() as int;
    assert(va.len() == 16 && vb.len() == 16 && na.len() == 8 && nb.len() == 8);
    assert(ea.len() == ta.len() + va.len() + da.len() + na.len());
    assert(eb.len() == tb.len() + vb.len() + db.len() + nb.len());
    assert(da.len() == db.len());
    let m = l + 16 + da.len() as int;

    assert(ta =~= ea.subrange(0, l));
    assert(tb =~= eb.subrange(0, l));
    encode_utf8_decode_utf8(a.to@);
    encode_utf8_decode_utf8(b.to@);
    assert(a.to@ == b.to@);

    assert(va =~= ea.subrange(l, l + 16));
    assert(vb =~= eb.subrange(l, l + 16));
    lemma_u128_be_bytes_injective(a.value, b.value);

    assert(da =~= ea.subrange(l + 16, m));
    assert(db =~= eb.subrange(l + 16, m));
    encode_utf8_decode_utf8(a.data@);
    encode_utf8_decode_utf8(b.data@);
    assert(a.data@ == b.data@);

    assert(na =~= ea.subrange(m, m + 8));
    assert(nb =~= eb.subrange(m, m + 8));
    lemma_u64_be_bytes_injective(a.nonce, b.nonce);
}

} // verus!
