//! Moderator tokens and their canonical byte encoding, which is the message
//! that the moderators sign.
use vstd::prelude::*;
use crate::UserPublicKey;
use crate::elgamal::EncryptedUserId;
use crate::point::Point;
use crate::schnorr::{self, PublicKeyPackage, Signature};

verus! {

/// The length of an encoded token: timestamp, `c_1`, `c_2` and `pk_e`.
pub const TOKEN_LEN: usize = 104;

/// A token before signing: a timestamp, the encrypted sender identity and a
/// placeholder ephemeral public key.
#[derive(Clone, Copy, Debug, PartialEq, Eq)]
pub struct UnsignedToken {
    pub timestamp: i64,
    pub x_1: EncryptedUserId,
    pub pk_e: UserPublicKey,
}

/// A token with the moderators' aggregated signature over its encoding.
pub struct SignedToken {
    pub signature: Signature,
    pub token: UnsignedToken,
}

/// The eight little-endian bytes of `x`.
pub open spec fn u64_le_bytes(x: u64) -> Seq<u8> {
    seq![
        x as u8,
        (x >> 8u64) as u8,
        (x >> 16u64) as u8,
        (x >> 24u64) as u8,
        (x >> 32u64) as u8,
        (x >> 40u64) as u8,
        (x >> 48u64) as u8,
        (x >> 56u64) as u8,
    ]
}

/// The canonical encoding of a token: the timestamp as eight little-endian
/// bytes of its two's complement, then `c_1`, `c_2` and `pk_e`, 32 bytes
/// each.
pub open spec fn token_bytes(t: UnsignedToken) -> Seq<u8> {
    u64_le_bytes(t.timestamp as u64) + t.x_1.c_1.bytes@ + t.x_1.c_2@ + t.pk_e@
}

proof fn lemma_u64_le_bytes_injective(x: u64, y: u64)
    requires
        u64_le_bytes(x) == u64_le_bytes(y),
    ensures
        x == y,
{
    let bx = u64_le_bytes(x);
    let by = u64_le_bytes(y);
    assert(bx[0] == by[0] && bx[1] == by[1] && bx[2] == by[2] && bx[3] == by[3]);
    assert(bx[4] == by[4] && bx[5] == by[5] && bx[6] == by[6] && bx[7] == by[7]);
    assert(x == y) by (bit_vector)
        requires
            x as u8 == y as u8,
            (x >> 8u64) as u8 == (y >> 8u64) as u8,
            (x >> 16u64) as u8 == (y >> 16u64) as u8,
            (x >> 24u64) as u8 == (y >> 24u64) as u8,
            (x >> 32u64) as u8 == (y >> 32u64) as u8,
            (x >> 40u64) as u8 == (y >> 40u64) as u8,
            (x >> 48u64) as u8 == (y >> 48u64) as u8,
            (x >> 56u64) as u8 == (y >> 56u64) as u8,
    ;
}

proof fn lemma_i64_as_u64_injective(a: i64, b: i64)
    requires
        a as u64 == b as u64,
    ensures
        a == b,
{
    assert(a == b) by (bit_vector)
        requires
            a as u64 == b as u64,
    ;
}

/// Tokens that differ in their timestamp, their encrypted identity or their
/// ephemeral key have different encodings, so no such change leaves the
/// signed message as it was.
pub proof fn lemma_token_bytes_injective(a: UnsignedToken, b: UnsignedToken)
    requires
        token_bytes(a) == token_bytes(b),
    ensures
        a.timestamp == b.timestamp,
        a.x_1@ == b.x_1@,
        a.pk_e@ == b.pk_e@,
{
    let sa = token_bytes(a);
    let sb = token_bytes(b);
    assert(sa.subrange(0, 8) =~= u64_le_bytes(a.timestamp as u64));
    assert(sb.subrange(0, 8) =~= u64_le_bytes(b.timestamp as u64));
    lemma_u64_le_bytes_injective(a.timestamp as u64, b.timestamp as u64);
    lemma_i64_as_u64_injective(a.timestamp, b.timestamp);
    assert(sa.subrange(8, 40) =~= a.x_1.c_1.bytes@);
    assert(sb.subrange(8, 40) =~= b.x_1.c_1.bytes@);
    assert(sa.subrange(40, 72) =~= a.x_1.c_2@);
    assert(sb.subrange(40, 72) =~= b.x_1.c_2@);
    assert(sa.subrange(72, 104) =~= a.pk_e@);
    assert(sb.subrange(72, 104) =~= b.pk_e@);
}

/// Appends the 32 bytes of `b` to `out`.
fn push_array(out: &mut Vec<u8>, b: &[u8; 32])
    ensures
        final(out)@ == old(out)@ + b@,
{
    let mut i: usize = 0;
    while i < 32
        invariant
            i <= 32,
            b@.len() == 32,
            out@ == old(out)@ + b@.subrange(0, i as int),
        decreases 32 - i,
    {
        out.push(b[i]);
        assert(b@.subrange(0, i + 1) =~= b@.subrange(0, i as int).push(b@[i as int]));
        i = i + 1;
    }
    assert(b@.subrange(0, 32) =~= b@);
}

/// The 32 bytes of `b` from `start` on.
fn read_array(b: &Vec<u8>, start: usize) -> (r: [u8; 32])
    requires
        start + 32 <= b@.len(),
    ensures
        r@ == b@.subrange(start as int, start + 32),
{
    let mut out: [u8; 32] = [0u8; 32];
    let n = b.len();
    let mut i: usize = 0;
    while i < 32
        invariant
            i <= 32,
            n == b@.len(),
            start + 32 <= b@.len(),
            out@.len() == 32,
            forall|k: int| 0 <= k < i ==> out@[k] == b@[start + k],
        decreases 32 - i,
    {
        out[i] = b[start + i];
        i = i + 1;
    }
    assert(out@ =~= b@.subrange(start as int, start + 32));
    out
}

impl UnsignedToken {
    /// The canonical encoding of the token: this exact byte string is the
    /// message that the moderators sign.
    pub fn to_bytes(&self) -> (r: Vec<u8>)
        ensures
            r@ == token_bytes(*self),
            r@.len() == TOKEN_LEN,
    {
        let x: u64 = self.timestamp as u64;
        let mut out: Vec<u8> = Vec::new();
        out.push(x as u8);
        out.push((x >> 8u64) as u8);
        out.push((x >> 16u64) as u8);
        out.push((x >> 24u64) as u8);
        out.push((x >> 32u64) as u8);
        out.push((x >> 40u64) as u8);
        out.push((x >> 48u64) as u8);
        out.push((x >> 56u64) as u8);
        assert(out@ =~= u64_le_bytes(x));
        push_array(&mut out, &self.x_1.c_1.bytes);
        push_array(&mut out, &self.x_1.c_2);
        push_array(&mut out, &self.pk_e);
        out
    }

    /// Decodes a token; `None` unless `bytes` is exactly one encoded token.
    pub fn from_bytes(bytes: &Vec<u8>) -> (r: Option<UnsignedToken>)
        ensures
            r is Some <==> bytes@.len() == TOKEN_LEN,
            r matches Some(t) ==> token_bytes(t) == bytes@,
    {
        if bytes.len() != TOKEN_LEN {
            return None;
        }
        let b0 = bytes[0] as u64;
        let b1 = bytes[1] as u64;
        let b2 = bytes[2] as u64;
        let b3 = bytes[3] as u64;
        let b4 = bytes[4] as u64;
        let b5 = bytes[5] as u64;
        let b6 = bytes[6] as u64;
        let b7 = bytes[7] as u64;
        let x: u64 = b0 | (b1 << 8u64) | (b2 << 16u64) | (b3 << 24u64) | (b4 << 32u64) | (b5 << 40u64) | (
        b6 << 48u64) | (b7 << 56u64);
        assert(x as u8 == b0 && (x >> 8u64) as u8 == b1 && (x >> 16u64) as u8 == b2 && (x >> 24u64) as u8
            == b3 && (x >> 32u64) as u8 == b4 && (x >> 40u64) as u8 == b5 && (x >> 48u64) as u8 == b6 && (x
            >> 56u64) as u8 == b7) by (bit_vector)
            requires
                b0 < 256 && b1 < 256 && b2 < 256 && b3 < 256 && b4 < 256 && b5 < 256 && b6 < 256 && b7
                    < 256,
                x == b0 | (b1 << 8u64) | (b2 << 16u64) | (b3 << 24u64) | (b4 << 32u64) | (b5 << 40u64) | (
                b6 << 48u64) | (b7 << 56u64),
        ;
        let timestamp = x as i64;
        assert((timestamp as u64) == x) by (bit_vector)
            requires
                timestamp == x as i64,
        ;
        let c_1 = read_array(bytes, 8);
        let c_2 = read_array(bytes, 40);
        let pk_e = read_array(bytes, 72);
        let t = UnsignedToken { timestamp, x_1: EncryptedUserId { c_1: Point { bytes: c_1 }, c_2 }, pk_e };
        assert(u64_le_bytes(x) =~= bytes@.subrange(0, 8));
        assert(token_bytes(t) =~= bytes@);
        Some(t)
    }
}

impl SignedToken {
    /// Checks the signature against the group verifying key over the
    /// token's encoding.
    pub fn verify(&self, keys: &PublicKeyPackage) -> (r: bool)
        ensures
            r == schnorr::verifies_of(*keys, token_bytes(self.token), self.signature),
    {
        let message = self.token.to_bytes();
        schnorr::verify(keys, &message, &self.signature)
    }
}

} // verus!
