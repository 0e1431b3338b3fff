//! Points of the Ristretto255 group, held in their 32-byte compressed
//! encoding, and the SHA-256 digest that turns a point into a pad.
use vstd::prelude::*;
use crate::scalar::Scalar;
use curve25519_dalek::constants::RISTRETTO_BASEPOINT_TABLE;
use curve25519_dalek::ristretto::CompressedRistretto;
use curve25519_dalek::scalar::Scalar as DalekScalar;
use sha2::{Digest, Sha256};

verus! {

/// The compressed encoding of `s * B`, for the Ristretto base point `B`.
pub uninterp spec fn basepoint_mul_of(s: nat) -> Seq<u8>;

/// The compressed encoding of `s * P` for the point `P` that `p` encodes, or
/// `None` where `p` is not the canonical encoding of a point.
pub uninterp spec fn point_mul_of(s: nat, p: Seq<u8>) -> Option<Seq<u8>>;

/// The compressed encoding of `P + Q`, or `None` where either operand is not
/// the canonical encoding of a point.
pub uninterp spec fn point_add_of(p: Seq<u8>, q: Seq<u8>) -> Option<Seq<u8>>;

/// The SHA-256 digest of a byte string.
pub uninterp spec fn sha256_of(b: Seq<u8>) -> Seq<u8>;

/// A group element, stored as its compressed encoding.
#[derive(Clone, Copy, Debug, PartialEq, Eq)]
pub struct Point {
    pub bytes: [u8; 32],
}

impl Point {
    /// Returns whether two points have the same encoding.
    pub fn same(&self, other: &Point) -> (r: bool)
        ensures
            r == (self.bytes@ == other.bytes@),
    {
        crate::bytes::bytes_equal(&self.bytes, &other.bytes)
    }
}

/// Relies on curve25519-dalek: multiplication of the Ristretto base point
/// table by a scalar, then `compress`.
#[verifier::external_body]
pub fn base_mul(s: &Scalar) -> (r: Point)
    ensures
        r.bytes@ == basepoint_mul_of(s.field()),
{
    let k = DalekScalar::from_bytes_mod_order(s.bytes);
    Point { bytes: (&k * RISTRETTO_BASEPOINT_TABLE).compress().to_bytes() }
}

/// Relies on curve25519-dalek: `CompressedRistretto::decompress`, scalar
/// multiplication of the point, then `compress`.
#[verifier::external_body]
pub fn point_mul(s: &Scalar, p: &Point) -> (r: Option<Point>)
    ensures
        r matches Some(q) ==> point_mul_of(s.field(), p.bytes@) == Some(q.bytes@),
        r is None ==> point_mul_of(s.field(), p.bytes@) is None,
{
    let k = DalekScalar::from_bytes_mod_order(s.bytes);
    match CompressedRistretto(p.bytes).decompress() {
        Some(x) => Some(Point { bytes: (&x * &k).compress().to_bytes() }),
        None => None,
    }
}

/// Relies on curve25519-dalek: `CompressedRistretto::decompress` of both
/// operands, point addition, then `compress`.
#[verifier::external_body]
pub fn point_add(p: &Point, q: &Point) -> (r: Option<Point>)
    ensures
        r matches Some(s) ==> point_add_of(p.bytes@, q.bytes@) == Some(s.bytes@),
        r is None ==> point_add_of(p.bytes@, q.bytes@) is None,
{
    match (CompressedRistretto(p.bytes).decompress(), CompressedRistretto(q.bytes).decompress()) {
        (Some(x), Some(y)) => Some(Point { bytes: (&x + &y).compress().to_bytes() }),
        _ => None,
    }
}

/// Relies on sha2's `Sha256::digest`: the 32-byte digest of the input.
#[verifier::external_body]
pub fn sha256(b: &[u8; 32]) -> (r: [u8; 32])
    ensures
        r@ == sha256_of(b@),
{
    Sha256::digest(b).into()
}

} // verus!
