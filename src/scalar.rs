//! Elements of the Ristretto255 scalar field, modelled as integers below the
//! group order and held in their 32-byte little-endian encoding.
use vstd::prelude::*;
use vstd::arithmetic::power::pow;
use vstd::arithmetic::power2::pow2;
use curve25519_dalek::scalar::Scalar as DalekScalar;

verus! {

/// The order of the Ristretto255 group, `2^252 + 27742317777372353535851937790883648493`.
pub open spec fn group_order() -> nat {
    pow2(252) + 27742317777372353535851937790883648493
}

/// The natural number that a little-endian byte string encodes.
pub open spec fn le_nat(b: Seq<u8>) -> nat
    decreases b.len(),
{
    if b.len() == 0 {
        0
    } else {
        b[0] as nat + 256 * le_nat(b.drop_first())
    }
}

/// The multiplicative inverse in the scalar field, by Fermat's little theorem.
pub open spec fn field_inverse(x: nat) -> nat {
    (pow(x as int, (group_order() - 2) as nat) % (group_order() as int)) as nat
}

/// A scalar, stored as its 32-byte little-endian encoding.
#[derive(Clone, Copy, Debug, PartialEq, Eq)]
pub struct Scalar {
    pub bytes: [u8; 32],
}

impl Scalar {
    /// The integer that the scalar's bytes encode.
    pub open spec fn val(self) -> nat {
        le_nat(self.bytes@)
    }

    /// The scalar's value in the field.
    pub open spec fn field(self) -> nat {
        self.val() % group_order()
    }

    /// Returns whether two scalars have the same encoding.
    pub fn same(&self, other: &Scalar) -> (r: bool)
        ensures
            r == (self.bytes@ == other.bytes@),
    {
        crate::bytes::bytes_equal(&self.bytes, &other.bytes)
    }

    /// Builds a scalar from a canonical encoding, or `None` where the bytes
    /// encode an integer not below the group order.
    pub fn from_canonical_bytes(bytes: [u8; 32]) -> (r: Option<Scalar>)
        ensures
            r matches Some(s) ==> s.bytes@ == bytes@,
            r is Some <==> le_nat(bytes@) < group_order(),
    {
        if is_canonical(&bytes) {
            Some(Scalar { bytes })
        } else {
            None
        }
    }

    /// The scalar holding the integer `x`.
    pub fn from_u64(x: u64) -> (r: Scalar)
        ensures
            r.val() == x,
    {
        scalar_from_u64(x)
    }

    /// A scalar drawn uniformly from the field.
    pub fn random() -> (r: Scalar)
        ensures
            r.val() < group_order(),
    {
        random_scalar()
    }

    /// `self + other` in the field.
    pub fn add(&self, other: &Scalar) -> (r: Scalar)
        ensures
            r.val() == (self.val() + other.val()) % group_order(),
    {
        scalar_add(self, other)
    }

    /// `self - other` in the field.
    pub fn sub(&self, other: &Scalar) -> (r: Scalar)
        ensures
            r.val() == (self.val() - other.val()) % (group_order() as int),
    {
        scalar_sub(self, other)
    }

    /// `self * other` in the field.
    pub fn mul(&self, other: &Scalar) -> (r: Scalar)
        ensures
            r.val() == (self.val() * other.val()) % group_order(),
    {
        scalar_mul(self, other)
    }

    /// The multiplicative inverse of `self`; zero maps to zero.
    pub fn invert(&self) -> (r: Scalar)
        ensures
            r.val() == field_inverse(self.field()),
    {
        scalar_invert(self)
    }
}

/// Relies on `Scalar::from_canonical_bytes` of curve25519-dalek: it accepts
/// exactly the little-endian encodings of integers below the group order.
#[verifier::external_body]
fn is_canonical(bytes: &[u8; 32]) -> (r: bool)
    ensures
        r == (le_nat(bytes@) < group_order()),
{
    bool::from(DalekScalar::from_canonical_bytes(*bytes).is_some())
}

/// Relies on curve25519-dalek's `From<u64> for Scalar`: the scalar holding `x`.
#[verifier::external_body]
fn scalar_from_u64(x: u64) -> (r: Scalar)
    ensures
        r.val() == x,
{
    Scalar { bytes: DalekScalar::from(x).to_bytes() }
}

/// Relies on curve25519-dalek's `Scalar::random`, which reduces 64 random
/// bytes modulo the group order, so the encoding it returns is canonical.
#[verifier::external_body]
fn random_scalar() -> (r: Scalar)
    ensures
        r.val() < group_order(),
{
    Scalar { bytes: DalekScalar::random(&mut rand::thread_rng()).to_bytes() }
}

/// Relies on curve25519-dalek's scalar addition, which reduces modulo the
/// group order, and on `from_bytes_mod_order` for reading the operands.
#[verifier::external_body]
fn scalar_add(a: &Scalar, b: &Scalar) -> (r: Scalar)
    ensures
        r.val() == (a.val() + b.val()) % group_order(),
{
    let x = DalekScalar::from_bytes_mod_order(a.bytes);
    let y = DalekScalar::from_bytes_mod_order(b.bytes);
    Scalar { bytes: (&x + &y).to_bytes() }
}

/// Relies on curve25519-dalek's scalar subtraction, which reduces modulo the
/// group order, and on `from_bytes_mod_order` for reading the operands.
#[verifier::external_body]
fn scalar_sub(a: &Scalar, b: &Scalar) -> (r: Scalar)
    ensures
        r.val() == (a.val() - b.val()) % (group_order() as int),
{
    let x = DalekScalar::from_bytes_mod_order(a.bytes);
    let y = DalekScalar::from_bytes_mod_order(b.bytes);
    Scalar { bytes: (&x - &y).to_bytes() }
}

/// Relies on curve25519-dalek's scalar multiplication, which reduces modulo
/// the group order, and on `from_bytes_mod_order` for reading the operands.
#[verifier::external_body]
fn scalar_mul(a: &Scalar, b: &Scalar) -> (r: Scalar)
    ensures
        r.val() == (a.val() * b.val()) % group_order(),
{
    let x = DalekScalar::from_bytes_mod_order(a.bytes);
    let y = DalekScalar::from_bytes_mod_order(b.bytes);
    Scalar { bytes: (&x * &y).to_bytes() }
}

/// Relies on curve25519-dalek's `Scalar::invert`, which raises its argument
/// to the power `group_order - 2` (the inverse of a nonzero scalar, zero
/// for zero).
#[verifier::external_body]
fn scalar_invert(a: &Scalar) -> (r: Scalar)
    ensures
        r.val() == field_inverse(a.field()),
{
    Scalar { bytes: DalekScalar::from_bytes_mod_order(a.bytes).invert().to_bytes() }
}

} // verus!
