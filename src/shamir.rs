//! Shamir secret sharing over the scalar field, and Lagrange interpolation
//! at zero.
use vstd::prelude::*;
use vstd::arithmetic::power::{pow, lemma_pow_increases};
use crate::scalar::{Scalar, group_order, field_inverse};

verus! {

/// A point `(x, f(x))` of a secret polynomial `f`.
#[derive(Clone, Copy, Debug, PartialEq, Eq)]
pub struct ShamirShare {
    pub x: Scalar,
    pub y: Scalar,
}

/// `a_0 + a_1 x + ... + a_{n-1} x^{n-1}` over the first `n` coefficients,
/// reduced modulo the group order.
pub open spec fn poly_eval(coeffs: Seq<Scalar>, x: nat, n: nat) -> nat
    decreases n,
{
    if n == 0 || n > coeffs.len() {
        0
    } else {
        let k = (n - 1) as nat;
        (poly_eval(coeffs, x, k) + (coeffs[k as int].val() * pow(x as int, k) as nat) % group_order())
            % group_order()
    }
}

/// The factor `j / (j - i)` of a Lagrange coefficient.
pub open spec fn lagrange_factor(i: Scalar, j: Scalar) -> nat {
    let d = ((j.val() - i.val()) % (group_order() as int)) as nat;
    (j.val() * field_inverse(d % group_order())) % group_order()
}

/// The Lagrange coefficient at zero of identifier `i` for the identifier set
/// `ids`: the product of `j / (j - i)` over the `j` of `ids` whose encoding
/// differs from that of `i`.
pub open spec fn lagrange_spec(i: Scalar, ids: Seq<Scalar>) -> nat
    decreases ids.len(),
{
    if ids.len() == 0 {
        1
    } else {
        let j = ids.last();
        let rest = lagrange_spec(i, ids.drop_last());
        if j.bytes@ == i.bytes@ {
            rest
        } else {
            (rest * lagrange_factor(i, j)) % group_order()
        }
    }
}

/// The sum over `k < n` of `y_k * lagrange_spec(x_k, xs)`, modulo the group
/// order, where `xs` are the shares' identifiers.
pub open spec fn interpolate_at_zero(shares: Seq<ShamirShare>, n: nat) -> nat
    decreases n,
{
    if n == 0 || n > shares.len() {
        0
    } else {
        let k = (n - 1) as nat;
        let xs = shares.map_values(|s: ShamirShare| s.x);
        (interpolate_at_zero(shares, k) + (shares[k as int].y.val() * lagrange_spec(
            shares[k as int].x,
            xs,
        )) % group_order()) % group_order()
    }
}

proof fn lemma_pow_base_increases(a: nat, b: nat, e: nat)
    requires
        a <= b,
    ensures
        pow(a as int, e) <= pow(b as int, e),
    decreases e,
{
    reveal(pow);
    if e > 0 {
        lemma_pow_base_increases(a, b, (e - 1) as nat);
        lemma_pow_nonnegative(a, (e - 1) as nat);
        let pa = pow(a as int, (e - 1) as nat);
        let pb = pow(b as int, (e - 1) as nat);
        assert(a * pa <= b * pb) by (nonlinear_arith)
            requires
                a <= b,
                0 <= pa <= pb,
        ;
    }
}

proof fn lemma_pow_nonnegative(a: nat, e: nat)
    ensures
        pow(a as int, e) >= 0,
    decreases e,
{
    reveal(pow);
    if e > 0 {
        lemma_pow_nonnegative(a, (e - 1) as nat);
        let pa = pow(a as int, (e - 1) as nat);
        assert(a * pa >= 0) by (nonlinear_arith)
            requires
                pa >= 0,
        ;
    }
}

/// Evaluates the polynomial with the given coefficients (constant term first)
/// at `x`, computing each power of `x` in `u64`.
pub fn evaluate_polynomial(coeffs: &Vec<Scalar>, x: u64) -> (r: Scalar)
    requires
        coeffs@.len() >= 1,
        pow(x as int, (coeffs@.len() - 1) as nat) <= u64::MAX,
    ensures
        r.val() == poly_eval(coeffs@, x as nat, coeffs@.len()),
{
    let mut acc = Scalar::from_u64(0);
    let mut power: u64 = 1;
    let mut k: usize = 0;
    proof {
        reveal(pow);
    }
    while k < coeffs.len()
        invariant
            k <= coeffs@.len(),
            coeffs@.len() >= 1,
            pow(x as int, (coeffs@.len() - 1) as nat) <= u64::MAX,
            k < coeffs@.len() ==> power == pow(x as int, k as nat),
            acc.val() == poly_eval(coeffs@, x as nat, k as nat),
        decreases coeffs@.len() - k,
    {
        let term = coeffs[k].mul(&Scalar::from_u64(power));
        acc = acc.add(&term);
        if k + 1 < coeffs.len() {
            proof {
                reveal(pow);
                let p = pow(x as int, k as nat);
                assert(pow(x as int, (k + 1) as nat) == (x as int) * p);
                assert((x as int) * p == p * (x as int)) by (nonlinear_arith);
                if x > 0 {
                    lemma_pow_increases(x as nat, (k + 1) as nat, (coeffs@.len() - 1) as nat);
                } else {
                    assert((x as int) * p == 0) by (nonlinear_arith)
                        requires
                            x == 0,
                    ;
                }
            }
            power = power * x;
        }
        k = k + 1;
    }
    acc
}

/// Returns the shares `(i, f(i))` for `i = 1..=n`, where `f` is the
/// polynomial with coefficients `coeffs`; its constant term is the secret.
pub fn split_with_coefficients(coeffs: &Vec<Scalar>, n: usize) -> (r: Vec<ShamirShare>)
    requires
        coeffs@.len() >= 1,
        pow(n as int, (coeffs@.len() - 1) as nat) <= u64::MAX,
    ensures
        r@.len() == n,
        forall|i: int|
            0 <= i < n ==> {
                &&& #[trigger] r@[i].x.val() == i + 1
                &&& r@[i].y.val() == poly_eval(coeffs@, (i + 1) as nat, coeffs@.len())
            },
{
    let mut shares: Vec<ShamirShare> = Vec::new();
    let mut i: usize = 0;
    while i < n
        invariant
            i <= n,
            coeffs@.len() >= 1,
            pow(n as int, (coeffs@.len() - 1) as nat) <= u64::MAX,
            shares@.len() == i,
            forall|j: int|
                0 <= j < i ==> {
                    &&& #[trigger] shares@[j].x.val() == j + 1
                    &&& shares@[j].y.val() == poly_eval(coeffs@, (j + 1) as nat, coeffs@.len())
                },
        decreases n - i,
    {
        let x = (i + 1) as u64;
        proof {
            lemma_pow_base_increases(x as nat, n as nat, (coeffs@.len() - 1) as nat);
        }
        let y = evaluate_polynomial(coeffs, x);
        shares.push(ShamirShare { x: Scalar::from_u64(x), y });
        i = i + 1;
    }
    shares
}

/// Splits `secret` into `n` shares, any `t` of which recover it: the
/// polynomial has `secret` as constant term and `t - 1` random coefficients.
pub fn create_shares(secret: &Scalar, n: usize, t: usize) -> (r: (Vec<ShamirShare>, Ghost<Seq<Scalar>>))
    requires
        t >= 1,
        pow(n as int, (t - 1) as nat) <= u64::MAX,
    ensures
        r.1@.len() == t,
        r.1@[0] == *secret,
        r.0@.len() == n,
        forall|i: int|
            0 <= i < n ==> {
                &&& #[trigger] r.0@[i].x.val() == i + 1
                &&& r.0@[i].y.val() == poly_eval(r.1@, (i + 1) as nat, t as nat)
            },
{
    let mut coeffs: Vec<Scalar> = Vec::new();
    coeffs.push(*secret);
    while coeffs.len() < t
        invariant
            1 <= coeffs@.len() <= t,
            coeffs@[0] == *secret,
        decreases t - coeffs@.len(),
    {
        coeffs.push(Scalar::random());
    }
    let shares = split_with_coefficients(&coeffs, n);
    (shares, Ghost(coeffs@))
}

/// The Lagrange coefficient at zero of `identifier` for the identifier set
/// `identifiers`.
pub fn lagrange_coefficient(identifier: &Scalar, identifiers: &Vec<Scalar>) -> (r: Scalar)
    ensures
        r.val() == lagrange_spec(*identifier, identifiers@),
{
    let mut acc = Scalar::from_u64(1);
    let mut k: usize = 0;
    while k < identifiers.len()
        invariant
            k <= identifiers@.len(),
            acc.val() == lagrange_spec(*identifier, identifiers@.subrange(0, k as int)),
        decreases identifiers@.len() - k,
    {
        let other = &identifiers[k];
        assert(identifiers@.subrange(0, k + 1).drop_last() =~= identifiers@.subrange(0, k as int));
        if !other.same(identifier) {
            let factor = other.mul(&other.sub(identifier).invert());
            acc = acc.mul(&factor);
        }
        k = k + 1;
    }
    assert(identifiers@.subrange(0, identifiers@.len() as int) =~= identifiers@);
    acc
}

/// Recovers the constant term from exactly `t` shares by Lagrange
/// interpolation at zero; `None` for any other number of shares.
pub fn combine_shares(shares: &Vec<ShamirShare>, t: usize) -> (r: Option<Scalar>)
    ensures
        r is Some <==> shares@.len() == t,
        r matches Some(s) ==> s.val() == interpolate_at_zero(shares@, t as nat),
{
    if shares.len() != t {
        return None;
    }
    let mut identifiers: Vec<Scalar> = Vec::new();
    let mut i: usize = 0;
    while i < shares.len()
        invariant
            i <= shares@.len(),
            identifiers@ == shares@.subrange(0, i as int).map_values(|s: ShamirShare| s.x),
        decreases shares@.len() - i,
    {
        identifiers.push(shares[i].x);
        assert(shares@.subrange(0, i + 1).map_values(|s: ShamirShare| s.x) =~= identifiers@);
        i = i + 1;
    }
    assert(shares@.subrange(0, shares@.len() as int) =~= shares@);
    let mut acc = Scalar::from_u64(0);
    let mut k: usize = 0;
    while k < shares.len()
        invariant
            k <= shares@.len(),
            identifiers@ == shares@.map_values(|s: ShamirShare| s.x),
            acc.val() == interpolate_at_zero(shares@, k as nat),
        decreases shares@.len() - k,
    {
        let lambda = lagrange_coefficient(&shares[k].x, &identifiers);
        acc = acc.add(&shares[k].y.mul(&lambda));
        k = k + 1;
    }
    Some(acc)
}

} // verus!
