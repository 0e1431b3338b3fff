//! Threshold ElGamal over Ristretto255 with a hashed pad: the identity is
//! XOR-ed with the SHA-256 digest of the shared point.
use vstd::prelude::*;
use vstd::arithmetic::power::pow;
use crate::UserId;
use crate::bytes::{xor_bytes, xor_seq};
use crate::error::CerberusError;
use crate::point::{Point, base_mul, point_mul, point_add, sha256, basepoint_mul_of, point_mul_of, point_add_of, sha256_of};
use crate::scalar::{Scalar, group_order};
use crate::shamir::{ShamirShare, create_shares, lagrange_coefficient, lagrange_spec, poly_eval};

verus! {

/// The group public key `Y = x * B`.
#[derive(Clone, Copy, Debug, PartialEq, Eq)]
pub struct PublicKey(pub Point);

/// One moderator's share of the decryption key: `(i, f(i))` and the group
/// public key.
#[derive(Clone, Copy, Debug, PartialEq, Eq)]
pub struct KeyShare {
    pub identifier: Scalar,
    pub sk: Scalar,
    pub pk: PublicKey,
}

/// An encrypted identity `(c_1, c_2) = (r * B, H(r * Y) XOR id)`.
#[derive(Clone, Copy, Debug, PartialEq, Eq)]
pub struct EncryptedUserId {
    pub c_1: Point,
    pub c_2: [u8; 32],
}

/// A decryption share `(i, f(i) * c_1)`.
#[derive(Clone, Copy, Debug, PartialEq, Eq)]
pub struct DecryptionShare(pub Scalar, pub Point);

impl EncryptedUserId {
    pub open spec fn view(self) -> (Seq<u8>, Seq<u8>) {
        (self.c_1.bytes@, self.c_2@)
    }

    /// Returns whether two ciphertexts are the same bytes.
    pub fn same(&self, other: &EncryptedUserId) -> (r: bool)
        ensures
            r == (self@ == other@),
    {
        self.c_1.same(&other.c_1) && crate::bytes::bytes_equal(&self.c_2, &other.c_2)
    }
}

/// The encryption of `id` under the public key encoded by `y`, with
/// randomness `r`; `None` where `y` encodes no point.
pub open spec fn encryption_of(y: Seq<u8>, id: Seq<u8>, r: nat) -> Option<(Seq<u8>, Seq<u8>)> {
    match point_mul_of(r, y) {
        Some(shared) => Some((basepoint_mul_of(r), xor_seq(sha256_of(shared), id))),
        None => None,
    }
}

/// The identifiers of a sequence of decryption shares.
pub open spec fn share_ids(shares: Seq<DecryptionShare>) -> Seq<Scalar> {
    shares.map_values(|s: DecryptionShare| s.0)
}

/// No two shares carry the same identifier encoding.
pub open spec fn distinct_ids(shares: Seq<DecryptionShare>) -> bool {
    forall|i: int, j: int|
        0 <= i < j < shares.len() ==> shares[i].0.bytes@ != shares[j].0.bytes@
}

/// The Lagrange-weighted share `lambda_k * d_k`, within `shares`.
pub open spec fn weighted_share(shares: Seq<DecryptionShare>, k: int) -> Option<Seq<u8>> {
    point_mul_of(lagrange_spec(shares[k].0, share_ids(shares)) % group_order(), shares[k].1.bytes@)
}

/// The sum of the first `n` Lagrange-weighted shares (`n >= 1`); `None`
/// where a point operation fails.
pub open spec fn weighted_sum(shares: Seq<DecryptionShare>, n: nat) -> Option<Seq<u8>>
    decreases n,
{
    if n <= 1 {
        weighted_share(shares, 0)
    } else {
        match (weighted_sum(shares, (n - 1) as nat), weighted_share(shares, n - 1)) {
            (Some(a), Some(b)) => point_add_of(a, b),
            _ => None,
        }
    }
}

proof fn lemma_weighted_sum_fails(shares: Seq<DecryptionShare>, m: nat, n: nat)
    requires
        1 <= m <= n,
        weighted_sum(shares, m) is None,
    ensures
        weighted_sum(shares, n) is None,
    decreases n - m,
{
    if m < n {
        lemma_weighted_sum_fails(shares, m, (n - 1) as nat);
    }
}

/// What decrypting `c_2` with `shares` for a decryption threshold of
/// `threshold` yields: the identity, or the error.
pub open spec fn decryption_of(c_2: Seq<u8>, shares: Seq<DecryptionShare>, threshold: nat) -> Result<
    Seq<u8>,
    CerberusError,
> {
    if shares.len() == 0 || shares.len() < threshold {
        Err(CerberusError::NotEnoughShares)
    } else if !distinct_ids(shares) {
        Err(CerberusError::DuplicateShare)
    } else {
        match weighted_sum(shares, shares.len()) {
            Some(d) => Ok(xor_seq(sha256_of(d), c_2)),
            None => Err(CerberusError::InvalidPoint),
        }
    }
}

impl PublicKey {
    /// Encrypts `user_id` with randomness `randomness`:
    /// `(r * B, SHA256(r * Y) XOR user_id)`.
    pub fn encrypt(&self, user_id: &UserId, randomness: &Scalar) -> (r: Result<EncryptedUserId, CerberusError>)
        ensures
            r matches Ok(ct) ==> encryption_of(self.0.bytes@, user_id.0@, randomness.field()) == Some(ct@),
            r matches Err(e) ==> e == CerberusError::InvalidPoint && encryption_of(
                self.0.bytes@,
                user_id.0@,
                randomness.field(),
            ) is None,
    {
        let c_1 = base_mul(randomness);
        match point_mul(randomness, &self.0) {
            Some(shared) => {
                let pad = sha256(&shared.bytes);
                let c_2 = xor_bytes(pad, &user_id.0);
                Ok(EncryptedUserId { c_1, c_2 })
            },
            None => Err(CerberusError::InvalidPoint),
        }
    }
}

impl KeyShare {
    /// This moderator's decryption share `(i, sk_i * c_1)` for `x_1`.
    pub fn decryption_share(&self, x_1: &EncryptedUserId) -> (r: Result<DecryptionShare, CerberusError>)
        ensures
            r matches Ok(d) ==> d.0 == self.identifier && point_mul_of(self.sk.field(), x_1.c_1.bytes@)
                == Some(d.1.bytes@),
            r matches Err(e) ==> e == CerberusError::InvalidPoint && point_mul_of(
                self.sk.field(),
                x_1.c_1.bytes@,
            ) is None,
    {
        match point_mul(&self.sk, &x_1.c_1) {
            Some(d) => Ok(DecryptionShare(self.identifier, d)),
            None => Err(CerberusError::InvalidPoint),
        }
    }

    /// Encrypts under the group public key that this share belongs to.
    pub fn encrypt(&self, user_id: &UserId, randomness: &Scalar) -> (r: Result<EncryptedUserId, CerberusError>)
        ensures
            r matches Ok(ct) ==> encryption_of(self.pk.0.bytes@, user_id.0@, randomness.field()) == Some(ct@),
            r matches Err(e) ==> e == CerberusError::InvalidPoint && encryption_of(
                self.pk.0.bytes@,
                user_id.0@,
                randomness.field(),
            ) is None,
    {
        self.pk.encrypt(user_id, randomness)
    }
}

impl EncryptedUserId {
    /// Recovers the identity from decryption shares: the Lagrange-weighted
    /// sum `D` of the shares, then `SHA256(D) XOR c_2`. Fewer shares than
    /// the decryption threshold fail; with exactly a threshold of shares of
    /// distinct moderators the result is the encrypted identity.
    pub fn decrypt_with_shares(&self, shares: &Vec<DecryptionShare>, threshold: usize) -> (r: Result<
        UserId,
        CerberusError,
    >)
        ensures
            r matches Ok(id) ==> decryption_of(self.c_2@, shares@, threshold as nat) == Ok::<
                Seq<u8>,
                CerberusError,
            >(id.0@),
            r matches Err(e) ==> decryption_of(self.c_2@, shares@, threshold as nat) == Err::<
                Seq<u8>,
                CerberusError,
            >(e),
    {
        if shares.len() == 0 || shares.len() < threshold {
            return Err(CerberusError::NotEnoughShares);
        }
        let mut identifiers: Vec<Scalar> = Vec::new();
        let mut i: usize = 0;
        while i < shares.len()
            invariant
                i <= shares@.len(),
                shares@.len() >= 1 && shares@.len() >= threshold,
                identifiers@ == share_ids(shares@.subrange(0, i as int)),
            decreases shares@.len() - i,
        {
            identifiers.push(shares[i].0);
            assert(share_ids(shares@.subrange(0, i + 1)) =~= identifiers@);
            i = i + 1;
        }
        assert(shares@.subrange(0, shares@.len() as int) =~= shares@);
        assert(forall|j: int| 0 <= j < shares@.len() ==> #[trigger] identifiers@[j] == shares@[j].0);
        if !all_distinct(&identifiers) {
            return Err(CerberusError::DuplicateShare);
        }
        assert(distinct_ids(shares@)) by {
            assert forall|a: int, b: int| 0 <= a < b < shares@.len() implies shares@[a].0.bytes@
                != shares@[b].0.bytes@ by {
                assert(identifiers@[a] == shares@[a].0);
                assert(identifiers@[b] == shares@[b].0);
            }
        }
        let first = lagrange_coefficient(&shares[0].0, &identifiers);
        let mut sum = match point_mul(&first, &shares[0].1) {
            Some(p) => p,
            None => {
                proof {
                    lemma_weighted_sum_fails(shares@, 1, shares@.len() as nat);
                }
                return Err(CerberusError::InvalidPoint);
            },
        };
        let mut k: usize = 1;
        while k < shares.len()
            invariant
                1 <= k <= shares@.len(),
                shares@.len() >= threshold,
                identifiers@ == share_ids(shares@),
                distinct_ids(shares@),
                weighted_sum(shares@, k as nat) == Some(sum.bytes@),
            decreases shares@.len() - k,
        {
            let lambda = lagrange_coefficient(&shares[k].0, &identifiers);
            let term = match point_mul(&lambda, &shares[k].1) {
                Some(p) => p,
                None => {
                    proof {
                        lemma_weighted_sum_fails(shares@, (k + 1) as nat, shares@.len() as nat);
                    }
                    return Err(CerberusError::InvalidPoint);
                },
            };
            sum = match point_add(&sum, &term) {
                Some(p) => p,
                None => {
                    proof {
                        lemma_weighted_sum_fails(shares@, (k + 1) as nat, shares@.len() as nat);
                    }
                    return Err(CerberusError::InvalidPoint);
                },
            };
            k = k + 1;
        }
        let pad = sha256(&sum.bytes);
        Ok(UserId(xor_bytes(pad, &self.c_2)))
    }
}

/// Returns whether no two identifiers share an encoding.
fn all_distinct(ids: &Vec<Scalar>) -> (r: bool)
    ensures
        r == (forall|i: int, j: int| 0 <= i < j < ids@.len() ==> ids@[i].bytes@ != ids@[j].bytes@),
{
    let mut i: usize = 0;
    while i < ids.len()
        invariant
            i <= ids@.len(),
            forall|a: int, b: int| 0 <= a < b < ids@.len() && a < i ==> ids@[a].bytes@ != ids@[b].bytes@,
        decreases ids@.len() - i,
    {
        let mut j: usize = i + 1;
        while j < ids.len()
            invariant
                i < ids@.len(),
                i + 1 <= j <= ids@.len(),
                forall|a: int, b: int| 0 <= a < b < ids@.len() && a < i ==> ids@[a].bytes@ != ids@[b].bytes@,
                forall|b: int| i < b < j ==> ids@[i as int].bytes@ != ids@[b].bytes@,
            decreases ids@.len() - j,
        {
            if ids[i].same(&ids[j]) {
                return false;
            }
            j = j + 1;
        }
        i = i + 1;
    }
    true
}

/// Deals the decryption key: a random secret `x`, shares `(i, f(i))` of a
/// random polynomial `f` of degree `t - 1` with `f(0) = x`, for
/// `i = 1..=n`, and the public key `x * B`. In practice this would be done
/// in a distributed fashion without a trusted central party.
pub fn generate_private_key_shares(n_shares: usize, decryption_threshold: usize) -> (r: (PublicKey, Vec<KeyShare>))
    requires
        decryption_threshold >= 1,
        pow(n_shares as int, (decryption_threshold - 1) as nat) <= u64::MAX,
    ensures
        r.1@.len() == n_shares,
        exists|coeffs: Seq<Scalar>|
            {
                &&& coeffs.len() == decryption_threshold
                &&& r.0.0.bytes@ == basepoint_mul_of(coeffs[0].field())
                &&& forall|i: int|
                    0 <= i < n_shares ==> {
                        &&& (#[trigger] r.1@[i]).identifier.val() == i + 1
                        &&& r.1@[i].sk.val() == poly_eval(coeffs, (i + 1) as nat, decryption_threshold as nat)
                        &&& r.1@[i].pk == r.0
                    }
            },
{
    let sk = Scalar::random();
    let (shares, Ghost(coeffs)) = create_shares(&sk, n_shares, decryption_threshold);
    let pk = PublicKey(base_mul(&sk));
    let mut key_shares: Vec<KeyShare> = Vec::new();
    let mut i: usize = 0;
    while i < n_shares
        invariant
            i <= n_shares,
            shares@.len() == n_shares,
            key_shares@.len() == i,
            forall|j: int|
                0 <= j < i ==> {
                    &&& (#[trigger] key_shares@[j]).identifier == shares@[j].x
                    &&& key_shares@[j].sk == shares@[j].y
                    &&& key_shares@[j].pk == pk
                },
        decreases n_shares - i,
    {
        let s: ShamirShare = shares[i];
        key_shares.push(KeyShare { identifier: s.x, sk: s.y, pk });
        i = i + 1;
    }
    assert(forall|j: int| 0 <= j < n_shares ==> #[trigger] key_shares@[j].identifier == shares@[j].x);
    (pk, key_shares)
}

} // verus!
