//! Threshold Schnorr signatures (FROST over Ristretto255) used as a black
//! box: key dealing, nonce commitments, signature shares and aggregation.
//!
//! frost's types are generic over a ciphersuite trait that Verus cannot be
//! told about, so each value is carried in an opaque struct of this module.
use vstd::prelude::*;

verus! {

/// A dealer-issued signing key share (frost's `keys::SecretShare`).
#[verifier::external_body]
pub struct SecretShare {
    inner: frost_ristretto255::keys::SecretShare,
}

/// A verified signing key share of one signer (frost's `keys::KeyPackage`).
#[verifier::external_body]
pub struct KeyPackage {
    inner: frost_ristretto255::keys::KeyPackage,
}

/// The group verifying key and every signer's verifying share (frost's
/// `keys::PublicKeyPackage`).
#[verifier::external_body]
pub struct PublicKeyPackage {
    inner: frost_ristretto255::keys::PublicKeyPackage,
}

/// Secret one-time nonces of one signer (frost's `round1::SigningNonces`).
#[verifier::external_body]
pub struct SigningNonces {
    inner: frost_ristretto255::round1::SigningNonces,
}

/// The public commitments to one pair of nonces (frost's
/// `round1::SigningCommitments`).
#[verifier::external_body]
pub struct SigningCommitments {
    inner: frost_ristretto255::round1::SigningCommitments,
}

/// One signer's share of a signature (frost's `round2::SignatureShare`).
#[verifier::external_body]
pub struct SignatureShare {
    inner: frost_ristretto255::round2::SignatureShare,
}

/// An aggregated Schnorr signature (frost's `Signature`).
#[verifier::external_body]
pub struct Signature {
    inner: frost_ristretto255::Signature,
}

/// The identifier of the signer that a commitment belongs to, as a scalar.
pub uninterp spec fn commitment_signer(c: SigningCommitments) -> nat;

/// The identifier of a key package's signer, as a scalar.
pub uninterp spec fn key_signer(k: KeyPackage) -> nat;

/// The identifier of the signer of a signature share, as a scalar.
pub uninterp spec fn share_signer(s: SignatureShare) -> nat;

/// The identifiers that a public key package holds a verifying share for.
pub uninterp spec fn verifying_signers(keys: PublicKeyPackage) -> Set<nat>;

/// Whether a dealt share passes its check against the dealer's commitment.
pub uninterp spec fn share_accepted(share: SecretShare) -> bool;

/// The commitments to a pair of nonces, for the key package's signer.
pub uninterp spec fn commitments_of(nonces: SigningNonces, key: KeyPackage) -> SigningCommitments;

/// The signature share that frost's round two gives.
pub uninterp spec fn share_of(
    commitments: Seq<SigningCommitments>,
    message: Seq<u8>,
    nonces: SigningNonces,
    key: KeyPackage,
) -> Option<SignatureShare>;

/// The signature that frost's aggregation gives.
pub uninterp spec fn aggregate_of(
    commitments: Seq<SigningCommitments>,
    message: Seq<u8>,
    shares: Seq<SignatureShare>,
    keys: PublicKeyPackage,
) -> Option<Signature>;

/// Whether a signature verifies over a message under the group verifying
/// key of `keys`.
pub uninterp spec fn verifies_of(keys: PublicKeyPackage, message: Seq<u8>, signature: Signature) -> bool;

/// Some commitment of the package belongs to the key's signer.
pub open spec fn package_includes(commitments: Seq<SigningCommitments>, key: KeyPackage) -> bool {
    exists|j: int| 0 <= j < commitments.len() && #[trigger] commitment_signer(commitments[j]) == key_signer(key)
}

/// Every share's signer has a commitment in the package and a verifying
/// share in `keys`.
pub open spec fn signers_known(
    commitments: Seq<SigningCommitments>,
    shares: Seq<SignatureShare>,
    keys: PublicKeyPackage,
) -> bool {
    forall|k: int|
        0 <= k < shares.len() ==> {
            &&& verifying_signers(keys).contains(share_signer(#[trigger] shares[k]))
            &&& exists|j: int|
                0 <= j < commitments.len() && commitment_signer(commitments[j]) == share_signer(shares[k])
        }
}

/// Returns whether some commitment of the package belongs to the key's
/// signer.
pub fn includes_signer(commitments: &Vec<SigningCommitments>, key: &KeyPackage) -> (r: bool)
    ensures
        r == package_includes(commitments@, *key),
{
    let mut j: usize = 0;
    while j < commitments.len()
        invariant
            j <= commitments@.len(),
            forall|m: int| 0 <= m < j ==> commitment_signer(#[trigger] commitments@[m]) != key_signer(*key),
        decreases commitments@.len() - j,
    {
        if commitment_is_for(&commitments[j], key) {
            return true;
        }
        j = j + 1;
    }
    false
}

/// Returns whether every share's signer has a commitment in the package and
/// a verifying share in `keys`.
pub fn all_signers_known(
    commitments: &Vec<SigningCommitments>,
    shares: &Vec<SignatureShare>,
    keys: &PublicKeyPackage,
) -> (r: bool)
    ensures
        r == signers_known(commitments@, shares@, *keys),
{
    let mut k: usize = 0;
    while k < shares.len()
        invariant
            k <= shares@.len(),
            forall|m: int|
                0 <= m < k ==> {
                    &&& verifying_signers(*keys).contains(share_signer(#[trigger] shares@[m]))
                    &&& exists|j: int|
                        0 <= j < commitments@.len() && commitment_signer(commitments@[j]) == share_signer(
                            shares@[m],
                        )
                },
        decreases shares@.len() - k,
    {
        if !knows_signer(keys, &shares[k]) {
            return false;
        }
        let mut j: usize = 0;
        let mut found = false;
        while j < commitments.len() && !found
            invariant
                j <= commitments@.len(),
                k < shares@.len(),
                found ==> exists|i: int|
                    0 <= i < commitments@.len() && commitment_signer(commitments@[i]) == share_signer(shares@[k as int]),
                !found ==> forall|i: int|
                    0 <= i < j ==> commitment_signer(#[trigger] commitments@[i]) != share_signer(shares@[k as int]),
            decreases commitments@.len() - j,
        {
            if share_is_for(&shares[k], &commitments[j]) {
                found = true;
            }
            j = j + 1;
        }
        if !found {
            return false;
        }
        k = k + 1;
    }
    true
}

/// Relies on frost's `SigningCommitments` being `Copy`: the copy is the same
/// value.
#[verifier::external_body]
pub(crate) fn copy_commitments(c: &SigningCommitments) -> (r: SigningCommitments)
    ensures
        r == *c,
{
    SigningCommitments { inner: c.inner }
}

/// Relies on frost's `SignatureShare` being `Copy`: the copy is the same
/// value.
#[verifier::external_body]
pub(crate) fn copy_signature_share(s: &SignatureShare) -> (r: SignatureShare)
    ensures
        r == *s,
{
    SignatureShare { inner: s.inner }
}

/// Relies on frost's `Identifier` equality (equality of the scalars) on the
/// commitment's and the key package's `identifier` fields.
#[verifier::external_body]
pub(crate) fn commitment_is_for(c: &SigningCommitments, key: &KeyPackage) -> (r: bool)
    ensures
        r == (commitment_signer(*c) == key_signer(*key)),
{
    c.inner.identifier == key.inner.identifier
}

/// Relies on frost's `Identifier` equality on the share's and the
/// commitment's `identifier` fields.
#[verifier::external_body]
pub(crate) fn share_is_for(s: &SignatureShare, c: &SigningCommitments) -> (r: bool)
    ensures
        r == (share_signer(*s) == commitment_signer(*c)),
{
    s.inner.identifier == c.inner.identifier
}

/// Relies on `HashMap::contains_key` over the `signer_pubkeys` of frost's
/// `PublicKeyPackage`.
#[verifier::external_body]
pub(crate) fn knows_signer(keys: &PublicKeyPackage, s: &SignatureShare) -> (r: bool)
    ensures
        r == verifying_signers(*keys).contains(share_signer(*s)),
{
    keys.inner.signer_pubkeys.contains_key(&s.inner.identifier)
}

/// Relies on frost's `keys::generate_with_dealer`: it fails exactly when
/// `min_signers < 2`, `max_signers < 2` or `min_signers > max_signers`, and
/// otherwise returns one secret share for each of the `max_signers`
/// identifiers `1..=max_signers` (here in the order of its map), each the
/// value at its identifier of the polynomial the dealer committed to, so
/// each passes its check. It draws `min_signers - 1` coefficients before
/// those checks, so `min_signers` must not be zero.
#[verifier::external_body]
pub(crate) fn keygen_with_dealer(max_signers: u16, min_signers: u16) -> (r: Option<
    (Vec<SecretShare>, PublicKeyPackage),
>)
    requires
        min_signers >= 1,
    ensures
        r is Some <==> (2 <= min_signers && 2 <= max_signers && min_signers <= max_signers),
        r matches Some((shares, _)) ==> shares@.len() == max_signers && forall|i: int|
            0 <= i < shares@.len() ==> share_accepted(#[trigger] shares@[i]),
{
    match frost_ristretto255::keys::generate_with_dealer(max_signers, min_signers, rand::thread_rng()) {
        Ok((shares, public)) => Some((
            shares.into_values().map(|inner| SecretShare { inner }).collect(),
            PublicKeyPackage { inner: public },
        )),
        Err(_) => None,
    }
}

/// Relies on frost's `TryFrom<SecretShare> for KeyPackage`, which fails
/// exactly when the share's check against the dealer's commitment fails.
/// That check reads the commitment's first entry; a `SecretShare` here only
/// comes from `keygen_with_dealer`, whose commitments have at least two.
#[verifier::external_body]
pub(crate) fn key_package_from_share(share: SecretShare) -> (r: Option<KeyPackage>)
    ensures
        r is Some <==> share_accepted(share),
{
    frost_ristretto255::keys::KeyPackage::try_from(share.inner).ok().map(|inner| KeyPackage { inner })
}

/// Relies on frost's `round1::commit`: fresh secret nonces, and the
/// commitments that `SigningCommitments::from((identifier, &nonces))`
/// derives from them for the key package's signer.
#[verifier::external_body]
pub(crate) fn commit(key: &KeyPackage) -> (r: (SigningNonces, SigningCommitments))
    ensures
        r.1 == commitments_of(r.0, *key),
{
    let (n, c) = frost_ristretto255::round1::commit(
        key.inner.identifier,
        &key.inner.secret_share,
        &mut rand::thread_rng(),
    );
    (SigningNonces { inner: n }, SigningCommitments { inner: c })
}

/// Relies on frost's `round2::sign` over the package
/// `SigningPackage::new(commitments, message)`. frost looks the key's
/// identifier up among the package's commitments and panics where it is
/// missing.
#[verifier::external_body]
pub(crate) fn sign(
    commitments: &Vec<SigningCommitments>,
    message: &Vec<u8>,
    nonces: &SigningNonces,
    key: &KeyPackage,
) -> (r: Option<SignatureShare>)
    requires
        package_includes(commitments@, *key),
    ensures
        r == share_of(commitments@, message@, *nonces, *key),
{
    let package = frost_ristretto255::SigningPackage::new(
        commitments.iter().map(|c| c.inner).collect(),
        message.clone(),
    );
    frost_ristretto255::round2::sign(&package, &nonces.inner, &key.inner).ok().map(
        |inner| SignatureShare { inner },
    )
}

/// Relies on frost's `aggregate` over the package
/// `SigningPackage::new(commitments, message)`: it returns a signature only
/// after `group_public.verify(message, signature)` succeeded. Where that
/// check fails frost looks each share's signer up among the package's
/// commitments and the verifying shares, and panics where one is missing.
#[verifier::external_body]
pub(crate) fn aggregate(
    commitments: &Vec<SigningCommitments>,
    message: &Vec<u8>,
    shares: &Vec<SignatureShare>,
    keys: &PublicKeyPackage,
) -> (r: Option<Signature>)
    requires
        signers_known(commitments@, shares@, *keys),
    ensures
        r == aggregate_of(commitments@, message@, shares@, *keys),
        r matches Some(sig) ==> verifies_of(*keys, message@, sig),
{
    let package = frost_ristretto255::SigningPackage::new(
        commitments.iter().map(|c| c.inner).collect(),
        message.clone(),
    );
    let shares: Vec<_> = shares.iter().map(|s| s.inner).collect();
    frost_ristretto255::aggregate(&package, &shares, &keys.inner).ok().map(|inner| Signature { inner })
}

/// Relies on frost's `VerifyingKey::verify` with the group verifying key.
#[verifier::external_body]
pub(crate) fn verify(keys: &PublicKeyPackage, message: &Vec<u8>, signature: &Signature) -> (r: bool)
    ensures
        r == verifies_of(*keys, message@, *signature),
{
    keys.inner.group_public.verify(message, &signature.inner).is_ok()
}

} // verus!
