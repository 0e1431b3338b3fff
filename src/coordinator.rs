//! The coordinator: deals the keys, holds the group keys and the matrix of
//! every moderator's pending nonce commitments, builds token batches for
//! signing, aggregates the signatures and combines decryption shares.
//!
//! The network fan-out sits outside this module: each round is split into
//! the step that builds the requests and the step that takes the answers.
use vstd::prelude::*;
use vstd::arithmetic::power::pow;
use crate::UserId;
use crate::communication::{decryption, setup, signing};
use crate::communication::signing::{SigningPackage, SigningRequest};
use crate::elgamal::{DecryptionShare, KeyShare, PublicKey, decryption_of, encryption_of, generate_private_key_shares};
use crate::error::CerberusError;
use crate::moderator::{claim_check, claimed_ciphertext};
use crate::point::{basepoint_mul_of, point_mul_of};
use crate::scalar::Scalar;
use crate::schnorr::{self, PublicKeyPackage, Signature, SignatureShare, SigningCommitments, aggregate_of, signers_known, verifies_of};
use crate::shamir::poly_eval;
use crate::token::{SignedToken, TOKEN_LEN, UnsignedToken, token_bytes, u64_le_bytes};

verus! {

/// `1 <= t_sig <= n`, `1 <= t_dec <= n` and `batch_size >= 1`.
pub open spec fn valid_parameters(n: usize, t_sig: usize, t_dec: usize, batch_size: usize) -> bool {
    1 <= t_sig <= n && 1 <= t_dec <= n && batch_size >= 1
}

/// The parameters that setup accepts: valid ones whose moderator count
/// fits the signature scheme's `u16` identifiers and whose Shamir powers
/// `i^k` (`i <= n`, `k < t_dec`) fit in `u64`.
pub open spec fn accepted_parameters(n: usize, t_sig: usize, t_dec: usize, batch_size: usize) -> bool {
    &&& valid_parameters(n, t_sig, t_dec, batch_size)
    &&& n <= u16::MAX
    &&& pow(n as int, (t_dec - 1) as nat) <= u64::MAX
}

/// The commitments of slot `i` of every moderator's row, in moderator order.
pub open spec fn commitment_column(m: Seq<Vec<SigningCommitments>>, i: int) -> Seq<SigningCommitments> {
    Seq::new(m.len(), |j: int| m[j]@[i])
}

/// The encoded token `(timestamp, ct, 0^32)`.
pub open spec fn token_message(timestamp: i64, ct: (Seq<u8>, Seq<u8>)) -> Seq<u8> {
    u64_le_bytes(timestamp as u64) + ct.0 + ct.1 + Seq::new(32, |k: int| 0u8)
}

/// The request for slot `i` signs a token that encrypts `user_id` under the
/// group key `y` with the request's randomness, at `timestamp`, over the
/// slot's commitment column.
pub open spec fn request_for_slot(
    req: SigningRequest,
    y: Seq<u8>,
    user_id: UserId,
    column: Seq<SigningCommitments>,
    timestamp: i64,
) -> bool {
    &&& req.user_id == user_id
    &&& req.signing_package.commitments@ == column
    &&& encryption_of(y, user_id.0@, req.elgamal_randomness.field()) matches Some(ct)
    &&& ct.0.len() == 32
    &&& ct.1.len() == 32
    &&& req.signing_package.message@ == token_message(timestamp, ct)
}

/// A request that the coordinator builds for a slot passes the check of
/// every moderator whose decryption key share belongs to the group key the
/// request was built with.
pub proof fn lemma_built_request_passes_check(
    req: SigningRequest,
    y: Seq<u8>,
    user_id: UserId,
    column: Seq<SigningCommitments>,
    timestamp: i64,
    key: KeyShare,
)
    requires
        request_for_slot(req, y, user_id, column, timestamp),
        key.pk.0.bytes@ == y,
    ensures
        claim_check(key, req) == Ok::<(), CerberusError>(()),
{
    let ct = encryption_of(y, user_id.0@, req.elgamal_randomness.field())->Some_0;
    let m = req.signing_package.message@;
    assert(m.len() == TOKEN_LEN);
    assert(m.subrange(8, 40) =~= ct.0);
    assert(m.subrange(40, 72) =~= ct.1);
    assert(claimed_ciphertext(m) == ct);
}

/// Every request of the batch is the request for its slot, at `timestamp`.
pub open spec fn batch_for(
    reqs: Seq<SigningRequest>,
    y: Seq<u8>,
    user_ids: Seq<UserId>,
    m: Seq<Vec<SigningCommitments>>,
    timestamp: i64,
) -> bool {
    forall|i: int|
        0 <= i < reqs.len() ==> request_for_slot(
            #[trigger] reqs[i],
            y,
            user_ids[i],
            commitment_column(m, i),
            timestamp,
        )
}

/// Moderator `j`'s share for slot `i`, for every moderator.
pub open spec fn share_column(responses: Seq<signing::Response>, i: int) -> Seq<SignatureShare> {
    Seq::new(responses.len(), |j: int| responses[j].signature_shares@[i])
}

/// One answer per moderator, each with a share per request and a full row
/// of new commitments.
pub open spec fn answers_well_formed(
    n_moderators: usize,
    batch_size: usize,
    requests: Seq<SigningRequest>,
    responses: Seq<signing::Response>,
) -> bool {
    &&& responses.len() == n_moderators
    &&& forall|j: int|
        0 <= j < responses.len() ==> {
            &&& (#[trigger] responses[j]).signature_shares@.len() == requests.len()
            &&& responses[j].new_nonce_commitments@.len() == batch_size
        }
}

/// What aggregating one slot gives: an encoding error, an unknown signer,
/// or frost's signature.
pub open spec fn slot_signature(keys: PublicKeyPackage, req: SigningRequest, shares: Seq<SignatureShare>) -> Result<
    Signature,
    CerberusError,
> {
    let package = req.signing_package;
    if package.message@.len() != TOKEN_LEN {
        Err(CerberusError::InvalidEncoding)
    } else if !signers_known(package.commitments@, shares, keys) {
        Err(CerberusError::InvalidPackage)
    } else {
        match aggregate_of(package.commitments@, package.message@, shares, keys) {
            Some(sig) => Ok(sig),
            None => Err(CerberusError::SigningFailure),
        }
    }
}

/// What the dealers hand out before the moderators answer: the group keys
/// and one setup request per moderator.
pub struct SetupPlan {
    pub frost_public_key_package: PublicKeyPackage,
    pub group_public_elgamal_key: PublicKey,
    pub requests: Vec<setup::Request>,
    pub n_moderators: usize,
    pub signing_threshold: usize,
    pub decryption_threshold: usize,
    pub batch_size: usize,
}

/// The coordinator's state.
pub struct Coordinator {
    pub frost_public_key_package: PublicKeyPackage,
    pub group_public_elgamal_key: PublicKey,
    /// `nonce_commitments[j][i]`: moderator `j`'s commitment for slot `i`
    /// of the next batch.
    pub nonce_commitments: Vec<Vec<SigningCommitments>>,
    pub batch_size: usize,
    pub n_moderators: usize,
    pub decryption_threshold: usize,
    pub signing_threshold: usize,
}

/// Returns whether `base^exp` fits in `u64`.
pub fn pow_fits_u64(base: u64, exp: u64) -> (r: bool)
    requires
        base >= 1,
    ensures
        r == (pow(base as int, exp as nat) <= u64::MAX),
{
    let mut acc: u64 = 1;
    let mut k: u64 = 0;
    proof {
        reveal(pow);
    }
    while k < exp
        invariant
            k <= exp,
            base >= 1,
            acc == pow(base as int, k as nat),
        decreases exp - k,
    {
        proof {
            reveal(pow);
        }
        if acc > u64::MAX / base {
            proof {
                assert(acc * base > u64::MAX) by (nonlinear_arith)
                    requires
                        acc > u64::MAX / base,
                        base >= 1,
                ;
                assert(pow(base as int, (k + 1) as nat) == base * pow(base as int, k as nat));
                vstd::arithmetic::power::lemma_pow_increases(base as nat, (k + 1) as nat, exp as nat);
            }
            return false;
        }
        proof {
            assert(acc * base <= u64::MAX) by (nonlinear_arith)
                requires
                    acc <= u64::MAX / base,
                    base >= 1,
            ;
            assert(pow(base as int, (k + 1) as nat) == base * pow(base as int, k as nat));
        }
        acc = acc * base;
        k = k + 1;
    }
    true
}

/// Relies on chrono's `Utc::now().timestamp()`: the current time in seconds
/// since the Unix epoch.
#[verifier::external_body]
fn now_timestamp() -> (r: i64) {
    chrono::Utc::now().timestamp()
}

impl Coordinator {
    /// Every moderator has a row of `batch_size` commitments; the
    /// thresholds are in range.
    pub open spec fn wf(&self) -> bool {
        &&& self.nonce_commitments@.len() == self.n_moderators
        &&& forall|j: int|
            0 <= j < self.n_moderators ==> (#[trigger] self.nonce_commitments@[j])@.len() == self.batch_size
        &&& valid_parameters(self.n_moderators, self.signing_threshold, self.decryption_threshold, self.batch_size)
    }

    /// Runs both trusted dealers and builds one setup request per
    /// moderator: signing share `j`, decryption share `(j + 1, f(j + 1))`
    /// and the batch size.
    pub fn setup_moderators(
        n_moderators: usize,
        signing_threshold: usize,
        decryption_threshold: usize,
        batch_size: usize,
    ) -> (r: Result<SetupPlan, CerberusError>)
        ensures
            !accepted_parameters(n_moderators, signing_threshold, decryption_threshold, batch_size) ==> r
                == Err::<SetupPlan, CerberusError>(CerberusError::InvalidParameters),
            accepted_parameters(n_moderators, signing_threshold, decryption_threshold, batch_size) ==> (r is Ok
                <==> signing_threshold >= 2),
            r matches Err(e) ==> e == CerberusError::InvalidParameters || e == CerberusError::SigningFailure,
            r matches Ok(plan) ==> {
                &&& plan.n_moderators == n_moderators
                &&& plan.signing_threshold == signing_threshold
                &&& plan.decryption_threshold == decryption_threshold
                &&& plan.batch_size == batch_size
                &&& plan.requests@.len() == n_moderators
                &&& exists|coeffs: Seq<Scalar>|
                    {
                        &&& coeffs.len() == decryption_threshold
                        &&& plan.group_public_elgamal_key.0.bytes@ == basepoint_mul_of(coeffs[0].field())
                        &&& forall|j: int|
                            0 <= j < n_moderators ==> {
                                &&& (#[trigger] plan.requests@[j]).batch_size == batch_size
                                &&& schnorr::share_accepted(plan.requests@[j].frost_secret_share)
                                &&& plan.requests@[j].elgamal_secret_share.identifier.val() == j + 1
                                &&& plan.requests@[j].elgamal_secret_share.sk.val() == poly_eval(
                                    coeffs,
                                    (j + 1) as nat,
                                    decryption_threshold as nat,
                                )
                                &&& plan.requests@[j].elgamal_secret_share.pk == plan.group_public_elgamal_key
                            }
                    }
            },
    {
        if !(1 <= signing_threshold && signing_threshold <= n_moderators && 1 <= decryption_threshold
            && decryption_threshold <= n_moderators && batch_size >= 1) {
            return Err(CerberusError::InvalidParameters);
        }
        if n_moderators > 65535 {
            return Err(CerberusError::InvalidParameters);
        }
        if !pow_fits_u64(n_moderators as u64, (decryption_threshold - 1) as u64) {
            return Err(CerberusError::InvalidParameters);
        }
        let (mut frost_shares, frost_public_key_package) = match schnorr::keygen_with_dealer(
            n_moderators as u16,
            signing_threshold as u16,
        ) {
            Some(dealt) => dealt,
            None => return Err(CerberusError::SigningFailure),
        };
        let (group_public_elgamal_key, elgamal_shares) = generate_private_key_shares(
            n_moderators,
            decryption_threshold,
        );
        let ghost coeffs = choose|coeffs: Seq<Scalar>|
            {
                &&& coeffs.len() == decryption_threshold
                &&& group_public_elgamal_key.0.bytes@ == basepoint_mul_of(coeffs[0].field())
                &&& forall|i: int|
                    0 <= i < n_moderators ==> {
                        &&& (#[trigger] elgamal_shares@[i]).identifier.val() == i + 1
                        &&& elgamal_shares@[i].sk.val() == poly_eval(
                            coeffs,
                            (i + 1) as nat,
                            decryption_threshold as nat,
                        )
                        &&& elgamal_shares@[i].pk == group_public_elgamal_key
                    }
            };
        let mut requests: Vec<setup::Request> = Vec::new();
        let mut j: usize = 0;
        while j < n_moderators
            invariant
                j <= n_moderators,
                frost_shares@.len() == n_moderators - j,
                forall|m: int| 0 <= m < frost_shares@.len() ==> schnorr::share_accepted(#[trigger] frost_shares@[m]),
                elgamal_shares@.len() == n_moderators,
                requests@.len() == j,
                forall|k: int|
                    0 <= k < j ==> {
                        &&& (#[trigger] requests@[k]).batch_size == batch_size
                        &&& requests@[k].elgamal_secret_share == elgamal_shares@[k]
                        &&& schnorr::share_accepted(requests@[k].frost_secret_share)
                    },
            decreases n_moderators - j,
        {
            let frost_secret_share = frost_shares.remove(0);
            requests.push(
                setup::Request { frost_secret_share, elgamal_secret_share: elgamal_shares[j], batch_size },
            );
            j = j + 1;
        }
        assert(forall|k: int| 0 <= k < n_moderators ==> #[trigger] requests@[k].elgamal_secret_share == elgamal_shares@[k]);
        Ok(
            SetupPlan {
                frost_public_key_package,
                group_public_elgamal_key,
                requests,
                n_moderators,
                signing_threshold,
                decryption_threshold,
                batch_size,
            },
        )
    }

    /// Builds the signing request of every slot: the token of slot `i`
    /// encrypts `user_ids[i]` with `randomness[i]` under the group key, is
    /// stamped `timestamp` and carries a zero ephemeral key; its package
    /// holds the commitments of slot `i` of every moderator.
    pub fn create_signing_requests(
        &self,
        user_ids: &Vec<UserId>,
        randomness: &Vec<Scalar>,
        timestamp: i64,
    ) -> (r: Result<Vec<SigningRequest>, CerberusError>)
        requires
            self.wf(),
            randomness@.len() == user_ids@.len(),
        ensures
            user_ids@.len() != self.batch_size ==> r == Err::<Vec<SigningRequest>, CerberusError>(
                CerberusError::WrongBatchSize,
            ),
            r matches Err(e) ==> e == CerberusError::WrongBatchSize || e == CerberusError::InvalidPoint,
            (r == Err::<Vec<SigningRequest>, CerberusError>(CerberusError::WrongBatchSize)) <==> user_ids@.len()
                != self.batch_size,
            user_ids@.len() == self.batch_size ==> (r is Ok <==> forall|i: int|
                0 <= i < user_ids@.len() ==> encryption_of(
                    self.group_public_elgamal_key.0.bytes@,
                    #[trigger] user_ids@[i].0@,
                    randomness@[i].field(),
                ) is Some),
            r matches Ok(reqs) ==> {
                &&& reqs@.len() == self.batch_size
                &&& forall|i: int|
                    0 <= i < reqs@.len() ==> {
                        &&& (#[trigger] reqs@[i]).elgamal_randomness == randomness@[i]
                        &&& request_for_slot(
                            reqs@[i],
                            self.group_public_elgamal_key.0.bytes@,
                            user_ids@[i],
                            commitment_column(self.nonce_commitments@, i),
                            timestamp,
                        )
                    }
            },
    {
        if user_ids.len() != self.batch_size {
            return Err(CerberusError::WrongBatchSize);
        }
        let mut requests: Vec<SigningRequest> = Vec::new();
        let mut i: usize = 0;
        while i < user_ids.len()
            invariant
                self.wf(),
                i <= user_ids@.len(),
                user_ids@.len() == self.batch_size,
                randomness@.len() == user_ids@.len(),
                requests@.len() == i,
                forall|k: int|
                    0 <= k < i ==> encryption_of(
                        self.group_public_elgamal_key.0.bytes@,
                        #[trigger] user_ids@[k].0@,
                        randomness@[k].field(),
                    ) is Some,
                forall|k: int|
                    0 <= k < i ==> {
                        &&& (#[trigger] requests@[k]).elgamal_randomness == randomness@[k]
                        &&& request_for_slot(
                            requests@[k],
                            self.group_public_elgamal_key.0.bytes@,
                            user_ids@[k],
                            commitment_column(self.nonce_commitments@, k),
                            timestamp,
                        )
                    },
            decreases user_ids@.len() - i,
        {
            let x_1 = match self.group_public_elgamal_key.encrypt(&user_ids[i], &randomness[i]) {
                Ok(ct) => ct,
                Err(e) => return Err(e),
            };
            let token = UnsignedToken { timestamp, x_1, pk_e: [0u8; 32] };
            let message = token.to_bytes();
            let mut commitments: Vec<SigningCommitments> = Vec::new();
            let mut j: usize = 0;
            while j < self.n_moderators
                invariant
                    self.wf(),
                    i < self.batch_size,
                    j <= self.n_moderators,
                    commitments@ == commitment_column(self.nonce_commitments@, i as int).subrange(0, j as int),
                decreases self.n_moderators - j,
            {
                let c = schnorr::copy_commitments(&self.nonce_commitments[j][i]);
                commitments.push(c);
                assert(commitment_column(self.nonce_commitments@, i as int).subrange(0, j + 1)
                    =~= commitment_column(self.nonce_commitments@, i as int).subrange(0, j as int).push(c));
                j = j + 1;
            }
            assert(commitment_column(self.nonce_commitments@, i as int).subrange(0, self.n_moderators as int)
                =~= commitment_column(self.nonce_commitments@, i as int));
            assert(token.pk_e@ =~= Seq::new(32, |k: int| 0u8));
            let req = SigningRequest {
                signing_package: SigningPackage { commitments, message },
                elgamal_randomness: randomness[i],
                user_id: user_ids[i],
            };
            requests.push(req);
            i = i + 1;
        }
        Ok(requests)
    }

    /// Builds the next batch for signing: draws the randomness of every
    /// slot and stamps the tokens with the current time.
    pub fn prepare_tokens(&self, user_ids: &Vec<UserId>) -> (r: Result<Vec<SigningRequest>, CerberusError>)
        requires
            self.wf(),
        ensures
            (r == Err::<Vec<SigningRequest>, CerberusError>(CerberusError::WrongBatchSize)) <==> user_ids@.len()
                != self.batch_size,
            r matches Err(e) ==> e == CerberusError::WrongBatchSize || e == CerberusError::InvalidPoint,
            r == Err::<Vec<SigningRequest>, CerberusError>(CerberusError::InvalidPoint) ==> exists|s: Scalar|
                #[trigger] point_mul_of(s.field(), self.group_public_elgamal_key.0.bytes@) is None,
            r matches Ok(reqs) ==> {
                &&& reqs@.len() == self.batch_size
                &&& exists|timestamp: i64|
                    #[trigger] batch_for(
                        reqs@,
                        self.group_public_elgamal_key.0.bytes@,
                        user_ids@,
                        self.nonce_commitments@,
                        timestamp,
                    )
            },
    {
        let mut randomness: Vec<Scalar> = Vec::new();
        let mut i: usize = 0;
        while i < user_ids.len()
            invariant
                i <= user_ids@.len(),
                randomness@.len() == i,
            decreases user_ids@.len() - i,
        {
            randomness.push(Scalar::random());
            i = i + 1;
        }
        let timestamp = now_timestamp();
        let r = self.create_signing_requests(user_ids, &randomness, timestamp);
        proof {
            if r == Err::<Vec<SigningRequest>, CerberusError>(CerberusError::InvalidPoint) {
                let i = choose|i: int|
                    0 <= i < user_ids@.len() && !(encryption_of(
                        self.group_public_elgamal_key.0.bytes@,
                        #[trigger] user_ids@[i].0@,
                        randomness@[i].field(),
                    ) is Some);
                assert(point_mul_of(randomness@[i].field(), self.group_public_elgamal_key.0.bytes@) is None);
            }
            if r is Ok {
                let reqs = r->Ok_0;
                assert(batch_for(
                    reqs@,
                    self.group_public_elgamal_key.0.bytes@,
                    user_ids@,
                    self.nonce_commitments@,
                    timestamp,
                ));
            }
        }
        r
    }

    /// Takes every moderator's signing answer (in moderator order) for the
    /// batch `requests`: aggregates the shares of each slot into a signed
    /// token and, only if every slot succeeds, replaces each moderator's
    /// commitment row by the commitments it returned.
    pub fn complete_tokens(&mut self, requests: &Vec<SigningRequest>, responses: Vec<signing::Response>) -> (r:
        Result<Vec<SignedToken>, CerberusError>)
        requires
            old(self).wf(),
        ensures
            final(self).wf(),
            final(self).n_moderators == old(self).n_moderators,
            final(self).batch_size == old(self).batch_size,
            final(self).signing_threshold == old(self).signing_threshold,
            final(self).decryption_threshold == old(self).decryption_threshold,
            final(self).group_public_elgamal_key == old(self).group_public_elgamal_key,
            final(self).frost_public_key_package == old(self).frost_public_key_package,
            r is Err ==> *final(self) == *old(self),
            !answers_well_formed(old(self).n_moderators, old(self).batch_size, requests@, responses@) ==> r
                == Err::<Vec<SignedToken>, CerberusError>(CerberusError::WrongBatchSize),
            answers_well_formed(old(self).n_moderators, old(self).batch_size, requests@, responses@) ==> (r is Ok
                <==> forall|i: int|
                0 <= i < requests@.len() ==> (#[trigger] slot_signature(
                    old(self).frost_public_key_package,
                    requests@[i],
                    share_column(responses@, i),
                )) is Ok),
            r matches Err(e) ==> e == CerberusError::WrongBatchSize || exists|i: int|
                0 <= i < requests@.len() && #[trigger] slot_signature(
                    old(self).frost_public_key_package,
                    requests@[i],
                    share_column(responses@, i),
                ) == Err::<Signature, CerberusError>(e),
            r matches Ok(tokens) ==> {
                &&& tokens@.len() == requests@.len()
                &&& forall|i: int|
                    0 <= i < tokens@.len() ==> {
                        &&& token_bytes((#[trigger] tokens@[i]).token) == requests@[i].signing_package.message@
                        &&& slot_signature(
                            old(self).frost_public_key_package,
                            requests@[i],
                            share_column(responses@, i),
                        ) == Ok::<Signature, CerberusError>(tokens@[i].signature)
                        &&& verifies_of(
                            old(self).frost_public_key_package,
                            token_bytes(tokens@[i].token),
                            tokens@[i].signature,
                        )
                    }
                &&& forall|j: int|
                    0 <= j < old(self).n_moderators ==> (#[trigger] final(self).nonce_commitments@[j])@
                        == responses@[j].new_nonce_commitments@
            },
    {
        if responses.len() != self.n_moderators {
            return Err(CerberusError::WrongBatchSize);
        }
        let mut j: usize = 0;
        while j < responses.len()
            invariant
                j <= responses@.len(),
                *self == *old(self),
                old(self).wf(),
                forall|k: int|
                    0 <= k < j ==> (#[trigger] responses@[k]).signature_shares@.len() == requests@.len()
                        && responses@[k].new_nonce_commitments@.len() == self.batch_size,
            decreases responses@.len() - j,
        {
            if responses[j].signature_shares.len() != requests.len()
                || responses[j].new_nonce_commitments.len() != self.batch_size {
                return Err(CerberusError::WrongBatchSize);
            }
            j = j + 1;
        }
        let mut tokens: Vec<SignedToken> = Vec::new();
        let mut i: usize = 0;
        while i < requests.len()
            invariant
                i <= requests@.len(),
                *self == *old(self),
                old(self).wf(),
                answers_well_formed(self.n_moderators, self.batch_size, requests@, responses@),
                tokens@.len() == i,
                forall|k: int|
                    0 <= k < i ==> {
                        &&& token_bytes((#[trigger] tokens@[k]).token) == requests@[k].signing_package.message@
                        &&& slot_signature(
                            self.frost_public_key_package,
                            requests@[k],
                            share_column(responses@, k),
                        ) == Ok::<Signature, CerberusError>(tokens@[k].signature)
                        &&& verifies_of(
                            self.frost_public_key_package,
                            token_bytes(tokens@[k].token),
                            tokens@[k].signature,
                        )
                    },
            decreases requests@.len() - i,
        {
            let mut shares: Vec<SignatureShare> = Vec::new();
            let mut j: usize = 0;
            while j < responses.len()
                invariant
                    j <= responses@.len(),
                    i < requests@.len(),
                    answers_well_formed(self.n_moderators, self.batch_size, requests@, responses@),
                    shares@ == share_column(responses@, i as int).subrange(0, j as int),
                decreases responses@.len() - j,
            {
                let s = schnorr::copy_signature_share(&responses[j].signature_shares[i]);
                shares.push(s);
                assert(share_column(responses@, i as int).subrange(0, j + 1) =~= share_column(
                    responses@,
                    i as int,
                ).subrange(0, j as int).push(s));
                j = j + 1;
            }
            assert(share_column(responses@, i as int).subrange(0, responses@.len() as int) =~= share_column(
                responses@,
                i as int,
            ));
            let package = &requests[i].signing_package;
            let ghost keys = self.frost_public_key_package;
            let ghost column = share_column(responses@, i as int);
            let token = match UnsignedToken::from_bytes(&package.message) {
                Some(t) => t,
                None => {
                    assert(slot_signature(keys, requests@[i as int], column) == Err::<Signature, CerberusError>(
                        CerberusError::InvalidEncoding,
                    ));
                    return Err(CerberusError::InvalidEncoding);
                },
            };
            if !schnorr::all_signers_known(&package.commitments, &shares, &self.frost_public_key_package) {
                assert(slot_signature(keys, requests@[i as int], column) == Err::<Signature, CerberusError>(
                    CerberusError::InvalidPackage,
                ));
                return Err(CerberusError::InvalidPackage);
            }
            let signature = match schnorr::aggregate(
                &package.commitments,
                &package.message,
                &shares,
                &self.frost_public_key_package,
            ) {
                Some(s) => s,
                None => {
                    assert(slot_signature(keys, requests@[i as int], column) == Err::<Signature, CerberusError>(
                        CerberusError::SigningFailure,
                    ));
                    return Err(CerberusError::SigningFailure);
                },
            };
            tokens.push(SignedToken { signature, token });
            i = i + 1;
        }
        assert forall|k: int| 0 <= k < requests@.len() implies (#[trigger] slot_signature(
            self.frost_public_key_package,
            requests@[k],
            share_column(responses@, k),
        )) is Ok by {
            assert(token_bytes(tokens@[k].token) == requests@[k].signing_package.message@);
        }
        let ghost old_responses = responses@;
        let mut responses = responses;
        let mut rows: Vec<Vec<SigningCommitments>> = Vec::new();
        let n = responses.len();
        let mut k: usize = 0;
        while k < n
            invariant
                k <= n,
                n == old_responses.len(),
                responses@ == old_responses.subrange(k as int, n as int),
                rows@.len() == k,
                forall|m: int| 0 <= m < k ==> (#[trigger] rows@[m])@ == old_responses[m].new_nonce_commitments@,
            decreases n - k,
        {
            let resp = responses.remove(0);
            rows.push(resp.new_nonce_commitments);
            k = k + 1;
        }
        self.nonce_commitments = rows;
        Ok(tokens)
    }

    /// Opens a token from the moderators' decryption answers: the first
    /// `decryption_threshold` shares are combined; fewer answers fail.
    pub fn request_token_decryption(&self, token: &SignedToken, responses: &Vec<decryption::Response>) -> (r: Result<
        UserId,
        CerberusError,
    >)
        ensures
            responses@.len() < self.decryption_threshold ==> r == Err::<UserId, CerberusError>(
                CerberusError::NotEnoughShares,
            ),
            responses@.len() >= self.decryption_threshold ==> {
                let shares = responses@.subrange(0, self.decryption_threshold as int).map_values(
                    |resp: decryption::Response| resp.decryption_share,
                );
                match r {
                    Ok(id) => decryption_of(token.token.x_1.c_2@, shares, self.decryption_threshold as nat) == Ok::<Seq<u8>, CerberusError>(id.0@),
                    Err(e) => decryption_of(token.token.x_1.c_2@, shares, self.decryption_threshold as nat) == Err::<Seq<u8>, CerberusError>(e),
                }
            },
    {
        if responses.len() < self.decryption_threshold {
            return Err(CerberusError::NotEnoughShares);
        }
        let mut shares: Vec<DecryptionShare> = Vec::new();
        let mut i: usize = 0;
        while i < self.decryption_threshold
            invariant
                i <= self.decryption_threshold <= responses@.len(),
                shares@ == responses@.subrange(0, i as int).map_values(
                    |resp: decryption::Response| resp.decryption_share,
                ),
            decreases self.decryption_threshold - i,
        {
            shares.push(responses[i].decryption_share);
            assert(responses@.subrange(0, i + 1).map_values(|resp: decryption::Response| resp.decryption_share)
                =~= shares@);
            i = i + 1;
        }
        token.token.x_1.decrypt_with_shares(&shares, self.decryption_threshold)
    }

    /// Finishes setup with every moderator's answer (in moderator order):
    /// each answer's commitments become that moderator's row.
    pub fn init(plan: SetupPlan, responses: Vec<setup::Response>) -> (r: Result<Coordinator, CerberusError>)
        requires
            valid_parameters(plan.n_moderators, plan.signing_threshold, plan.decryption_threshold, plan.batch_size),
        ensures
            r is Ok <==> (responses@.len() == plan.n_moderators && forall|j: int|
                0 <= j < responses@.len() ==> (#[trigger] responses@[j]).nonce_commitments@.len()
                    == plan.batch_size),
            r matches Err(e) ==> e == CerberusError::WrongBatchSize,
            r matches Ok(c) ==> {
                &&& c.wf()
                &&& c.n_moderators == plan.n_moderators
                &&& c.signing_threshold == plan.signing_threshold
                &&& c.decryption_threshold == plan.decryption_threshold
                &&& c.batch_size == plan.batch_size
                &&& c.group_public_elgamal_key == plan.group_public_elgamal_key
                &&& c.frost_public_key_package == plan.frost_public_key_package
                &&& forall|j: int|
                    0 <= j < c.n_moderators ==> (#[trigger] c.nonce_commitments@[j])@
                        == responses@[j].nonce_commitments@
            },
    {
        if responses.len() != plan.n_moderators {
            return Err(CerberusError::WrongBatchSize);
        }
        let mut j: usize = 0;
        while j < responses.len()
            invariant
                j <= responses@.len(),
                forall|k: int| 0 <= k < j ==> (#[trigger] responses@[k]).nonce_commitments@.len() == plan.batch_size,
            decreases responses@.len() - j,
        {
            if responses[j].nonce_commitments.len() != plan.batch_size {
                return Err(CerberusError::WrongBatchSize);
            }
            j = j + 1;
        }
        let ghost old_responses = responses@;
        let mut responses = responses;
        let mut nonce_commitments: Vec<Vec<SigningCommitments>> = Vec::new();
        let n = responses.len();
        let mut k: usize = 0;
        while k < n
            invariant
                k <= n,
                n == old_responses.len(),
                responses@ == old_responses.subrange(k as int, n as int),
                nonce_commitments@.len() == k,
                forall|i: int| 0 <= i < k ==> (#[trigger] nonce_commitments@[i])@ == old_responses[i].nonce_commitments@,
            decreases n - k,
        {
            let resp = responses.remove(0);
            nonce_commitments.push(resp.nonce_commitments);
            k = k + 1;
        }
        Ok(
            Coordinator {
                frost_public_key_package: plan.frost_public_key_package,
                group_public_elgamal_key: plan.group_public_elgamal_key,
                nonce_commitments,
                batch_size: plan.batch_size,
                n_moderators: plan.n_moderators,
                decryption_threshold: plan.decryption_threshold,
                signing_threshold: plan.signing_threshold,
            },
        )
    }
}

} // verus!
