//! The moderator: holds a signing key share, a decryption key share and the
//! current nonce batch; checks and signs token batches and hands out
//! decryption shares.
use vstd::prelude::*;
use crate::communication::{decryption, setup, signing};
use crate::communication::signing::SigningRequest;
use crate::elgamal::{KeyShare, encryption_of};
use crate::error::CerberusError;
use crate::point::point_mul_of;
use crate::schnorr::{self, KeyPackage, SignatureShare, SigningCommitments, SigningNonces, commitments_of, package_includes, share_accepted, share_of};
use crate::token::{TOKEN_LEN, UnsignedToken};

verus! {

/// The ciphertext that an encoded token carries: bytes `8..40` and `40..72`.
pub open spec fn claimed_ciphertext(message: Seq<u8>) -> (Seq<u8>, Seq<u8>) {
    (message.subrange(8, 40), message.subrange(40, 72))
}

/// The moderator's check of one signing request: its message must be an
/// encoded token whose ciphertext is the encryption of the claimed identity
/// under the claimed randomness and the group public key.
pub open spec fn claim_check(key: KeyShare, req: SigningRequest) -> Result<(), CerberusError> {
    let message = req.signing_package.message@;
    if message.len() != TOKEN_LEN {
        Err(CerberusError::InvalidEncoding)
    } else {
        match encryption_of(key.pk.0.bytes@, req.user_id.0@, req.elgamal_randomness.field()) {
            None => Err(CerberusError::InvalidPoint),
            Some(ct) => if ct == claimed_ciphertext(message) {
                Ok(())
            } else {
                Err(CerberusError::EncryptionMismatch)
            },
        }
    }
}

/// What signing one slot with `nonces` gives: the claim check's error, a
/// package without this moderator's commitment, or frost's share.
pub open spec fn slot_outcome(m: Moderator, req: SigningRequest, nonces: SigningNonces) -> Result<
    SignatureShare,
    CerberusError,
> {
    match claim_check(m.encryption_keys, req) {
        Err(e) => Err(e),
        Ok(_) => if !package_includes(req.signing_package.commitments@, m.sk_signing) {
            Err(CerberusError::InvalidPackage)
        } else {
            match share_of(req.signing_package.commitments@, req.signing_package.message@, nonces, m.sk_signing) {
                Some(share) => Ok(share),
                None => Err(CerberusError::SigningFailure),
            }
        },
    }
}

/// A batch of the right size every slot of which signs.
pub open spec fn batch_signs(m: Moderator, reqs: Seq<SigningRequest>) -> bool {
    &&& reqs.len() == m.batch_size
    &&& forall|i: int| 0 <= i < reqs.len() ==> (#[trigger] slot_outcome(m, reqs[i], m.nonces@[i])) is Ok
}

/// Each commitment belongs to the nonces of the same slot.
pub open spec fn commitments_match(
    commitments: Seq<SigningCommitments>,
    nonces: Seq<SigningNonces>,
    key: KeyPackage,
) -> bool {
    &&& commitments.len() == nonces.len()
    &&& forall|k: int| 0 <= k < commitments.len() ==> #[trigger] commitments[k] == commitments_of(nonces[k], key)
}

/// One moderator.
pub struct Moderator {
    pub sk_signing: KeyPackage,
    pub encryption_keys: KeyShare,
    /// The size of the token batches.
    pub batch_size: usize,
    /// The nonces of the next batch; their commitments are what the
    /// coordinator holds for this moderator.
    pub nonces: Vec<SigningNonces>,
}

impl Moderator {
    /// One nonce per batch slot.
    pub open spec fn wf(&self) -> bool {
        self.nonces@.len() == self.batch_size
    }

    /// The size of the token batches this moderator signs.
    pub fn batch_size(&self) -> (r: usize)
        ensures
            r == self.batch_size,
    {
        self.batch_size
    }

    /// This moderator's decryption key share.
    pub fn encryption_keys(&self) -> (r: &KeyShare)
        ensures
            *r == self.encryption_keys,
    {
        &self.encryption_keys
    }

    /// Draws `batch_size` fresh nonces and their commitments.
    fn generate_nonces(key: &KeyPackage, batch_size: usize) -> (r: (Vec<SigningNonces>, Vec<SigningCommitments>))
        ensures
            r.0@.len() == batch_size,
            commitments_match(r.1@, r.0@, *key),
    {
        let mut nonces: Vec<SigningNonces> = Vec::new();
        let mut commitments: Vec<SigningCommitments> = Vec::new();
        let mut i: usize = 0;
        while i < batch_size
            invariant
                i <= batch_size,
                nonces@.len() == i,
                commitments_match(commitments@, nonces@, *key),
            decreases batch_size - i,
        {
            let (n, c) = schnorr::commit(key);
            nonces.push(n);
            commitments.push(c);
            i = i + 1;
        }
        (nonces, commitments)
    }

    /// A moderator with the given keys and a first nonce batch, and the
    /// commitments to that batch.
    pub fn new(signing_keys: KeyPackage, encryption_keys: KeyShare, batch_size: usize) -> (r: (
        Moderator,
        Vec<SigningCommitments>,
    ))
        ensures
            r.0.wf(),
            r.0.batch_size == batch_size,
            r.0.encryption_keys == encryption_keys,
            r.0.sk_signing == signing_keys,
            commitments_match(r.1@, r.0.nonces@, signing_keys),
    {
        let (nonces, commitments) = Moderator::generate_nonces(&signing_keys, batch_size);
        (Moderator { sk_signing: signing_keys, encryption_keys, batch_size, nonces }, commitments)
    }

    /// Sets a moderator up from the coordinator's setup request: checks the
    /// signing key share and draws the first nonce batch.
    pub fn new_from_setup_request(request: setup::Request) -> (r: Result<(Moderator, setup::Response), CerberusError>)
        ensures
            r is Ok <==> share_accepted(request.frost_secret_share),
            r matches Ok((m, resp)) ==> {
                &&& m.wf()
                &&& m.batch_size == request.batch_size
                &&& m.encryption_keys == request.elgamal_secret_share
                &&& commitments_match(resp.nonce_commitments@, m.nonces@, m.sk_signing)
            },
            r matches Err(e) ==> e == CerberusError::SigningFailure,
    {
        let batch_size = request.batch_size;
        let encryption_keys = request.elgamal_secret_share;
        match schnorr::key_package_from_share(request.frost_secret_share) {
            Some(key) => {
                let (moderator, nonce_commitments) = Moderator::new(key, encryption_keys, batch_size);
                Ok((moderator, setup::Response { nonce_commitments }))
            },
            None => Err(CerberusError::SigningFailure),
        }
    }

    /// Checks that the request's message is an encoded token whose
    /// ciphertext encrypts the claimed identity under the claimed
    /// randomness.
    pub fn verify_signing_request(&self, signing_request: &SigningRequest) -> (r: Result<(), CerberusError>)
        ensures
            r == claim_check(self.encryption_keys, *signing_request),
    {
        let token = match UnsignedToken::from_bytes(&signing_request.signing_package.message) {
            Some(t) => t,
            None => return Err(CerberusError::InvalidEncoding),
        };
        let calculated = match self.encryption_keys.encrypt(
            &signing_request.user_id,
            &signing_request.elgamal_randomness,
        ) {
            Ok(ct) => ct,
            Err(e) => return Err(e),
        };
        proof {
            let m = signing_request.signing_package.message@;
            assert(m.subrange(8, 40) =~= token.x_1.c_1.bytes@);
            assert(m.subrange(40, 72) =~= token.x_1.c_2@);
        }
        if calculated.same(&token.x_1) {
            Ok(())
        } else {
            Err(CerberusError::EncryptionMismatch)
        }
    }

    /// Signs one slot with the given nonces.
    fn sign_signing_request(&self, signing_request: &SigningRequest, nonces: &SigningNonces) -> (r: Result<
        SignatureShare,
        CerberusError,
    >)
        requires
            package_includes(signing_request.signing_package.commitments@, self.sk_signing),
        ensures
            r == (match share_of(
                signing_request.signing_package.commitments@,
                signing_request.signing_package.message@,
                *nonces,
                self.sk_signing,
            ) {
                Some(share) => Ok(share),
                None => Err(CerberusError::SigningFailure),
            }),
    {
        match schnorr::sign(
            &signing_request.signing_package.commitments,
            &signing_request.signing_package.message,
            nonces,
            &self.sk_signing,
        ) {
            Some(share) => Ok(share),
            None => Err(CerberusError::SigningFailure),
        }
    }

    /// Checks one slot and, if the check passes and the package holds this
    /// moderator's commitment, signs it.
    fn process_signing_request(&self, signing_request: &SigningRequest, nonces: &SigningNonces) -> (r: Result<
        SignatureShare,
        CerberusError,
    >)
        ensures
            r == slot_outcome(*self, *signing_request, *nonces),
    {
        match self.verify_signing_request(signing_request) {
            Ok(()) => {
                if !schnorr::includes_signer(&signing_request.signing_package.commitments, &self.sk_signing) {
                    return Err(CerberusError::InvalidPackage);
                }
                self.sign_signing_request(signing_request, nonces)
            },
            Err(e) => Err(e),
        }
    }

    /// Signs a whole batch: checks every slot, signs slot `i` with nonce
    /// `i`, then replaces the nonce batch by a fresh one and returns the
    /// signature shares with the commitments to the new batch. The batch
    /// fails as a whole if any slot fails; the nonces are then kept.
    pub fn sign_batch(&mut self, signing_requests: &Vec<SigningRequest>) -> (r: Result<
        (Vec<SignatureShare>, Vec<SigningCommitments>),
        CerberusError,
    >)
        requires
            old(self).wf(),
        ensures
            final(self).wf(),
            final(self).batch_size == old(self).batch_size,
            final(self).encryption_keys == old(self).encryption_keys,
            final(self).sk_signing == old(self).sk_signing,
            signing_requests@.len() != old(self).batch_size ==> r == Err::<
                (Vec<SignatureShare>, Vec<SigningCommitments>),
                CerberusError,
            >(CerberusError::WrongBatchSize),
            r is Ok <==> batch_signs(*old(self), signing_requests@),
            r matches Ok((shares, commitments)) ==> {
                &&& shares@.len() == signing_requests@.len()
                &&& forall|i: int|
                    0 <= i < shares@.len() ==> slot_outcome(
                        *old(self),
                        signing_requests@[i],
                        old(self).nonces@[i],
                    ) == Ok::<SignatureShare, CerberusError>(#[trigger] shares@[i])
                &&& commitments_match(commitments@, final(self).nonces@, final(self).sk_signing)
            },
            r matches Err(e) ==> e == CerberusError::WrongBatchSize || exists|i: int|
                0 <= i < signing_requests@.len() && #[trigger] slot_outcome(
                    *old(self),
                    signing_requests@[i],
                    old(self).nonces@[i],
                ) == Err::<SignatureShare, CerberusError>(e),
            r is Err ==> *final(self) == *old(self),
    {
        if signing_requests.len() != self.batch_size {
            return Err(CerberusError::WrongBatchSize);
        }
        let mut shares: Vec<SignatureShare> = Vec::new();
        let mut i: usize = 0;
        while i < signing_requests.len()
            invariant
                i <= signing_requests@.len(),
                *self == *old(self),
                old(self).wf(),
                signing_requests@.len() == self.batch_size,
                shares@.len() == i,
                forall|k: int|
                    0 <= k < i ==> slot_outcome(*self, signing_requests@[k], self.nonces@[k]) == Ok::<
                        SignatureShare,
                        CerberusError,
                    >(#[trigger] shares@[k]),
            decreases signing_requests@.len() - i,
        {
            let share = match self.process_signing_request(&signing_requests[i], &self.nonces[i]) {
                Ok(s) => s,
                Err(e) => return Err(e),
            };
            shares.push(share);
            i = i + 1;
        }
        assert forall|k: int| 0 <= k < signing_requests@.len() implies (#[trigger] slot_outcome(
            *self,
            signing_requests@[k],
            self.nonces@[k],
        )) is Ok by {
            assert(slot_outcome(*self, signing_requests@[k], self.nonces@[k]) == Ok::<SignatureShare, CerberusError>(shares@[k]));
        }
        let (new_nonces, new_commitments) = Moderator::generate_nonces(&self.sk_signing, self.batch_size);
        self.nonces = new_nonces;
        Ok((shares, new_commitments))
    }

    /// The decryption share of this moderator for the requested ciphertext.
    pub fn handle_decryption(&self, request: &decryption::Request) -> (r: Result<decryption::Response, CerberusError>)
        ensures
            r matches Ok(resp) ==> {
                &&& resp.decryption_share.0 == self.encryption_keys.identifier
                &&& point_mul_of(self.encryption_keys.sk.field(), request.x_1.c_1.bytes@) == Some(
                    resp.decryption_share.1.bytes@,
                )
            },
            r matches Err(e) ==> e == CerberusError::InvalidPoint && point_mul_of(
                self.encryption_keys.sk.field(),
                request.x_1.c_1.bytes@,
            ) is None,
    {
        match self.encryption_keys.decryption_share(&request.x_1) {
            Ok(decryption_share) => Ok(decryption::Response { decryption_share }),
            Err(e) => Err(e),
        }
    }

    /// Answers a signing round: the signature shares and the next
    /// commitments, in one response.
    pub fn handle_signing(&mut self, request: &signing::Request) -> (r: Result<signing::Response, CerberusError>)
        requires
            old(self).wf(),
        ensures
            final(self).wf(),
            final(self).batch_size == old(self).batch_size,
            final(self).encryption_keys == old(self).encryption_keys,
            final(self).sk_signing == old(self).sk_signing,
            r is Ok <==> batch_signs(*old(self), request.signing_requests@),
            r matches Ok(resp) ==> {
                &&& resp.signature_shares@.len() == request.signing_requests@.len()
                &&& forall|i: int|
                    0 <= i < resp.signature_shares@.len() ==> slot_outcome(
                        *old(self),
                        request.signing_requests@[i],
                        old(self).nonces@[i],
                    ) == Ok::<SignatureShare, CerberusError>(#[trigger] resp.signature_shares@[i])
                &&& commitments_match(resp.new_nonce_commitments@, final(self).nonces@, final(self).sk_signing)
            },
            r is Err ==> *final(self) == *old(self),
    {
        match self.sign_batch(&request.signing_requests) {
            Ok((signature_shares, new_nonce_commitments)) => Ok(
                signing::Response { signature_shares, new_nonce_commitments },
            ),
            Err(e) => Err(e),
        }
    }
}

/// Where a moderator process stands: waiting for setup, serving, or shut
/// down.
pub enum ModeratorState {
    Unconfigured,
    Ready(Moderator),
    Halted,
}

impl ModeratorState {
    /// A serving moderator holds one nonce per batch slot.
    pub open spec fn wf(&self) -> bool {
        self matches ModeratorState::Ready(m) ==> m.wf()
    }

    /// A fresh process, before setup.
    pub fn new() -> (r: ModeratorState)
        ensures
            r is Unconfigured,
    {
        ModeratorState::Unconfigured
    }

    /// Setup must come first and only once: it configures an unconfigured
    /// moderator and answers with the first commitment batch.
    pub fn handle_setup(&mut self, request: setup::Request) -> (r: Result<setup::Response, CerberusError>)
        requires
            old(self).wf(),
        ensures
            final(self).wf(),
            !((*old(self)) is Unconfigured) ==> r == Err::<setup::Response, CerberusError>(
                CerberusError::UnexpectedRequest,
            ) && *final(self) == *old(self),
            r is Err ==> *final(self) == *old(self),
            (*old(self)) is Unconfigured ==> (r is Ok <==> share_accepted(request.frost_secret_share)),
            r matches Ok(resp) ==> {
                &&& *old(self) is Unconfigured
                &&& *final(self) matches ModeratorState::Ready(m) && m.batch_size == request.batch_size
                    && m.encryption_keys == request.elgamal_secret_share
                &&& commitments_match(resp.nonce_commitments@, final(self)->Ready_0.nonces@, final(self)->Ready_0.sk_signing)
            },
    {
        match self {
            ModeratorState::Unconfigured => {},
            _ => return Err(CerberusError::UnexpectedRequest),
        }
        match Moderator::new_from_setup_request(request) {
            Ok((moderator, response)) => {
                *self = ModeratorState::Ready(moderator);
                Ok(response)
            },
            Err(e) => Err(e),
        }
    }

    /// Signs a batch on a configured moderator; any other state refuses.
    pub fn handle_signing(&mut self, request: &signing::Request) -> (r: Result<signing::Response, CerberusError>)
        requires
            old(self).wf(),
        ensures
            final(self).wf(),
            !((*old(self)) is Ready) ==> r == Err::<signing::Response, CerberusError>(CerberusError::UnexpectedRequest),
            r is Err ==> *final(self) == *old(self),
            (*old(self)) is Ready ==> (r is Ok <==> batch_signs((*old(self))->Ready_0, request.signing_requests@)),
            r matches Ok(resp) ==> {
                &&& *old(self) is Ready
                &&& *final(self) is Ready
                &&& final(self)->Ready_0.sk_signing == (*old(self))->Ready_0.sk_signing
                &&& final(self)->Ready_0.encryption_keys == (*old(self))->Ready_0.encryption_keys
                &&& final(self)->Ready_0.batch_size == (*old(self))->Ready_0.batch_size
                &&& resp.signature_shares@.len() == request.signing_requests@.len()
                &&& forall|i: int|
                    0 <= i < resp.signature_shares@.len() ==> slot_outcome(
                        (*old(self))->Ready_0,
                        request.signing_requests@[i],
                        (*old(self))->Ready_0.nonces@[i],
                    ) == Ok::<SignatureShare, CerberusError>(#[trigger] resp.signature_shares@[i])
                &&& commitments_match(
                    resp.new_nonce_commitments@,
                    final(self)->Ready_0.nonces@,
                    final(self)->Ready_0.sk_signing,
                )
            },
    {
        match self {
            ModeratorState::Ready(moderator) => moderator.handle_signing(request),
            _ => Err(CerberusError::UnexpectedRequest),
        }
    }

    /// Hands out a decryption share on a configured moderator; any other
    /// state refuses.
    pub fn handle_decryption(&self, request: &decryption::Request) -> (r: Result<decryption::Response, CerberusError>)
        ensures
            !(self is Ready) ==> r == Err::<decryption::Response, CerberusError>(CerberusError::UnexpectedRequest),
            r matches Ok(resp) ==> {
                &&& self is Ready
                &&& resp.decryption_share.0 == self->Ready_0.encryption_keys.identifier
                &&& point_mul_of(self->Ready_0.encryption_keys.sk.field(), request.x_1.c_1.bytes@) == Some(
                    resp.decryption_share.1.bytes@,
                )
            },
    {
        match self {
            ModeratorState::Ready(moderator) => moderator.handle_decryption(request),
            _ => Err(CerberusError::UnexpectedRequest),
        }
    }

    /// Shuts a configured moderator down; any other state refuses.
    pub fn handle_shutdown(&mut self) -> (r: Result<(), CerberusError>)
        ensures
            r is Ok <==> *old(self) is Ready,
            r is Ok ==> *final(self) is Halted,
            r matches Err(e) ==> e == CerberusError::UnexpectedRequest && *final(self) == *old(self),
    {
        match self {
            ModeratorState::Ready(_) => {
                *self = ModeratorState::Halted;
                Ok(())
            },
            _ => Err(CerberusError::UnexpectedRequest),
        }
    }
}

} // verus!
