//! The signing round: one request per batch slot, signature shares and the
//! next commitment batch back.
use vstd::prelude::*;
use crate::UserId;
use crate::scalar::Scalar;
use crate::schnorr::{SignatureShare, SigningCommitments};

verus! {

/// What a slot is signed over: the commitments of all moderators for the
/// slot, in moderator order, and the encoded token.
pub struct SigningPackage {
    pub commitments: Vec<SigningCommitments>,
    pub message: Vec<u8>,
}

/// The same batch of signing requests goes to every moderator.
pub struct Request {
    pub signing_requests: Vec<SigningRequest>,
}

/// A moderator's signature shares, one per slot, and the commitments to the
/// nonces that it will use for the next batch.
pub struct Response {
    pub signature_shares: Vec<SignatureShare>,
    pub new_nonce_commitments: Vec<SigningCommitments>,
}

/// One slot: the package to sign, and the randomness and identity that the
/// moderator uses to check the token's ciphertext.
pub struct SigningRequest {
    pub signing_package: SigningPackage,
    pub elgamal_randomness: Scalar,
    pub user_id: UserId,
}

} // verus!
