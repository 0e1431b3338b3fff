//! The setup round: key material in, the first commitment batch out.
use vstd::prelude::*;
use crate::elgamal::KeyShare;
use crate::schnorr::{SecretShare, SigningCommitments};

verus! {

/// A moderator's signing key share, decryption key share and batch size.
pub struct Request {
    pub frost_secret_share: SecretShare,
    pub elgamal_secret_share: KeyShare,
    pub batch_size: usize,
}

/// The commitments to the moderator's first nonce batch.
pub struct Response {
    pub nonce_commitments: Vec<SigningCommitments>,
}

} // verus!
