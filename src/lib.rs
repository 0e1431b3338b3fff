//! Threshold issuance and threshold opening of anonymous moderator tokens.
//!
//! A coordinator and `n` moderators jointly issue tokens that carry an
//! ElGamal encryption of a sender identity together with a threshold Schnorr
//! signature, and later open such a token with a threshold of decryption
//! shares.
use vstd::prelude::*;

pub mod bytes;
pub mod communication;
pub mod coordinator;
pub mod elgamal;
pub mod error;
pub mod moderator;
pub mod parameters;
pub mod point;
pub mod scalar;
pub mod schnorr;
pub mod shamir;
pub mod token;

pub use coordinator::Coordinator;
pub use moderator::Moderator;

verus! {

/// A 32-byte opaque user identifier; equality is byte equality.
#[derive(Clone, Copy, Debug, PartialEq, Eq)]
pub struct UserId(pub [u8; 32]);

impl UserId {
    /// A uniformly random identifier.
    pub fn random() -> (r: UserId) {
        UserId(random_bytes())
    }
}

/// Relies on rand's `random` for `[u8; 32]`: 32 uniformly random bytes from
/// the thread-local generator.
#[verifier::external_body]
fn random_bytes() -> (r: [u8; 32]) {
    rand::random()
}

/// Placeholder for a user's ephemeral public key.
pub type UserPublicKey = [u8; 32];

} // verus!
