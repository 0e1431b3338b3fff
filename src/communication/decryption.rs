//! The decryption round: a ciphertext out, a decryption share back.
use vstd::prelude::*;
use crate::elgamal::{DecryptionShare, EncryptedUserId};

verus! {

/// A request for a decryption share of `x_1`, with the report's message.
pub struct Request {
    pub message: Vec<u8>,
    pub x_1: EncryptedUserId,
}

/// One moderator's decryption share.
pub struct Response {
    pub decryption_share: DecryptionShare,
}

} // verus!
