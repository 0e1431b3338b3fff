//! Failures of the protocol.
use vstd::prelude::*;

verus! {

/// What went wrong in a protocol step.
#[derive(Clone, Copy, Debug, PartialEq, Eq)]
pub enum CerberusError {
    /// Thresholds, moderator count or batch size out of range.
    InvalidParameters,
    /// Bytes that do not encode a group element where one is needed.
    InvalidPoint,
    /// A token encoding of the wrong length.
    InvalidEncoding,
    /// A signing request whose ciphertext is not the encryption of the
    /// claimed identity under the claimed randomness.
    EncryptionMismatch,
    /// A batch, or a set of moderator responses, of the wrong size.
    WrongBatchSize,
    /// Fewer decryption shares than the threshold.
    NotEnoughShares,
    /// Two decryption shares with the same identifier.
    DuplicateShare,
    /// The threshold signature scheme refused a key, a package or a share.
    SigningFailure,
    /// A signing package without this moderator's commitment, or a
    /// signature share of a signer that the package or the group keys do
    /// not know.
    InvalidPackage,
    /// A request that the moderator's current state does not accept.
    UnexpectedRequest,
}

} // verus!
