//! Error taxonomy for the keystore core.
//!
//! Every operation is fail-fast and fail-closed: the first failing check
//! aborts the whole call with a specific code and no state mutation.

use vstd::prelude::*;

verus! {

/// Error codes returned by the keystore operations.
#[derive(Clone, Copy, Debug, PartialEq, Eq, Structural)]
pub enum KeystoreError {
    /// Signature bundle is empty or smaller than the identity's threshold.
    ThresholdNotMet,
    /// A `key_index` does not refer to a registered key.
    InvalidKeyIndex,
    /// The identity already holds the maximum number of keys.
    MaxKeysReached,
    /// A `SetThreshold` action carries a threshold outside `1..=keys.len()`.
    InvalidThreshold,
    /// No matching verifier instruction was found, or a key index repeats
    /// within one bundle.
    SignatureVerificationFailed,
    /// A verifier-instruction payload is malformed.
    InvalidSecp256r1Instruction,
    /// The public key is already registered on this identity.
    DuplicateKey,
    /// The public key does not carry a compressed-point prefix.
    InvalidPublicKey,
    /// A name or credential identifier has an invalid length.
    InvalidArgument,
    /// The recipient account is absent or differs from the action's target.
    InvalidAccountData,
    /// The vault balance cannot cover the transfer, or the remainder would
    /// fall below the minimum-balance floor without reaching zero.
    InsufficientFunds,
    /// The WebAuthn client data or its embedded challenge is invalid.
    InvalidWebAuthnData,
}

} // verus!
