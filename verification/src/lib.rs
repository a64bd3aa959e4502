//! Multi-key identity and authorization core.
//!
//! An identity holds up to five registered public keys, a signing threshold
//! and a replay-protecting nonce. State-changing actions require a quorum of
//! signatures over a canonical message; each signature is authenticated by
//! locating a matching verifier instruction inside the same atomic request
//! batch rather than by local cryptography. A WebAuthn adapter maps a single
//! passkey assertion onto the same primitive through an embedded challenge.

pub mod bytes;
pub mod error;
pub mod execute;
pub mod hash;
pub mod message;
pub mod secp256r1;
pub mod state;
pub mod webauthn;

pub use crate::error::KeystoreError;
pub use crate::execute::execute;
pub use crate::execute::execute_webauthn;
pub use crate::execute::{SignatureData, WebAuthnSignatureData};
pub use crate::message::{build_message, Action};
pub use crate::secp256r1::{
    build_secp256r1_instruction, secp256r1_program_id, verify_secp256r1_signature,
    BatchInstruction, Secp256r1InstructionData,
};
pub use crate::state::{
    add_key, create_identity, register_credential, CredentialRegistry, Identity, RegisteredKey,
};
pub use crate::webauthn::{base64url_decode, verify_webauthn_challenge};
