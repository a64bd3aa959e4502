use keystore::{
    add_key, base64url_decode, build_message, build_secp256r1_instruction, create_identity,
    execute_webauthn, verify_webauthn_challenge, Action, BatchInstruction, Identity,
    KeystoreError, WebAuthnSignatureData,
};

fn sha256(bytes: &[u8]) -> Vec<u8> {
    anchor_lang::solana_program::hash::hash(bytes).to_bytes().to_vec()
}

fn b64url_encode(bytes: &[u8]) -> String {
    const ALPHABET: &[u8] = b"ABCDEFGHIJKLMNOPQRSTUVWXYZabcdefghijklmnopqrstuvwxyz0123456789-_";
    let mut out = String::new();
    for chunk in bytes.chunks(3) {
        let b0 = chunk[0] as u32;
        let b1 = *chunk.get(1).unwrap_or(&0) as u32;
        let b2 = *chunk.get(2).unwrap_or(&0) as u32;
        let n = (b0 << 16) | (b1 << 8) | b2;
        out.push(ALPHABET[(n >> 18) as usize & 63] as char);
        out.push(ALPHABET[(n >> 12) as usize & 63] as char);
        if chunk.len() > 1 {
            out.push(ALPHABET[(n >> 6) as usize & 63] as char);
        }
        if chunk.len() > 2 {
            out.push(ALPHABET[n as usize & 63] as char);
        }
    }
    out
}

fn sample_pubkey(fill: u8) -> Vec<u8> {
    let mut pk = vec![0x02u8];
    pk.extend_from_slice(&[fill; 32]);
    pk
}

fn one_key_identity() -> Identity {
    create_identity(sample_pubkey(1), b"phone".to_vec(), 0, 0, 0).unwrap()
}

fn client_data_json(challenge: &str) -> Vec<u8> {
    format!(
        "{{\"type\":\"webauthn.get\",\"challenge\":\"{}\",\"origin\":\"https://example.com\"}}",
        challenge
    )
    .into_bytes()
}

/// The assertion and matching batch for `action` signed at the identity's
/// current nonce by its key `key_index`.
fn assertion_for(
    id: &Identity,
    action: &Action,
    key_index: u8,
) -> (WebAuthnSignatureData, Vec<BatchInstruction>) {
    let message = build_message(action, id.nonce);
    let challenge = b64url_encode(&sha256(&message));
    let cdj = client_data_json(&challenge);
    let authenticator_data = vec![0xAAu8; 37];
    let mut signed_payload = authenticator_data.clone();
    signed_payload.extend_from_slice(&sha256(&cdj));
    let signature = vec![0x11u8; 64];
    let batch = vec![build_secp256r1_instruction(
        &id.keys[key_index as usize].pubkey,
        &signed_payload,
        &signature,
    )];
    let wsig = WebAuthnSignatureData {
        key_index,
        signature,
        authenticator_data,
        client_data_json: cdj,
    };
    (wsig, batch)
}

#[test]
fn test_base64url_decode_basic() {
    assert_eq!(base64url_decode(b"aGVsbG8").unwrap(), b"hello".to_vec());
}

#[test]
fn test_base64url_decode_skips_padding() {
    assert_eq!(base64url_decode(b"aGVsbG8=").unwrap(), b"hello".to_vec());
}

#[test]
fn test_base64url_decode_url_safe_alphabet() {
    // 0xfb 0xef encodes to "--8" in the url-safe alphabet.
    assert_eq!(base64url_decode(b"--8").unwrap(), vec![0xfbu8, 0xef]);
    assert_eq!(base64url_decode(b"__8").unwrap(), vec![0xffu8, 0xff]);
}

#[test]
fn test_base64url_decode_rejects_invalid_byte() {
    assert!(base64url_decode(b"aGV+bG8").is_err());
    assert!(base64url_decode(b"aGV/bG8").is_err());
}

#[test]
fn test_base64url_decode_empty() {
    assert_eq!(base64url_decode(b"").unwrap(), Vec::<u8>::new());
}

#[test]
fn test_base64url_decode_remainders() {
    // Two sextets give one byte, three give two.
    assert_eq!(base64url_decode(b"aGVsbA").unwrap(), b"hell".to_vec());
    assert_eq!(base64url_decode(b"aGVsbG8h").unwrap(), b"hello!".to_vec());
}

#[test]
fn test_challenge_match() {
    let digest = sha256(b"a message");
    let cdj = client_data_json(&b64url_encode(&digest));
    assert_eq!(verify_webauthn_challenge(&cdj, &digest), Ok(()));
}

#[test]
fn test_challenge_digest_pinned() {
    // SHA-256 of the canonical message for SetThreshold{2} at nonce 0.
    let message = build_message(&Action::SetThreshold { threshold: 2 }, 0);
    assert_eq!(message, vec![1u8, 2, 0, 0, 0, 0, 0, 0, 0, 0]);
    let expected: [u8; 32] = [
        81, 206, 139, 3, 4, 22, 151, 225, 142, 42, 36, 213, 49, 30, 20, 187, 29, 244, 218, 17,
        150, 53, 187, 132, 36, 108, 27, 4, 115, 22, 228, 107,
    ];
    assert_eq!(sha256(&message), expected.to_vec());
    let cdj = client_data_json("Uc6LAwQWl-GOKiTVMR4Uux302hGWNbuEJGwbBHMW5Gs");
    assert_eq!(verify_webauthn_challenge(&cdj, &expected), Ok(()));
}

#[test]
fn test_challenge_mismatch_rejected() {
    let digest = sha256(b"a message");
    let cdj = client_data_json(&b64url_encode(&sha256(b"another message")));
    assert_eq!(
        verify_webauthn_challenge(&cdj, &digest),
        Err(KeystoreError::InvalidWebAuthnData)
    );
}

#[test]
fn test_challenge_field_absent_rejected() {
    let digest = sha256(b"a message");
    let cdj = b"{\"type\":\"webauthn.get\"}".to_vec();
    assert_eq!(
        verify_webauthn_challenge(&cdj, &digest),
        Err(KeystoreError::InvalidWebAuthnData)
    );
}

#[test]
fn test_challenge_unterminated_rejected() {
    let digest = sha256(b"a message");
    let cdj = b"{\"challenge\":\"Uc6L".to_vec();
    assert_eq!(
        verify_webauthn_challenge(&cdj, &digest),
        Err(KeystoreError::InvalidWebAuthnData)
    );
}

#[test]
fn test_execute_webauthn_set_threshold() {
    let mut id = one_key_identity();
    add_key(&mut id, sample_pubkey(2), b"laptop".to_vec(), 0).unwrap();
    let action = Action::SetThreshold { threshold: 2 };
    let (wsig, batch) = assertion_for(&id, &action, 0);
    let current_index = batch.len();

    let r = execute_webauthn(&mut id, 0, 0, None, &batch, current_index, &action, &wsig);
    assert_eq!(r, Ok(()));
    assert_eq!(id.threshold, 2);
    assert_eq!(id.nonce, 1);

    // With the threshold now at two, a further single assertion is one
    // signature short of the quorum and is rejected outright.
    let next_action = Action::SetThreshold { threshold: 1 };
    let (next_wsig, next_batch) = assertion_for(&id, &next_action, 0);
    let r = execute_webauthn(&mut id, 0, 0, None, &next_batch, next_batch.len(), &next_action, &next_wsig);
    assert_eq!(r, Err(KeystoreError::ThresholdNotMet));
    assert_eq!(id.threshold, 2);
    assert_eq!(id.nonce, 1);
}

#[test]
fn test_execute_webauthn_rejected_above_threshold_one() {
    let mut id = one_key_identity();
    add_key(&mut id, sample_pubkey(2), b"laptop".to_vec(), 0).unwrap();
    id.threshold = 2;
    let recipient = vec![9u8; 32];
    let action = Action::Send { to: recipient.clone(), lamports: 250 };
    let (wsig, batch) = assertion_for(&id, &action, 0);
    let current_index = batch.len();

    // The assertion is valid in every other respect, but one signature
    // cannot meet a quorum of two.
    let r = execute_webauthn(&mut id, 1000, 100, Some(&recipient), &batch, current_index, &action, &wsig);
    assert_eq!(r, Err(KeystoreError::ThresholdNotMet));
    assert_eq!(id.nonce, 0);
    assert_eq!(id.threshold, 2);
}

#[test]
fn test_execute_webauthn_send() {
    let mut id = one_key_identity();
    let recipient = vec![9u8; 32];
    let action = Action::Send { to: recipient.clone(), lamports: 250 };
    let (wsig, batch) = assertion_for(&id, &action, 0);
    let current_index = batch.len();

    let r = execute_webauthn(&mut id, 1000, 100, Some(&recipient), &batch, current_index, &action, &wsig);
    assert_eq!(r, Ok(()));
    assert_eq!(id.nonce, 1);
}

#[test]
fn test_execute_webauthn_other_action_rejected() {
    let mut id = one_key_identity();
    let recipient = vec![9u8; 32];
    let signed_action = Action::Send { to: recipient.clone(), lamports: 250 };
    let (wsig, batch) = assertion_for(&id, &signed_action, 0);
    let current_index = batch.len();

    // The submitted action differs from the one the challenge was built for.
    let other_action = Action::Send { to: recipient.clone(), lamports: 9999 };
    let r = execute_webauthn(&mut id, 100000, 100, Some(&recipient), &batch, current_index, &other_action, &wsig);
    assert_eq!(r, Err(KeystoreError::InvalidWebAuthnData));
    assert_eq!(id.nonce, 0);
}

#[test]
fn test_execute_webauthn_stale_nonce_rejected() {
    let mut id = one_key_identity();
    let recipient = vec![9u8; 32];
    let action = Action::Send { to: recipient.clone(), lamports: 250 };
    let (wsig, batch) = assertion_for(&id, &action, 0);
    let current_index = batch.len();

    let r = execute_webauthn(&mut id, 1000, 100, Some(&recipient), &batch, current_index, &action, &wsig);
    assert_eq!(r, Ok(()));
    assert_eq!(id.nonce, 1);

    // The same assertion embeds the challenge for nonce 0 and is now stale.
    let r = execute_webauthn(&mut id, 1000, 100, Some(&recipient), &batch, current_index, &action, &wsig);
    assert_eq!(r, Err(KeystoreError::InvalidWebAuthnData));
    assert_eq!(id.nonce, 1);
}

#[test]
fn test_execute_webauthn_invalid_key_index_rejected() {
    let mut id = one_key_identity();
    let action = Action::SetThreshold { threshold: 1 };
    let (mut wsig, batch) = assertion_for(&id, &action, 0);
    wsig.key_index = 3;
    let current_index = batch.len();

    let r = execute_webauthn(&mut id, 0, 0, None, &batch, current_index, &action, &wsig);
    assert_eq!(r, Err(KeystoreError::InvalidKeyIndex));
    assert_eq!(id.nonce, 0);
}

#[test]
fn test_execute_webauthn_unverified_signature_rejected() {
    let mut id = one_key_identity();
    let action = Action::SetThreshold { threshold: 1 };
    let (wsig, _) = assertion_for(&id, &action, 0);

    // No verifier instruction stands in the batch at all.
    let r = execute_webauthn(&mut id, 0, 0, None, &Vec::new(), 0, &action, &wsig);
    assert_eq!(r, Err(KeystoreError::SignatureVerificationFailed));
    assert_eq!(id.nonce, 0);
}
