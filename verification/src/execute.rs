//! Authorization engine.
//!
//! Validates a signature bundle against the identity's threshold, rejects
//! duplicate key indices, authenticates every signature through the oracle,
//! checks that the action can apply, and only then mutates state: the nonce
//! advances by exactly one before the action is applied, and any failing
//! precondition leaves the identity untouched.

use vstd::prelude::*;

use crate::bytes::{bytes_eq, push_bytes};
use crate::error::KeystoreError;
use crate::hash::{sha256, sha256_of};
use crate::message::{action_wf, build_message, message_bytes, Action};
use crate::secp256r1::{
    batch_has_match, extracted_message, instruction_matches, verifier_program_id,
    verify_secp256r1_signature, BatchInstruction,
};
use crate::state::{identity_wf, Identity, RegisteredKey};
use crate::webauthn::{challenge_of, verify_webauthn_challenge};

verus! {

/// One raw signature over the canonical message.
#[derive(Clone, Debug)]
pub struct SignatureData {
    /// Index of the signing key within the identity's key list.
    pub key_index: u8,
    /// 64-byte signature (r followed by s).
    pub signature: Vec<u8>,
    /// Recovery hint; carried through, not interpreted.
    pub recovery_id: u8,
}

/// One WebAuthn assertion.
#[derive(Clone, Debug)]
pub struct WebAuthnSignatureData {
    /// Index of the signing key within the identity's key list.
    pub key_index: u8,
    /// 64-byte signature (r followed by s).
    pub signature: Vec<u8>,
    /// Opaque authenticator-produced bytes, first half of the signed payload.
    pub authenticator_data: Vec<u8>,
    /// UTF-8 client-data JSON carrying the embedded challenge.
    pub client_data_json: Vec<u8>,
}

/// The view of an optional recipient address.
pub open spec fn opt_bytes(r: Option<&[u8]>) -> Option<Seq<u8>> {
    match r {
        None => None,
        Some(b) => Some(b@),
    }
}

/// Two bundle entries share a key index.
pub open spec fn has_duplicate_index(sigs: Seq<SignatureData>) -> bool {
    exists|i: int, j: int| 0 <= i < j < sigs.len() && sigs[i].key_index == sigs[j].key_index
}

/// The bundle entry resolves to a registered key, and a verifier instruction
/// matching (that key, the canonical message, the entry's signature) stands
/// earlier in the batch.
pub open spec fn sig_authorized(
    keys: Seq<RegisteredKey>,
    batch: Seq<BatchInstruction>,
    current_index: int,
    msg: Seq<u8>,
    s: SignatureData,
) -> bool {
    &&& (s.key_index as int) < keys.len()
    &&& batch_has_match(batch, current_index, keys[s.key_index as int].pubkey@, msg, s.signature@)
}

/// Every bundle entry is authorized.
pub open spec fn all_sigs_authorized(
    keys: Seq<RegisteredKey>,
    batch: Seq<BatchInstruction>,
    current_index: int,
    msg: Seq<u8>,
    sigs: Seq<SignatureData>,
) -> bool {
    forall|k: int|
        0 <= k < sigs.len() ==> sig_authorized(keys, batch, current_index, msg, #[trigger] sigs[k])
}

/// The first error found scanning the bundle in order: an out-of-range key
/// index, or a signature without a matching verifier instruction.
pub open spec fn first_sig_error(
    keys: Seq<RegisteredKey>,
    batch: Seq<BatchInstruction>,
    current_index: int,
    msg: Seq<u8>,
    sigs: Seq<SignatureData>,
) -> Option<KeystoreError>
    decreases sigs.len(),
{
    if sigs.len() == 0 {
        None
    } else if sigs[0].key_index as int >= keys.len() {
        Some(KeystoreError::InvalidKeyIndex)
    } else if !batch_has_match(
        batch,
        current_index,
        keys[sigs[0].key_index as int].pubkey@,
        msg,
        sigs[0].signature@,
    ) {
        Some(KeystoreError::SignatureVerificationFailed)
    } else {
        first_sig_error(keys, batch, current_index, msg, sigs.drop_first())
    }
}

/// Whether the action itself can apply, and the error when it cannot: a
/// `Send` needs the supplied recipient to match its target and an amount the
/// vault covers whose remainder is zero or at least the floor; a
/// `SetThreshold` needs a value within `1..=keys.len()`.
pub open spec fn action_error(
    action: Action,
    keys_len: int,
    recipient: Option<Seq<u8>>,
    vault_balance: u64,
    min_balance: u64,
) -> Option<KeystoreError> {
    match action {
        Action::Send { to, lamports } => {
            if recipient is None {
                Some(KeystoreError::InvalidAccountData)
            } else if recipient.unwrap() != to@ {
                Some(KeystoreError::InvalidAccountData)
            } else if vault_balance < lamports {
                Some(KeystoreError::InsufficientFunds)
            } else if !(vault_balance - lamports == 0 || vault_balance - lamports
                >= min_balance) {
                Some(KeystoreError::InsufficientFunds)
            } else {
                None
            }
        },
        Action::SetThreshold { threshold } => {
            if threshold == 0 || threshold as int > keys_len {
                Some(KeystoreError::InvalidThreshold)
            } else {
                None
            }
        },
    }
}

/// The full authorization decision for a raw-signature bundle: the result
/// `execute` returns, with each rejection's error code.
pub open spec fn execute_decision(
    identity: Identity,
    vault_balance: u64,
    min_balance: u64,
    recipient: Option<Seq<u8>>,
    batch: Seq<BatchInstruction>,
    current_index: int,
    action: Action,
    sigs: Seq<SignatureData>,
) -> Result<(), KeystoreError> {
    let msg = message_bytes(action, identity.nonce);
    let sig_err = first_sig_error(identity.keys@, batch, current_index, msg, sigs);
    let act_err = action_error(
        action,
        identity.keys@.len() as int,
        recipient,
        vault_balance,
        min_balance,
    );
    if sigs.len() == 0 || sigs.len() < identity.threshold as int {
        Err(KeystoreError::ThresholdNotMet)
    } else if has_duplicate_index(sigs) {
        Err(KeystoreError::SignatureVerificationFailed)
    } else if sig_err is Some {
        Err(sig_err.unwrap())
    } else if act_err is Some {
        Err(act_err.unwrap())
    } else {
        Ok(())
    }
}

/// The conditions under which a raw-signature authorization succeeds: a
/// bundle at least as large as the threshold, no repeated key index, every
/// entry authorized for the canonical message at the current nonce, and an
/// applicable action.
pub open spec fn execute_ok(
    identity: Identity,
    vault_balance: u64,
    min_balance: u64,
    recipient: Option<Seq<u8>>,
    batch: Seq<BatchInstruction>,
    current_index: int,
    action: Action,
    sigs: Seq<SignatureData>,
) -> bool {
    &&& sigs.len() >= 1
    &&& sigs.len() >= identity.threshold as int
    &&& !has_duplicate_index(sigs)
    &&& all_sigs_authorized(
        identity.keys@,
        batch,
        current_index,
        message_bytes(action, identity.nonce),
        sigs,
    )
    &&& action_error(
        action,
        identity.keys@.len() as int,
        recipient,
        vault_balance,
        min_balance,
    ) is None
}

/// The ordered scan finds no error exactly when every entry is authorized.
proof fn lemma_first_sig_error_none(
    keys: Seq<RegisteredKey>,
    batch: Seq<BatchInstruction>,
    current_index: int,
    msg: Seq<u8>,
    sigs: Seq<SignatureData>,
)
    ensures
        (first_sig_error(keys, batch, current_index, msg, sigs) is None) == all_sigs_authorized(
            keys,
            batch,
            current_index,
            msg,
            sigs,
        ),
    decreases sigs.len(),
{
    if sigs.len() == 0 {
    } else {
        let rest = sigs.drop_first();
        lemma_first_sig_error_none(keys, batch, current_index, msg, rest);
        if sig_authorized(keys, batch, current_index, msg, sigs[0]) && all_sigs_authorized(
            keys,
            batch,
            current_index,
            msg,
            rest,
        ) {
            assert forall|k: int| 0 <= k < sigs.len() implies sig_authorized(
                keys,
                batch,
                current_index,
                msg,
                #[trigger] sigs[k],
            ) by {
                if k > 0 {
                    assert(sigs[k] == rest[k - 1]);
                }
            }
        }
        if all_sigs_authorized(keys, batch, current_index, msg, sigs) {
            assert forall|k: int| 0 <= k < rest.len() implies sig_authorized(
                keys,
                batch,
                current_index,
                msg,
                #[trigger] rest[k],
            ) by {
                assert(rest[k] == sigs[k + 1]);
            }
        }
    }
}

/// A raw-signature authorization succeeds exactly under `execute_ok`.
pub proof fn lemma_execute_ok_iff(
    identity: Identity,
    vault_balance: u64,
    min_balance: u64,
    recipient: Option<Seq<u8>>,
    batch: Seq<BatchInstruction>,
    current_index: int,
    action: Action,
    sigs: Seq<SignatureData>,
)
    ensures
        (execute_decision(
            identity,
            vault_balance,
            min_balance,
            recipient,
            batch,
            current_index,
            action,
            sigs,
        ) is Ok) == execute_ok(
            identity,
            vault_balance,
            min_balance,
            recipient,
            batch,
            current_index,
            action,
            sigs,
        ),
{
    lemma_first_sig_error_none(
        identity.keys@,
        batch,
        current_index,
        message_bytes(action, identity.nonce),
        sigs,
    );
}

/// A bundle with a repeated key index is always rejected, whatever its
/// signatures.
pub proof fn lemma_duplicate_bundle_rejected(
    identity: Identity,
    vault_balance: u64,
    min_balance: u64,
    recipient: Option<Seq<u8>>,
    batch: Seq<BatchInstruction>,
    current_index: int,
    action: Action,
    sigs: Seq<SignatureData>,
)
    requires
        has_duplicate_index(sigs),
    ensures
        execute_decision(
            identity,
            vault_balance,
            min_balance,
            recipient,
            batch,
            current_index,
            action,
            sigs,
        ) is Err,
{
}

/// A successful `Send` leaves the vault either empty or at or above the
/// minimum-balance floor; a violating transfer is rejected.
pub proof fn lemma_send_respects_floor(
    identity: Identity,
    vault_balance: u64,
    min_balance: u64,
    recipient: Option<Seq<u8>>,
    batch: Seq<BatchInstruction>,
    current_index: int,
    action: Action,
    sigs: Seq<SignatureData>,
)
    requires
        execute_decision(
            identity,
            vault_balance,
            min_balance,
            recipient,
            batch,
            current_index,
            action,
            sigs,
        ) is Ok,
        action matches Action::Send { .. },
    ensures
        action matches Action::Send { to, lamports } ==> vault_balance >= lamports && (
        vault_balance - lamports == 0 || vault_balance - lamports >= min_balance),
{
}

/// Once the identity's nonce has moved past the nonce a bundle was signed
/// for, the bundle is always rejected: every verifier instruction in the
/// batch carries the old nonce's canonical message, which differs from the
/// current one.
pub proof fn lemma_stale_bundle_rejected(
    identity: Identity,
    vault_balance: u64,
    min_balance: u64,
    recipient: Option<Seq<u8>>,
    batch: Seq<BatchInstruction>,
    current_index: int,
    action: Action,
    sigs: Seq<SignatureData>,
    signed_nonce: u64,
)
    requires
        identity_wf(identity),
        identity.nonce != signed_nonce,
        0 <= current_index <= batch.len(),
        forall|i: int|
            0 <= i < current_index && (#[trigger] batch[i]).program_id@ == verifier_program_id()
                ==> extracted_message(batch[i].data@) == message_bytes(action, signed_nonce),
    ensures
        execute_decision(
            identity,
            vault_balance,
            min_balance,
            recipient,
            batch,
            current_index,
            action,
            sigs,
        ) is Err,
{
    let msg = message_bytes(action, identity.nonce);
    if execute_decision(
        identity,
        vault_balance,
        min_balance,
        recipient,
        batch,
        current_index,
        action,
        sigs,
    ) is Ok {
        lemma_execute_ok_iff(
            identity,
            vault_balance,
            min_balance,
            recipient,
            batch,
            current_index,
            action,
            sigs,
        );
        assert(sigs.len() >= 1);
        assert(sig_authorized(identity.keys@, batch, current_index, msg, sigs[0]));
        let pk = identity.keys@[sigs[0].key_index as int].pubkey@;
        let i = choose|i: int|
            0 <= i < current_index && (#[trigger] batch[i]).program_id@ == verifier_program_id()
                && instruction_matches(batch[i].data@, pk, msg, sigs[0].signature@);
        assert(extracted_message(batch[i].data@) == msg);
        assert(msg == message_bytes(action, signed_nonce));
        crate::message::lemma_message_nonce_injective(
            action,
            identity.nonce,
            action,
            signed_nonce,
        );
        assert(false);
    }
}

/// Authorizes and applies an action under a raw-signature bundle.
///
/// On success the nonce advances by exactly one and the action is applied;
/// on any rejection the identity is unchanged and the error identifies the
/// first failing check.
#[verifier::loop_isolation(false)]
pub fn execute(
    identity: &mut Identity,
    vault_balance: u64,
    min_balance: u64,
    recipient: Option<&[u8]>,
    batch: &Vec<BatchInstruction>,
    current_index: usize,
    action: &Action,
    sigs: &Vec<SignatureData>,
) -> (r: Result<(), KeystoreError>)
    requires
        identity_wf(*old(identity)),
        action_wf(*action),
        current_index <= batch@.len(),
        old(identity).nonce < u64::MAX,
    ensures
        r == execute_decision(
            *old(identity),
            vault_balance,
            min_balance,
            opt_bytes(recipient),
            batch@,
            current_index as int,
            *action,
            sigs@,
        ),
        (r is Ok) == execute_ok(
            *old(identity),
            vault_balance,
            min_balance,
            opt_bytes(recipient),
            batch@,
            current_index as int,
            *action,
            sigs@,
        ),
        identity_wf(*final(identity)),
        r is Ok ==> final(identity).nonce == old(identity).nonce + 1,
        r is Ok ==> final(identity).keys@ == old(identity).keys@ && final(identity).bump == old(
            identity,
        ).bump && final(identity).vault_bump == old(identity).vault_bump,
        r is Ok ==> final(identity).threshold == (match *action {
            Action::SetThreshold { threshold } => threshold,
            Action::Send { .. } => old(identity).threshold,
        }),
        r is Err ==> *final(identity) == *old(identity),
{
    proof {
        lemma_execute_ok_iff(
            *old(identity),
            vault_balance,
            min_balance,
            opt_bytes(recipient),
            batch@,
            current_index as int,
            *action,
            sigs@,
        );
    }
    let n = sigs.len();
    if n == 0 {
        return Err(KeystoreError::ThresholdNotMet);
    }
    if n < identity.threshold as usize {
        return Err(KeystoreError::ThresholdNotMet);
    }

    // No key may count twice toward the quorum.
    let mut a: usize = 0;
    while a < n
        invariant
            a <= n,
            forall|i: int, j: int|
                0 <= i < j < n && i < a ==> sigs@[i].key_index != sigs@[j].key_index,
        decreases n - a,
    {
        let mut b: usize = a + 1;
        while b < n
            invariant
                a < b <= n,
                forall|j: int| a < j < b ==> sigs@[a as int].key_index != sigs@[j].key_index,
            decreases n - b,
        {
            if sigs[a].key_index == sigs[b].key_index {
                return Err(KeystoreError::SignatureVerificationFailed);
            }
            b += 1;
        }
        a += 1;
    }
    assert(!has_duplicate_index(sigs@));

    // Authenticate every signature against the canonical message.
    let message = build_message(action, identity.nonce);
    let ghost keys = identity.keys@;
    let ghost msg = message_bytes(*action, identity.nonce);
    let mut k: usize = 0;
    proof {
        assert(sigs@.skip(0) =~= sigs@);
    }
    while k < n
        invariant
            k <= n,
            first_sig_error(keys, batch@, current_index as int, msg, sigs@) == first_sig_error(
                keys,
                batch@,
                current_index as int,
                msg,
                sigs@.skip(k as int),
            ),
        decreases n - k,
    {
        let key_index = sigs[k].key_index as usize;
        if key_index >= identity.keys.len() {
            return Err(KeystoreError::InvalidKeyIndex);
        }
        let verified = verify_secp256r1_signature(
            batch,
            current_index,
            identity.keys[key_index].pubkey.as_slice(),
            message.as_slice(),
            sigs[k].signature.as_slice(),
        );
        if verified.is_err() {
            return Err(KeystoreError::SignatureVerificationFailed);
        }
        proof {
            assert(sigs@.skip(k as int).drop_first() =~= sigs@.skip(k as int + 1));
        }
        k += 1;
    }
    proof {
        assert(sigs@.skip(n as int) =~= Seq::<SignatureData>::empty());
    }

    // The action must be applicable before any state changes.
    match action {
        Action::Send { to, lamports } => {
            let rc = match recipient {
                Some(rc) => rc,
                None => {
                    return Err(KeystoreError::InvalidAccountData);
                },
            };
            if !bytes_eq(rc, to.as_slice()) {
                return Err(KeystoreError::InvalidAccountData);
            }
            if vault_balance < *lamports {
                return Err(KeystoreError::InsufficientFunds);
            }
            let remainder = vault_balance - *lamports;
            if !(remainder == 0 || remainder >= min_balance) {
                return Err(KeystoreError::InsufficientFunds);
            }
        },
        Action::SetThreshold { threshold } => {
            if *threshold == 0 {
                return Err(KeystoreError::InvalidThreshold);
            }
            if *threshold as usize > identity.keys.len() {
                return Err(KeystoreError::InvalidThreshold);
            }
        },
    }

    // Advance the nonce before applying the action: a consumed signature set
    // can never be replayed, because the canonical message of every later
    // nonce differs.
    identity.nonce = identity.nonce + 1;
    match action {
        Action::Send { .. } => {},
        Action::SetThreshold { threshold } => {
            identity.threshold = *threshold;
        },
    }
    Ok(())
}

/// The payload a WebAuthn authenticator actually signs: its authenticator
/// data followed by the SHA-256 digest of the client-data JSON.
pub open spec fn webauthn_signed_payload(wsig: WebAuthnSignatureData) -> Seq<u8> {
    wsig.authenticator_data@ + sha256_of(wsig.client_data_json@)
}

/// The full authorization decision for one WebAuthn assertion. The adapter
/// carries exactly one assertion and does not aggregate several toward a
/// quorum, so it can meet the threshold only when the threshold is one; a
/// higher threshold is rejected outright. Past that, the embedded challenge
/// must decode to the SHA-256 digest of the canonical message at the current
/// nonce, the key index must resolve, the assertion's signed payload must be
/// authenticated by the oracle, and the action must apply.
pub open spec fn webauthn_decision(
    identity: Identity,
    vault_balance: u64,
    min_balance: u64,
    recipient: Option<Seq<u8>>,
    batch: Seq<BatchInstruction>,
    current_index: int,
    action: Action,
    wsig: WebAuthnSignatureData,
) -> Result<(), KeystoreError> {
    let msg = message_bytes(action, identity.nonce);
    let act_err = action_error(
        action,
        identity.keys@.len() as int,
        recipient,
        vault_balance,
        min_balance,
    );
    if identity.threshold > 1 {
        Err(KeystoreError::ThresholdNotMet)
    } else if challenge_of(wsig.client_data_json@) != Some(sha256_of(msg)) {
        Err(KeystoreError::InvalidWebAuthnData)
    } else if wsig.key_index as int >= identity.keys@.len() {
        Err(KeystoreError::InvalidKeyIndex)
    } else if !batch_has_match(
        batch,
        current_index,
        identity.keys@[wsig.key_index as int].pubkey@,
        webauthn_signed_payload(wsig),
        wsig.signature@,
    ) {
        Err(KeystoreError::SignatureVerificationFailed)
    } else if act_err is Some {
        Err(act_err.unwrap())
    } else {
        Ok(())
    }
}

/// A WebAuthn authorization binds the embedded challenge to the canonical
/// message at the identity's current nonce: success is only possible when
/// the challenge decodes to that message's digest.
pub proof fn lemma_webauthn_challenge_binds(
    identity: Identity,
    vault_balance: u64,
    min_balance: u64,
    recipient: Option<Seq<u8>>,
    batch: Seq<BatchInstruction>,
    current_index: int,
    action: Action,
    wsig: WebAuthnSignatureData,
)
    requires
        webauthn_decision(
            identity,
            vault_balance,
            min_balance,
            recipient,
            batch,
            current_index,
            action,
            wsig,
        ) is Ok,
    ensures
        challenge_of(wsig.client_data_json@) == Some(
            sha256_of(message_bytes(action, identity.nonce)),
        ),
{
}

/// Authorizes and applies an action under a single WebAuthn assertion.
///
/// One assertion is one signature toward the quorum, so a threshold above
/// one is rejected outright. The assertion's client data must embed the
/// challenge `SHA-256(message_bytes(action, nonce))`; the oracle then
/// authenticates the assertion's signed payload. On success the nonce
/// advances by exactly one and the action is applied; on any rejection the
/// identity is unchanged.
pub fn execute_webauthn(
    identity: &mut Identity,
    vault_balance: u64,
    min_balance: u64,
    recipient: Option<&[u8]>,
    batch: &Vec<BatchInstruction>,
    current_index: usize,
    action: &Action,
    webauthn_sig: &WebAuthnSignatureData,
) -> (r: Result<(), KeystoreError>)
    requires
        identity_wf(*old(identity)),
        action_wf(*action),
        current_index <= batch@.len(),
        old(identity).nonce < u64::MAX,
    ensures
        r == webauthn_decision(
            *old(identity),
            vault_balance,
            min_balance,
            opt_bytes(recipient),
            batch@,
            current_index as int,
            *action,
            *webauthn_sig,
        ),
        identity_wf(*final(identity)),
        r is Ok ==> final(identity).nonce == old(identity).nonce + 1,
        r is Ok ==> final(identity).keys@ == old(identity).keys@ && final(identity).bump == old(
            identity,
        ).bump && final(identity).vault_bump == old(identity).vault_bump,
        r is Ok ==> final(identity).threshold == (match *action {
            Action::SetThreshold { threshold } => threshold,
            Action::Send { .. } => old(identity).threshold,
        }),
        r is Ok ==> challenge_of(webauthn_sig.client_data_json@) == Some(
            sha256_of(message_bytes(*action, old(identity).nonce)),
        ),
        r is Err ==> *final(identity) == *old(identity),
{
    // A single assertion cannot satisfy a quorum of more than one key.
    if identity.threshold > 1 {
        return Err(KeystoreError::ThresholdNotMet);
    }

    // The expected challenge is the digest of the canonical message.
    let expected_message = build_message(action, identity.nonce);
    let expected_challenge = sha256(expected_message.as_slice());
    let challenge_ok = verify_webauthn_challenge(
        webauthn_sig.client_data_json.as_slice(),
        expected_challenge.as_slice(),
    );
    if challenge_ok.is_err() {
        return Err(KeystoreError::InvalidWebAuthnData);
    }

    let key_index = webauthn_sig.key_index as usize;
    if key_index >= identity.keys.len() {
        return Err(KeystoreError::InvalidKeyIndex);
    }

    // The payload the authenticator signed: authenticator data, then the
    // digest of the client-data JSON.
    let client_data_hash = sha256(webauthn_sig.client_data_json.as_slice());
    let mut signed_message: Vec<u8> = Vec::new();
    push_bytes(&mut signed_message, webauthn_sig.authenticator_data.as_slice());
    push_bytes(&mut signed_message, client_data_hash.as_slice());

    let verified = verify_secp256r1_signature(
        batch,
        current_index,
        identity.keys[key_index].pubkey.as_slice(),
        signed_message.as_slice(),
        webauthn_sig.signature.as_slice(),
    );
    if verified.is_err() {
        return Err(KeystoreError::SignatureVerificationFailed);
    }

    // The action must be applicable before any state changes.
    match action {
        Action::Send { to, lamports } => {
            let rc = match recipient {
                Some(rc) => rc,
                None => {
                    return Err(KeystoreError::InvalidAccountData);
                },
            };
            if !bytes_eq(rc, to.as_slice()) {
                return Err(KeystoreError::InvalidAccountData);
            }
            if vault_balance < *lamports {
                return Err(KeystoreError::InsufficientFunds);
            }
            let remainder = vault_balance - *lamports;
            if !(remainder == 0 || remainder >= min_balance) {
                return Err(KeystoreError::InsufficientFunds);
            }
        },
        Action::SetThreshold { threshold } => {
            if *threshold == 0 {
                return Err(KeystoreError::InvalidThreshold);
            }
            if *threshold as usize > identity.keys.len() {
                return Err(KeystoreError::InvalidThreshold);
            }
        },
    }

    // Advance the nonce before applying the action.
    identity.nonce = identity.nonce + 1;
    match action {
        Action::Send { .. } => {},
        Action::SetThreshold { threshold } => {
            identity.threshold = *threshold;
        },
    }
    Ok(())
}

} // verus!
