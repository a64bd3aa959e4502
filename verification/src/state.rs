//! The identity ledger: registered keys, threshold, nonce and credential
//! bindings, together with their well-formedness invariant.

use vstd::prelude::*;

use crate::error::KeystoreError;

verus! {

/// The largest number of keys an identity may hold.
pub const MAX_KEYS: usize = 5;

/// One registered signing key.
#[derive(Clone, Debug)]
pub struct RegisteredKey {
    /// 33-byte compressed elliptic-curve point; the first byte is 0x02 or 0x03.
    pub pubkey: Vec<u8>,
    /// Display name, 1 to 32 bytes.
    pub name: Vec<u8>,
    /// Creation timestamp.
    pub added_at: i64,
}

/// A multi-key identity: an ordered key list (the index is the stable key
/// identifier), a signing threshold and a replay-protecting nonce.
#[derive(Clone, Debug)]
pub struct Identity {
    /// Derivation bump of the identity record.
    pub bump: u8,
    /// Derivation bump of the identity's value-holding vault.
    pub vault_bump: u8,
    /// Minimum count of distinct keys whose signatures authorize an action.
    pub threshold: u8,
    /// Monotonically increasing counter embedded in every signed message.
    pub nonce: u64,
    /// The registered keys, in insertion order.
    pub keys: Vec<RegisteredKey>,
}

/// One registry entry binding an external credential identifier to a key.
#[derive(Clone, Debug)]
pub struct CredentialRegistry {
    /// Derivation bump of the registry record.
    pub bump: u8,
    /// The 32-byte address of the identity the credential belongs to.
    pub identity: Vec<u8>,
    /// Index of the bound key within the identity's key list.
    pub key_index: u8,
    /// Opaque external credential identifier, 1 to 256 bytes.
    pub credential_id: Vec<u8>,
    /// Display name, 1 to 32 bytes.
    pub device_name: Vec<u8>,
    /// Registration timestamp.
    pub registered_at: i64,
}

/// A compressed public key: 33 bytes with a 0x02 or 0x03 parity prefix.
pub open spec fn pubkey_wf(pk: Seq<u8>) -> bool {
    &&& pk.len() == 33
    &&& (pk[0] == 0x02 || pk[0] == 0x03)
}

/// A display name holds 1 to 32 bytes.
pub open spec fn name_wf(name: Seq<u8>) -> bool {
    1 <= name.len() <= 32
}

pub open spec fn key_wf(k: RegisteredKey) -> bool {
    &&& pubkey_wf(k.pubkey@)
    &&& name_wf(k.name@)
}

/// The ledger invariant: 1 to 5 well-formed keys, no two sharing public-key
/// bytes, and a threshold within `1..=keys.len()`.
pub open spec fn identity_wf(id: Identity) -> bool {
    &&& 1 <= id.keys@.len() <= 5
    &&& 1 <= id.threshold <= id.keys@.len()
    &&& forall|i: int| 0 <= i < id.keys@.len() ==> key_wf(#[trigger] id.keys@[i])
    &&& forall|i: int, j: int|
        0 <= i < j < id.keys@.len() ==> id.keys@[i].pubkey@ != id.keys@[j].pubkey@
}

/// Checks the compressed-point prefix of a public key.
pub fn pubkey_prefix_ok(pubkey: &[u8]) -> (r: bool)
    requires
        pubkey@.len() == 33,
    ensures
        r == (pubkey@[0] == 0x02 || pubkey@[0] == 0x03),
{
    pubkey[0] == 0x02 || pubkey[0] == 0x03
}

/// Creates an identity with exactly one key, threshold 1 and nonce 0.
///
/// Rejects a name outside 1 to 32 bytes with `InvalidArgument` and a public
/// key without a compressed-point prefix with `InvalidPublicKey`.
pub fn create_identity(
    pubkey: Vec<u8>,
    device_name: Vec<u8>,
    now: i64,
    bump: u8,
    vault_bump: u8,
) -> (r: Result<Identity, KeystoreError>)
    requires
        pubkey@.len() == 33,
    ensures
        (r is Ok) == (name_wf(device_name@) && pubkey_wf(pubkey@)),
        r matches Ok(id) ==> {
            &&& id.bump == bump
            &&& id.vault_bump == vault_bump
            &&& id.threshold == 1
            &&& id.nonce == 0
            &&& id.keys@ =~= seq![
                RegisteredKey { pubkey: pubkey, name: device_name, added_at: now },
            ]
            &&& identity_wf(id)
        },
        r matches Err(e) ==> e == (if !name_wf(device_name@) {
            KeystoreError::InvalidArgument
        } else {
            KeystoreError::InvalidPublicKey
        }),
{
    if device_name.len() == 0 || device_name.len() > 32 {
        return Err(KeystoreError::InvalidArgument);
    }
    if !pubkey_prefix_ok(pubkey.as_slice()) {
        return Err(KeystoreError::InvalidPublicKey);
    }
    let mut keys: Vec<RegisteredKey> = Vec::new();
    keys.push(RegisteredKey { pubkey, name: device_name, added_at: now });
    Ok(Identity { bump, vault_bump, threshold: 1, nonce: 0, keys })
}

/// Appends a key to an identity.
///
/// Rejects a name outside 1 to 32 bytes (`InvalidArgument`), a public key
/// without a compressed-point prefix (`InvalidPublicKey`), a full key list
/// (`MaxKeysReached`) and a public key already registered (`DuplicateKey`).
/// On rejection the identity is left unchanged.
pub fn add_key(
    identity: &mut Identity,
    new_pubkey: Vec<u8>,
    device_name: Vec<u8>,
    now: i64,
) -> (r: Result<(), KeystoreError>)
    requires
        identity_wf(*old(identity)),
        new_pubkey@.len() == 33,
    ensures
        identity_wf(*final(identity)),
        (r is Ok) == (name_wf(device_name@) && pubkey_wf(new_pubkey@)
            && old(identity).keys@.len() < 5
            && forall|i: int| 0 <= i < old(identity).keys@.len()
                ==> (#[trigger] old(identity).keys@[i]).pubkey@ != new_pubkey@),
        r is Ok ==> *final(identity) == (Identity {
            keys: final(identity).keys,
            ..*old(identity)
        }),
        r is Ok ==> final(identity).keys@ == old(identity).keys@.push(
            RegisteredKey { pubkey: new_pubkey, name: device_name, added_at: now },
        ),
        r is Err ==> *final(identity) == *old(identity),
        r matches Err(e) ==> e == (if !name_wf(device_name@) {
            KeystoreError::InvalidArgument
        } else if !pubkey_wf(new_pubkey@) {
            KeystoreError::InvalidPublicKey
        } else if old(identity).keys@.len() >= 5 {
            KeystoreError::MaxKeysReached
        } else {
            KeystoreError::DuplicateKey
        }),
{
    if device_name.len() == 0 || device_name.len() > 32 {
        return Err(KeystoreError::InvalidArgument);
    }
    if !pubkey_prefix_ok(new_pubkey.as_slice()) {
        return Err(KeystoreError::InvalidPublicKey);
    }
    if identity.keys.len() >= MAX_KEYS {
        return Err(KeystoreError::MaxKeysReached);
    }
    let n = identity.keys.len();
    let mut i: usize = 0;
    while i < n
        invariant
            *identity == *old(identity),
            identity_wf(*old(identity)),
            name_wf(device_name@),
            pubkey_wf(new_pubkey@),
            n == identity.keys@.len(),
            n < 5,
            i <= n,
            forall|j: int| 0 <= j < i
                ==> (#[trigger] identity.keys@[j]).pubkey@ != new_pubkey@,
        decreases n - i,
    {
        if crate::bytes::bytes_eq(identity.keys[i].pubkey.as_slice(), new_pubkey.as_slice()) {
            return Err(KeystoreError::DuplicateKey);
        }
        i += 1;
    }
    identity.keys.push(RegisteredKey { pubkey: new_pubkey, name: device_name, added_at: now });
    proof {
        let ks = identity.keys@;
        let old_ks = old(identity).keys@;
        assert forall|a: int, b: int| 0 <= a < b < ks.len() implies
            ks[a].pubkey@ != ks[b].pubkey@ by {
            if b < ks.len() - 1 {
                assert(old_ks[a].pubkey@ != old_ks[b].pubkey@);
            } else {
                assert(old_ks[a].pubkey@ != new_pubkey@);
            }
        }
        assert(forall|a: int| 0 <= a < old_ks.len() ==> key_wf(#[trigger] ks[a]));
    }
    Ok(())
}

/// Creates a credential-registry entry bound to the most recently added key.
///
/// Rejects an empty or over-long credential identifier or display name with
/// `InvalidArgument`.
pub fn register_credential(
    identity: &Identity,
    identity_address: Vec<u8>,
    credential_id: Vec<u8>,
    device_name: Vec<u8>,
    now: i64,
    bump: u8,
) -> (r: Result<CredentialRegistry, KeystoreError>)
    requires
        identity_wf(*identity),
    ensures
        (r is Ok) == (1 <= credential_id@.len() <= 256 && name_wf(device_name@)),
        r matches Ok(entry) ==> entry == (CredentialRegistry {
            bump,
            identity: identity_address,
            key_index: (identity.keys@.len() - 1) as u8,
            credential_id,
            device_name,
            registered_at: now,
        }),
        r matches Err(e) ==> e == KeystoreError::InvalidArgument,
{
    if credential_id.len() == 0 || credential_id.len() > 256 {
        return Err(KeystoreError::InvalidArgument);
    }
    if device_name.len() == 0 || device_name.len() > 32 {
        return Err(KeystoreError::InvalidArgument);
    }
    let key_index = (identity.keys.len() - 1) as u8;
    Ok(CredentialRegistry {
        bump,
        identity: identity_address,
        key_index,
        credential_id,
        device_name,
        registered_at: now,
    })
}

} // verus!
