use keystore::{add_key, create_identity, register_credential, KeystoreError};

fn sample_pubkey(fill: u8) -> Vec<u8> {
    let mut pk = vec![0x02u8];
    pk.extend_from_slice(&[fill; 32]);
    pk
}

#[test]
fn test_create_identity_initial_state() {
    let id = create_identity(sample_pubkey(1), b"phone".to_vec(), 1700000000, 254, 253).unwrap();
    assert_eq!(id.threshold, 1);
    assert_eq!(id.nonce, 0);
    assert_eq!(id.keys.len(), 1);
    assert_eq!(id.keys[0].pubkey, sample_pubkey(1));
    assert_eq!(id.keys[0].name, b"phone".to_vec());
    assert_eq!(id.keys[0].added_at, 1700000000);
    assert_eq!(id.bump, 254);
    assert_eq!(id.vault_bump, 253);
}

#[test]
fn test_create_identity_rejects_bad_prefix() {
    let mut pk = sample_pubkey(1);
    pk[0] = 0x04;
    let r = create_identity(pk, b"phone".to_vec(), 0, 0, 0);
    assert_eq!(r.unwrap_err(), KeystoreError::InvalidPublicKey);
}

#[test]
fn test_create_identity_rejects_empty_name() {
    let r = create_identity(sample_pubkey(1), Vec::new(), 0, 0, 0);
    assert_eq!(r.unwrap_err(), KeystoreError::InvalidArgument);
}

#[test]
fn test_create_identity_rejects_long_name() {
    let r = create_identity(sample_pubkey(1), vec![b'x'; 33], 0, 0, 0);
    assert_eq!(r.unwrap_err(), KeystoreError::InvalidArgument);
}

#[test]
fn test_add_key_appends() {
    let mut id = create_identity(sample_pubkey(1), b"phone".to_vec(), 0, 0, 0).unwrap();
    add_key(&mut id, sample_pubkey(2), b"laptop".to_vec(), 5).unwrap();
    assert_eq!(id.keys.len(), 2);
    assert_eq!(id.keys[1].pubkey, sample_pubkey(2));
    assert_eq!(id.keys[1].name, b"laptop".to_vec());
    assert_eq!(id.keys[1].added_at, 5);
    assert_eq!(id.threshold, 1);
    assert_eq!(id.nonce, 0);
}

#[test]
fn test_add_key_rejects_duplicate_pubkey() {
    let mut id = create_identity(sample_pubkey(1), b"phone".to_vec(), 0, 0, 0).unwrap();
    let r = add_key(&mut id, sample_pubkey(1), b"laptop".to_vec(), 0);
    assert_eq!(r.unwrap_err(), KeystoreError::DuplicateKey);
    assert_eq!(id.keys.len(), 1);
}

#[test]
fn test_add_key_rejects_sixth_key() {
    let mut id = create_identity(sample_pubkey(1), b"k1".to_vec(), 0, 0, 0).unwrap();
    for f in 2..=5u8 {
        add_key(&mut id, sample_pubkey(f), b"k".to_vec(), 0).unwrap();
    }
    assert_eq!(id.keys.len(), 5);
    // A sixth key is rejected even though it is otherwise valid.
    let r = add_key(&mut id, sample_pubkey(6), b"k6".to_vec(), 0);
    assert_eq!(r.unwrap_err(), KeystoreError::MaxKeysReached);
    assert_eq!(id.keys.len(), 5);
}

#[test]
fn test_add_key_rejects_bad_prefix() {
    let mut id = create_identity(sample_pubkey(1), b"phone".to_vec(), 0, 0, 0).unwrap();
    let mut pk = sample_pubkey(2);
    pk[0] = 0x05;
    let r = add_key(&mut id, pk, b"laptop".to_vec(), 0);
    assert_eq!(r.unwrap_err(), KeystoreError::InvalidPublicKey);
}

#[test]
fn test_register_credential_binds_last_key() {
    let mut id = create_identity(sample_pubkey(1), b"phone".to_vec(), 0, 0, 0).unwrap();
    add_key(&mut id, sample_pubkey(2), b"laptop".to_vec(), 0).unwrap();
    let entry = register_credential(
        &id,
        vec![8u8; 32],
        vec![1u8, 2, 3],
        b"laptop".to_vec(),
        77,
        250,
    )
    .unwrap();
    assert_eq!(entry.key_index, 1);
    assert_eq!(entry.credential_id, vec![1u8, 2, 3]);
    assert_eq!(entry.device_name, b"laptop".to_vec());
    assert_eq!(entry.identity, vec![8u8; 32]);
    assert_eq!(entry.registered_at, 77);
    assert_eq!(entry.bump, 250);
}

#[test]
fn test_register_credential_rejects_empty_id() {
    let id = create_identity(sample_pubkey(1), b"phone".to_vec(), 0, 0, 0).unwrap();
    let r = register_credential(&id, vec![8u8; 32], Vec::new(), b"n".to_vec(), 0, 0);
    assert_eq!(r.unwrap_err(), KeystoreError::InvalidArgument);
}

#[test]
fn test_register_credential_rejects_long_id() {
    let id = create_identity(sample_pubkey(1), b"phone".to_vec(), 0, 0, 0).unwrap();
    let r = register_credential(&id, vec![8u8; 32], vec![0u8; 257], b"n".to_vec(), 0, 0);
    assert_eq!(r.unwrap_err(), KeystoreError::InvalidArgument);
}

#[test]
fn test_register_credential_rejects_bad_name() {
    let id = create_identity(sample_pubkey(1), b"phone".to_vec(), 0, 0, 0).unwrap();
    let r = register_credential(&id, vec![8u8; 32], vec![1u8], Vec::new(), 0, 0);
    assert_eq!(r.unwrap_err(), KeystoreError::InvalidArgument);
}
