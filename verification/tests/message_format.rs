use keystore::{build_message, Action};

#[test]
fn test_build_message_send_layout() {
    let to = vec![9u8; 32];
    let action = Action::Send { to: to.clone(), lamports: 1000 };
    let m = build_message(&action, 3);
    // Tag, 32-byte target, amount little-endian, nonce little-endian.
    let mut expected = vec![0u8];
    expected.extend_from_slice(&to);
    expected.extend_from_slice(&1000u64.to_le_bytes());
    expected.extend_from_slice(&3u64.to_le_bytes());
    assert_eq!(m, expected);
    assert_eq!(m.len(), 49);
}

#[test]
fn test_build_message_set_threshold_layout() {
    let action = Action::SetThreshold { threshold: 4 };
    let m = build_message(&action, 0x0102030405060708);
    assert_eq!(m, vec![1u8, 4, 8, 7, 6, 5, 4, 3, 2, 1]);
}

#[test]
fn test_build_message_differs_per_nonce() {
    let action = Action::SetThreshold { threshold: 4 };
    assert_ne!(build_message(&action, 0), build_message(&action, 1));
}
