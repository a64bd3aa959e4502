//! Canonical action-message encoding.
//!
//! The signed payload for an authorization is the serialized action followed
//! by the identity's nonce as eight little-endian bytes. Every verification
//! path matches this encoding byte for byte, so it must be identical across
//! all callers.

use vstd::prelude::*;

use crate::bytes::{push_bytes, push_u64_le, u64_le_bytes};

verus! {

/// An action that an authorized quorum may apply to an identity.
#[derive(Clone, Debug)]
pub enum Action {
    /// Transfer `lamports` from the identity's vault to the account `to`
    /// (a 32-byte address).
    Send { to: Vec<u8>, lamports: u64 },
    /// Replace the identity's signing threshold.
    SetThreshold { threshold: u8 },
}

/// A `Send` target must be a 32-byte address.
pub open spec fn action_wf(a: Action) -> bool {
    match a {
        Action::Send { to, lamports } => to@.len() == 32,
        Action::SetThreshold { threshold } => true,
    }
}

/// The serialized bytes of an action: a one-byte variant tag followed by the
/// variant's fields in declaration order, integers little-endian.
pub open spec fn action_bytes(a: Action) -> Seq<u8> {
    match a {
        Action::Send { to, lamports } => seq![0u8] + to@ + u64_le_bytes(lamports),
        Action::SetThreshold { threshold } => seq![1u8, threshold],
    }
}

/// The canonical signed payload for `(action, nonce)`: the serialized action
/// followed by the nonce as eight little-endian bytes.
pub open spec fn message_bytes(a: Action, nonce: u64) -> Seq<u8> {
    action_bytes(a) + u64_le_bytes(nonce)
}

/// Builds the canonical message that a quorum signs to authorize `action`
/// at the identity's current `nonce`.
pub fn build_message(action: &Action, nonce: u64) -> (r: Vec<u8>)
    requires
        action_wf(*action),
    ensures
        r@ == message_bytes(*action, nonce),
{
    let mut message: Vec<u8> = Vec::new();
    match action {
        Action::Send { to, lamports } => {
            message.push(0u8);
            proof {
                assert(message@ =~= seq![0u8]);
            }
            push_bytes(&mut message, to.as_slice());
            push_u64_le(&mut message, *lamports);
            proof {
                assert(message@ =~= action_bytes(*action));
            }
        },
        Action::SetThreshold { threshold } => {
            message.push(1u8);
            message.push(*threshold);
            proof {
                assert(message@ =~= action_bytes(*action));
            }
        },
    }
    push_u64_le(&mut message, nonce);
    message
}

/// Two little-endian encodings agree only on equal values, so the canonical
/// message pins the nonce: a payload built at one nonce can never match the
/// payload expected at another.
pub proof fn lemma_message_nonce_injective(a1: Action, n1: u64, a2: Action, n2: u64)
    requires
        message_bytes(a1, n1) == message_bytes(a2, n2),
        action_bytes(a1).len() == action_bytes(a2).len(),
    ensures
        n1 == n2,
{
    let m1 = message_bytes(a1, n1);
    let m2 = message_bytes(a2, n2);
    let k = action_bytes(a1).len() as int;
    assert forall|i: int| 0 <= i < 8 implies u64_le_bytes(n1)[i] == u64_le_bytes(n2)[i] by {
        assert(m1[k + i] == u64_le_bytes(n1)[i]);
        assert(m2[k + i] == u64_le_bytes(n2)[i]);
    }
    lemma_u64_le_bytes_injective(n1, n2);
}

/// The eight little-endian bytes of a 64-bit value determine it.
pub proof fn lemma_u64_le_bytes_injective(v1: u64, v2: u64)
    requires
        u64_le_bytes(v1) =~= u64_le_bytes(v2),
    ensures
        v1 == v2,
{
    assert(u64_le_bytes(v1)[0] == u64_le_bytes(v2)[0]);
    assert(u64_le_bytes(v1)[1] == u64_le_bytes(v2)[1]);
    assert(u64_le_bytes(v1)[2] == u64_le_bytes(v2)[2]);
    assert(u64_le_bytes(v1)[3] == u64_le_bytes(v2)[3]);
    assert(u64_le_bytes(v1)[4] == u64_le_bytes(v2)[4]);
    assert(u64_le_bytes(v1)[5] == u64_le_bytes(v2)[5]);
    assert(u64_le_bytes(v1)[6] == u64_le_bytes(v2)[6]);
    assert(u64_le_bytes(v1)[7] == u64_le_bytes(v2)[7]);
    assert(((v1 & 0xff) as u8 == (v2 & 0xff) as u8
        && ((v1 >> 8) & 0xff) as u8 == ((v2 >> 8) & 0xff) as u8
        && ((v1 >> 16) & 0xff) as u8 == ((v2 >> 16) & 0xff) as u8
        && ((v1 >> 24) & 0xff) as u8 == ((v2 >> 24) & 0xff) as u8
        && ((v1 >> 32) & 0xff) as u8 == ((v2 >> 32) & 0xff) as u8
        && ((v1 >> 40) & 0xff) as u8 == ((v2 >> 40) & 0xff) as u8
        && ((v1 >> 48) & 0xff) as u8 == ((v2 >> 48) & 0xff) as u8
        && ((v1 >> 56) & 0xff) as u8 == ((v2 >> 56) & 0xff) as u8)
        ==> v1 == v2) by (bit_vector);
}

} // verus!
