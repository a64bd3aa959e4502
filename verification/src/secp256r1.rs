//! Signature oracle.
//!
//! The oracle authenticates a claimed (pubkey, message, signature) triple
//! without doing any cryptography itself. An external verifier program runs
//! earlier in the same atomic request batch and aborts the whole batch if the
//! signature is invalid, so it suffices to prove that a verifier instruction
//! with exactly the expected fields is present at a lower index.
//!
//! Canonical wire layout of a verifier payload:
//!
//! - header, 2 bytes: signature count (must be 1), one padding byte;
//! - offset block, 14 bytes: seven little-endian 16-bit fields, in order
//!   signature offset, signature source index, pubkey offset, pubkey source
//!   index, message offset, message size, message source index. A source
//!   index of 0xFFFF means the field lives in this same payload; any other
//!   value is a cross-instruction reference, which is not supported and is
//!   rejected;
//! - data section: the bytes the offsets point into.

use vstd::prelude::*;
use vstd::slice::slice_subrange;

use crate::bytes::{bytes_eq, push_bytes, push_u16_le, u16_from_le};
use crate::error::KeystoreError;

verus! {

/// Sentinel source index: the field lives in this same instruction's payload.
pub const CURRENT_INSTRUCTION: u16 = 0xFFFF;

/// One instruction of the atomic request batch: the program it addresses and
/// its raw payload.
#[derive(Clone, Debug)]
pub struct BatchInstruction {
    pub program_id: Vec<u8>,
    pub data: Vec<u8>,
}

/// The 32-byte address of the designated external verifier program.
pub open spec fn verifier_program_id() -> Seq<u8> {
    seq![
        6u8, 146u8, 13u8, 236u8, 47u8, 234u8, 113u8, 181u8,
        183u8, 35u8, 129u8, 77u8, 116u8, 45u8, 169u8, 3u8,
        28u8, 131u8, 231u8, 95u8, 219u8, 121u8, 93u8, 86u8,
        142u8, 117u8, 71u8, 128u8, 32u8, 0u8, 0u8, 0u8,
    ]
}

/// Returns the external verifier program's 32-byte address.
pub fn secp256r1_program_id() -> (r: Vec<u8>)
    ensures
        r@ == verifier_program_id(),
{
    let r: Vec<u8> = vec![
        6u8, 146u8, 13u8, 236u8, 47u8, 234u8, 113u8, 181u8,
        183u8, 35u8, 129u8, 77u8, 116u8, 45u8, 169u8, 3u8,
        28u8, 131u8, 231u8, 95u8, 219u8, 121u8, 93u8, 86u8,
        142u8, 117u8, 71u8, 128u8, 32u8, 0u8, 0u8, 0u8,
    ];
    proof {
        assert(r@ =~= verifier_program_id());
    }
    r
}

/// Parsed header of a verifier-instruction payload.
#[derive(Clone, Copy, Debug, PartialEq, Eq, Structural)]
pub struct Secp256r1InstructionData {
    pub num_signatures: u8,
    pub signature_offset: u16,
    pub signature_ix_index: u16,
    pub pubkey_offset: u16,
    pub pubkey_ix_index: u16,
    pub message_offset: u16,
    pub message_size: u16,
    pub message_ix_index: u16,
}

/// A payload parses when it holds the 16-byte header block and declares
/// exactly one signature.
pub open spec fn header_parse_ok(d: Seq<u8>) -> bool {
    &&& d.len() >= 16
    &&& d[0] == 1
}

/// The header fields read from a payload's first 16 bytes.
pub open spec fn parsed_header(d: Seq<u8>) -> Secp256r1InstructionData
    recommends
        d.len() >= 16,
{
    Secp256r1InstructionData {
        num_signatures: d[0],
        signature_offset: u16_from_le(d[2], d[3]),
        signature_ix_index: u16_from_le(d[4], d[5]),
        pubkey_offset: u16_from_le(d[6], d[7]),
        pubkey_ix_index: u16_from_le(d[8], d[9]),
        message_offset: u16_from_le(d[10], d[11]),
        message_size: u16_from_le(d[12], d[13]),
        message_ix_index: u16_from_le(d[14], d[15]),
    }
}

/// A field is extractable when it lives in this same payload and its byte
/// range is in bounds.
pub open spec fn extract_ok(ix_index: u16, offset: u16, len: int, d: Seq<u8>) -> bool {
    &&& ix_index == 0xFFFF
    &&& offset + len <= d.len()
}

/// Reads the little-endian 16-bit field at byte offset `i`.
fn read_u16_le(data: &[u8], i: usize) -> (r: u16)
    requires
        i + 2 <= data@.len(),
    ensures
        r == u16_from_le(data@[i as int], data@[i as int + 1]),
{
    data[i] as u16 + data[i + 1] as u16 * 256
}

impl Secp256r1InstructionData {
    /// Parses a verifier-instruction payload: a 2-byte header declaring one
    /// signature, then seven little-endian 16-bit offset fields.
    pub fn try_from_slice(data: &[u8]) -> (r: Result<Self, KeystoreError>)
        ensures
            (r is Ok) == header_parse_ok(data@),
            r matches Ok(p) ==> p == parsed_header(data@),
            r matches Err(e) ==> e == KeystoreError::InvalidSecp256r1Instruction,
    {
        if data.len() < 16 {
            return Err(KeystoreError::InvalidSecp256r1Instruction);
        }
        let num_signatures = data[0];
        if num_signatures != 1 {
            return Err(KeystoreError::InvalidSecp256r1Instruction);
        }
        Ok(Self {
            num_signatures,
            signature_offset: read_u16_le(data, 2),
            signature_ix_index: read_u16_le(data, 4),
            pubkey_offset: read_u16_le(data, 6),
            pubkey_ix_index: read_u16_le(data, 8),
            message_offset: read_u16_le(data, 10),
            message_size: read_u16_le(data, 12),
            message_ix_index: read_u16_le(data, 14),
        })
    }

    /// Extracts the 64-byte signature from this payload's data section.
    pub fn extract_signature<'a>(&self, instruction_data: &'a [u8]) -> (r: Result<
        &'a [u8],
        KeystoreError,
    >)
        ensures
            (r is Ok) == extract_ok(
                self.signature_ix_index,
                self.signature_offset,
                64,
                instruction_data@,
            ),
            r matches Ok(s) ==> s@ == instruction_data@.subrange(
                self.signature_offset as int,
                self.signature_offset as int + 64,
            ),
            r matches Err(e) ==> e == KeystoreError::InvalidSecp256r1Instruction,
    {
        if self.signature_ix_index == CURRENT_INSTRUCTION {
            let start = self.signature_offset as usize;
            if instruction_data.len() >= start + 64 {
                Ok(slice_subrange(instruction_data, start, start + 64))
            } else {
                Err(KeystoreError::InvalidSecp256r1Instruction)
            }
        } else {
            // Cross-instruction references are not supported.
            Err(KeystoreError::InvalidSecp256r1Instruction)
        }
    }

    /// Extracts the 33-byte compressed public key from this payload's data
    /// section.
    pub fn extract_pubkey<'a>(&self, instruction_data: &'a [u8]) -> (r: Result<
        &'a [u8],
        KeystoreError,
    >)
        ensures
            (r is Ok) == extract_ok(
                self.pubkey_ix_index,
                self.pubkey_offset,
                33,
                instruction_data@,
            ),
            r matches Ok(s) ==> s@ == instruction_data@.subrange(
                self.pubkey_offset as int,
                self.pubkey_offset as int + 33,
            ),
            r matches Err(e) ==> e == KeystoreError::InvalidSecp256r1Instruction,
    {
        if self.pubkey_ix_index == CURRENT_INSTRUCTION {
            let start = self.pubkey_offset as usize;
            if instruction_data.len() >= start + 33 {
                Ok(slice_subrange(instruction_data, start, start + 33))
            } else {
                Err(KeystoreError::InvalidSecp256r1Instruction)
            }
        } else {
            // Cross-instruction references are not supported.
            Err(KeystoreError::InvalidSecp256r1Instruction)
        }
    }

    /// Extracts the variable-length message from this payload's data section.
    pub fn extract_message<'a>(&self, instruction_data: &'a [u8]) -> (r: Result<
        &'a [u8],
        KeystoreError,
    >)
        ensures
            (r is Ok) == extract_ok(
                self.message_ix_index,
                self.message_offset,
                self.message_size as int,
                instruction_data@,
            ),
            r matches Ok(s) ==> s@ == instruction_data@.subrange(
                self.message_offset as int,
                self.message_offset as int + self.message_size as int,
            ),
            r matches Err(e) ==> e == KeystoreError::InvalidSecp256r1Instruction,
    {
        if self.message_ix_index == CURRENT_INSTRUCTION {
            let start = self.message_offset as usize;
            let len = self.message_size as usize;
            if instruction_data.len() >= start + len {
                Ok(slice_subrange(instruction_data, start, start + len))
            } else {
                Err(KeystoreError::InvalidSecp256r1Instruction)
            }
        } else {
            // Cross-instruction references are not supported.
            Err(KeystoreError::InvalidSecp256r1Instruction)
        }
    }
}

/// The message byte range a payload's header points at. When a payload
/// matches some expected triple, this is the triple's message.
pub open spec fn extracted_message(d: Seq<u8>) -> Seq<u8> {
    let p = parsed_header(d);
    d.subrange(p.message_offset as int, p.message_offset as int + p.message_size as int)
}

/// A payload carries exactly the expected triple: it parses, all three
/// fields live in this payload within bounds, and the extracted byte ranges
/// equal the expected pubkey, signature and message.
pub open spec fn instruction_matches(
    d: Seq<u8>,
    pk: Seq<u8>,
    msg: Seq<u8>,
    sig: Seq<u8>,
) -> bool {
    let p = parsed_header(d);
    &&& header_parse_ok(d)
    &&& extract_ok(p.signature_ix_index, p.signature_offset, 64, d)
    &&& extract_ok(p.pubkey_ix_index, p.pubkey_offset, 33, d)
    &&& extract_ok(p.message_ix_index, p.message_offset, p.message_size as int, d)
    &&& d.subrange(p.pubkey_offset as int, p.pubkey_offset as int + 33) == pk
    &&& d.subrange(p.signature_offset as int, p.signature_offset as int + 64) == sig
    &&& d.subrange(p.message_offset as int, p.message_offset as int + p.message_size as int)
        == msg
}

/// Some instruction at an index below `current_index` is addressed to the
/// verifier program and carries exactly the expected triple.
pub open spec fn batch_has_match(
    batch: Seq<BatchInstruction>,
    current_index: int,
    pk: Seq<u8>,
    msg: Seq<u8>,
    sig: Seq<u8>,
) -> bool {
    exists|i: int|
        0 <= i < current_index && (#[trigger] batch[i]).program_id@ == verifier_program_id()
            && instruction_matches(batch[i].data@, pk, msg, sig)
}

/// Authenticates `(expected_pubkey, expected_message, expected_signature)`
/// by scanning the batch backwards from the executing instruction for a
/// verifier instruction whose extracted fields are byte-equal to the
/// expected ones. Succeeds exactly when such an instruction exists.
pub fn verify_secp256r1_signature(
    batch: &Vec<BatchInstruction>,
    current_index: usize,
    expected_pubkey: &[u8],
    expected_message: &[u8],
    expected_signature: &[u8],
) -> (r: Result<(), KeystoreError>)
    requires
        current_index <= batch@.len(),
    ensures
        (r is Ok) == batch_has_match(
            batch@,
            current_index as int,
            expected_pubkey@,
            expected_message@,
            expected_signature@,
        ),
        r matches Err(e) ==> e == KeystoreError::SignatureVerificationFailed,
{
    let program_id = secp256r1_program_id();
    let mut i: usize = current_index;
    while i > 0
        invariant
            current_index <= batch@.len(),
            i <= current_index,
            program_id@ == verifier_program_id(),
            forall|j: int|
                i <= j < current_index ==> !((#[trigger] batch@[j]).program_id@
                    == verifier_program_id() && instruction_matches(
                    batch@[j].data@,
                    expected_pubkey@,
                    expected_message@,
                    expected_signature@,
                )),
        decreases i,
    {
        i -= 1;
        let ix = &batch[i];
        if !bytes_eq(ix.program_id.as_slice(), program_id.as_slice()) {
            continue ;
        }
        if ix.data.len() < 16 {
            continue ;
        }
        let parsed = match Secp256r1InstructionData::try_from_slice(ix.data.as_slice()) {
            Ok(parsed) => parsed,
            Err(_) => {
                continue ;
            },
        };
        let sig = match parsed.extract_signature(ix.data.as_slice()) {
            Ok(sig) => sig,
            Err(_) => {
                continue ;
            },
        };
        let pk = match parsed.extract_pubkey(ix.data.as_slice()) {
            Ok(pk) => pk,
            Err(_) => {
                continue ;
            },
        };
        let msg_data = match parsed.extract_message(ix.data.as_slice()) {
            Ok(msg_data) => msg_data,
            Err(_) => {
                continue ;
            },
        };
        if !bytes_eq(pk, expected_pubkey) {
            continue ;
        }
        if !bytes_eq(sig, expected_signature) {
            continue ;
        }
        if !bytes_eq(msg_data, expected_message) {
            continue ;
        }
        return Ok(());
    }
    Err(KeystoreError::SignatureVerificationFailed)
}

/// The canonical 16-byte header of a payload built for a message of
/// `message_size` bytes: one signature, signature at offset 16, pubkey at
/// offset 80, message at offset 113, every field in this same payload.
pub open spec fn verifier_header(message_size: u16) -> Seq<u8> {
    seq![
        1u8, 0u8,
        16u8, 0u8,
        0xffu8, 0xffu8,
        80u8, 0u8,
        0xffu8, 0xffu8,
        113u8, 0u8,
        (message_size & 0xff) as u8, ((message_size >> 8) & 0xff) as u8,
        0xffu8, 0xffu8,
    ]
}

/// The canonical verifier payload for an expected triple: the header, then
/// the signature, the pubkey and the message.
pub open spec fn verifier_payload(pk: Seq<u8>, msg: Seq<u8>, sig: Seq<u8>) -> Seq<u8> {
    verifier_header(msg.len() as u16) + sig + pk + msg
}

/// Builds the verifier instruction that must precede the authorization call
/// in the batch, carrying the triple under the canonical wire layout.
pub fn build_secp256r1_instruction(
    pubkey: &[u8],
    message: &[u8],
    signature: &[u8],
) -> (r: BatchInstruction)
    requires
        pubkey@.len() == 33,
        signature@.len() == 64,
        message@.len() <= 0xffff,
    ensures
        r.program_id@ == verifier_program_id(),
        r.data@ == verifier_payload(pubkey@, message@, signature@),
{
    let message_size = message.len() as u16;
    let mut data: Vec<u8> = Vec::new();
    data.push(1u8);
    data.push(0u8);
    push_u16_le(&mut data, 16);
    push_u16_le(&mut data, CURRENT_INSTRUCTION);
    push_u16_le(&mut data, 80);
    push_u16_le(&mut data, CURRENT_INSTRUCTION);
    push_u16_le(&mut data, 113);
    push_u16_le(&mut data, message_size);
    push_u16_le(&mut data, CURRENT_INSTRUCTION);
    proof {
        assert((16u16 & 0xff) == 16 && ((16u16 >> 8) & 0xff) == 0 && (80u16 & 0xff) == 80 && ((
        80u16 >> 8) & 0xff) == 0 && (113u16 & 0xff) == 113 && ((113u16 >> 8) & 0xff) == 0 && (
        0xffffu16 & 0xff) == 0xff && ((0xffffu16 >> 8) & 0xff) == 0xff) by (bit_vector);
        assert(data@ =~= verifier_header(message_size));
    }
    push_bytes(&mut data, signature);
    push_bytes(&mut data, pubkey);
    push_bytes(&mut data, message);
    proof {
        assert(data@ =~= verifier_payload(pubkey@, message@, signature@));
    }
    BatchInstruction { program_id: secp256r1_program_id(), data }
}

/// Reassembling the two little-endian bytes of a 16-bit value gives the
/// value back.
proof fn lemma_u16_le_reassemble(v: u16)
    ensures
        u16_from_le((v & 0xff) as u8, ((v >> 8) & 0xff) as u8) == v,
{
    assert(((v & 0xff) as u8) as u32 + (((v >> 8) & 0xff) as u8) as u32 * 256 == v as u32)
        by (bit_vector);
}

/// Round trip: a payload built from a triple under the canonical layout
/// parses and extracts back to exactly that triple.
pub proof fn lemma_verifier_payload_round_trip(pk: Seq<u8>, msg: Seq<u8>, sig: Seq<u8>)
    requires
        pk.len() == 33,
        sig.len() == 64,
        msg.len() <= 0xffff,
    ensures
        instruction_matches(verifier_payload(pk, msg, sig), pk, msg, sig),
{
    let sz = msg.len() as u16;
    let d = verifier_payload(pk, msg, sig);
    assert(d.len() == 113 + msg.len());
    let p = parsed_header(d);
    assert(d[0] == 1);
    lemma_u16_le_reassemble(sz);
    assert(p.signature_offset == 16 && p.signature_ix_index == 0xffff) by {
        assert(d[2] == 16u8 && d[3] == 0u8 && d[4] == 0xffu8 && d[5] == 0xffu8);
    }
    assert(p.pubkey_offset == 80 && p.pubkey_ix_index == 0xffff) by {
        assert(d[6] == 80u8 && d[7] == 0u8 && d[8] == 0xffu8 && d[9] == 0xffu8);
    }
    assert(p.message_offset == 113 && p.message_ix_index == 0xffff) by {
        assert(d[10] == 113u8 && d[11] == 0u8 && d[14] == 0xffu8 && d[15] == 0xffu8);
    }
    assert(p.message_size == sz) by {
        assert(d[12] == (sz & 0xff) as u8 && d[13] == ((sz >> 8) & 0xff) as u8);
        lemma_u16_le_reassemble(sz);
    }
    assert(d.subrange(16, 80) =~= sig);
    assert(d.subrange(80, 113) =~= pk);
    assert(d.subrange(113, 113 + msg.len() as int) =~= msg);
}

} // verus!
