//! WebAuthn challenge handling: unpadded base64url decoding and the narrow
//! single-field extraction of the `"challenge"` value from client-data JSON.
//!
//! The extraction is a byte-level substring scan, not a JSON parser: it takes
//! the bytes between the first occurrence of `"challenge":"` and the next
//! double quote.

use vstd::prelude::*;
use vstd::slice::slice_subrange;

use crate::bytes::bytes_eq;
use crate::error::KeystoreError;

verus! {

/// The sextet value of one base64url alphabet byte, `None` for a byte
/// outside the alphabet. `=` padding is handled by the caller.
pub open spec fn b64url_value(c: u8) -> Option<u8> {
    if 65 <= c <= 90 {  // 'A'..='Z'
        Some((c - 65) as u8)
    } else if 97 <= c <= 122 {  // 'a'..='z'
        Some((c - 97 + 26) as u8)
    } else if 48 <= c <= 57 {  // '0'..='9'
        Some((c - 48 + 52) as u8)
    } else if c == 45 {  // '-'
        Some(62u8)
    } else if c == 95 {  // '_'
        Some(63u8)
    } else {
        None
    }
}

/// The sextet values of a base64url text, with `=` padding bytes skipped;
/// `None` when any byte is outside the alphabet.
pub open spec fn b64url_sextets(s: Seq<u8>) -> Option<Seq<u8>>
    decreases s.len(),
{
    if s.len() == 0 {
        Some(Seq::empty())
    } else {
        match b64url_sextets(s.drop_last()) {
            None => None,
            Some(v) => {
                if s.last() == 61 {  // '='
                    Some(v)
                } else {
                    match b64url_value(s.last()) {
                        None => None,
                        Some(x) => Some(v.push(x)),
                    }
                }
            },
        }
    }
}

/// The first output byte of a sextet group.
pub open spec fn b64_byte0(s0: u8, s1: u8) -> u8 {
    (s0 << 2) | (s1 >> 4)
}

/// The second output byte of a sextet group.
pub open spec fn b64_byte1(s1: u8, s2: u8) -> u8 {
    ((s1 & 0xf) << 4) | (s2 >> 2)
}

/// The third output byte of a sextet group.
pub open spec fn b64_byte2(s2: u8, s3: u8) -> u8 {
    ((s2 & 0x3) << 6) | s3
}

/// The bytes encoded by a sequence of sextet values: each full group of four
/// sextets yields three bytes; a trailing group of three yields two bytes,
/// of two yields one, and a lone trailing sextet yields nothing.
pub open spec fn sextets_to_bytes(v: Seq<u8>) -> Seq<u8>
    decreases v.len(),
{
    if v.len() >= 4 {
        seq![b64_byte0(v[0], v[1]), b64_byte1(v[1], v[2]), b64_byte2(v[2], v[3])]
            + sextets_to_bytes(v.skip(4))
    } else if v.len() == 3 {
        seq![b64_byte0(v[0], v[1]), b64_byte1(v[1], v[2])]
    } else if v.len() == 2 {
        seq![b64_byte0(v[0], v[1])]
    } else {
        Seq::empty()
    }
}

/// The bytes an unpadded base64url text decodes to, `None` when a byte is
/// outside the alphabet.
pub open spec fn b64url_decoded(s: Seq<u8>) -> Option<Seq<u8>> {
    match b64url_sextets(s) {
        None => None,
        Some(v) => Some(sextets_to_bytes(v)),
    }
}

/// A byte outside the alphabet (other than `=`) anywhere in the text makes
/// the whole text undecodable.
proof fn lemma_b64url_sextets_invalid(s: Seq<u8>, i: int)
    requires
        0 <= i < s.len(),
        s[i] != 61,
        b64url_value(s[i]) is None,
    ensures
        b64url_sextets(s) is None,
    decreases s.len(),
{
    if i == s.len() - 1 {
    } else {
        lemma_b64url_sextets_invalid(s.drop_last(), i);
    }
}

/// Decodes unpadded base64url text (`=` bytes are skipped). Fails exactly
/// when some byte is outside the alphabet.
pub fn base64url_decode(input: &[u8]) -> (r: Result<Vec<u8>, ()>)
    ensures
        (r is Ok) == (b64url_decoded(input@) is Some),
        r matches Ok(out) ==> Some(out@) == b64url_decoded(input@),
{
    let mut sextets: Vec<u8> = Vec::new();
    let mut i: usize = 0;
    while i < input.len()
        invariant
            i <= input@.len(),
            b64url_sextets(input@.subrange(0, i as int)) == Some(sextets@),
        decreases input@.len() - i,
    {
        let c = input[i];
        if c == 61 {
            // '=' padding: contributes nothing
        } else if 65 <= c && c <= 90 {
            sextets.push(c - 65);
        } else if 97 <= c && c <= 122 {
            sextets.push(c - 97 + 26);
        } else if 48 <= c && c <= 57 {
            sextets.push(c - 48 + 52);
        } else if c == 45 {
            sextets.push(62);
        } else if c == 95 {
            sextets.push(63);
        } else {
            proof {
                lemma_b64url_sextets_invalid(input@, i as int);
            }
            return Err(());
        }
        i += 1;
        proof {
            let pre = input@.subrange(0, i as int);
            assert(pre.drop_last() =~= input@.subrange(0, i - 1));
            assert(pre.last() == input@[i - 1]);
        }
    }
    proof {
        assert(input@.subrange(0, input@.len() as int) =~= input@);
    }
    let n = sextets.len();
    let mut out: Vec<u8> = Vec::new();
    let mut j: usize = 0;
    proof {
        assert(sextets@.skip(0) =~= sextets@);
    }
    while n - j >= 4
        invariant
            j <= n,
            n == sextets@.len(),
            sextets_to_bytes(sextets@) == out@ + sextets_to_bytes(sextets@.skip(j as int)),
        decreases n - j,
    {
        let s0 = sextets[j];
        let s1 = sextets[j + 1];
        let s2 = sextets[j + 2];
        let s3 = sextets[j + 3];
        out.push((s0 << 2) | (s1 >> 4));
        out.push(((s1 & 0xf) << 4) | (s2 >> 2));
        out.push(((s2 & 0x3) << 6) | s3);
        proof {
            let rest = sextets@.skip(j as int);
            assert(rest.len() >= 4);
            assert(rest[0] == s0 && rest[1] == s1 && rest[2] == s2 && rest[3] == s3);
            assert(rest.skip(4) =~= sextets@.skip(j as int + 4));
            assert(out@ =~= (out@.subrange(0, out@.len() - 3) + seq![
                b64_byte0(s0, s1),
                b64_byte1(s1, s2),
                b64_byte2(s2, s3),
            ]));
        }
        j += 4;
    }
    let rem = n - j;
    if rem == 3 {
        let s0 = sextets[j];
        let s1 = sextets[j + 1];
        let s2 = sextets[j + 2];
        out.push((s0 << 2) | (s1 >> 4));
        out.push(((s1 & 0xf) << 4) | (s2 >> 2));
        proof {
            let rest = sextets@.skip(j as int);
            assert(rest.len() == 3);
            assert(rest[0] == s0 && rest[1] == s1 && rest[2] == s2);
            assert(out@ =~= (out@.subrange(0, out@.len() - 2) + sextets_to_bytes(rest)));
        }
    } else if rem == 2 {
        let s0 = sextets[j];
        let s1 = sextets[j + 1];
        out.push((s0 << 2) | (s1 >> 4));
        proof {
            let rest = sextets@.skip(j as int);
            assert(rest.len() == 2);
            assert(rest[0] == s0 && rest[1] == s1);
            assert(out@ =~= (out@.subrange(0, out@.len() - 1) + sextets_to_bytes(rest)));
        }
    } else {
        proof {
            let rest = sextets@.skip(j as int);
            assert(rest.len() < 2);
            assert(sextets_to_bytes(rest) =~= Seq::<u8>::empty());
            assert(out@ =~= out@ + sextets_to_bytes(rest));
        }
    }
    Ok(out)
}

/// The 13 bytes of the text `"challenge":"` that precede a challenge value
/// in client-data JSON.
pub open spec fn challenge_pattern() -> Seq<u8> {
    seq![34u8, 99u8, 104u8, 97u8, 108u8, 108u8, 101u8, 110u8, 103u8, 101u8, 34u8, 58u8, 34u8]
}

/// The least index at or after `from` where the challenge pattern occurs.
pub open spec fn find_pattern(s: Seq<u8>, from: int) -> Option<int>
    decreases s.len() - from,
{
    if from + 13 > s.len() {
        None
    } else if s.subrange(from, from + 13) == challenge_pattern() {
        Some(from)
    } else {
        find_pattern(s, from + 1)
    }
}

/// The least index at or after `from` holding a double quote.
pub open spec fn find_quote(s: Seq<u8>, from: int) -> Option<int>
    decreases s.len() - from,
{
    if from >= s.len() {
        None
    } else if s[from] == 34 {
        Some(from)
    } else {
        find_quote(s, from + 1)
    }
}

/// The base64url text of the challenge field: the bytes between the first
/// occurrence of the pattern and the next double quote.
pub open spec fn challenge_text(json: Seq<u8>) -> Option<Seq<u8>> {
    match find_pattern(json, 0) {
        None => None,
        Some(p) => match find_quote(json, p + 13) {
            None => None,
            Some(q) => Some(json.subrange(p + 13, q)),
        },
    }
}

/// The decoded challenge bytes embedded in client-data JSON, `None` when
/// the field is absent or does not decode.
pub open spec fn challenge_of(json: Seq<u8>) -> Option<Seq<u8>> {
    match challenge_text(json) {
        None => None,
        Some(t) => b64url_decoded(t),
    }
}

proof fn lemma_find_pattern_found(s: Seq<u8>, from: int, i: int)
    requires
        0 <= from <= i,
        i + 13 <= s.len(),
        s.subrange(i, i + 13) == challenge_pattern(),
        forall|k: int| from <= k < i ==> #[trigger] s.subrange(k, k + 13) != challenge_pattern(),
    ensures
        find_pattern(s, from) == Some(i),
    decreases i - from,
{
    if from < i {
        lemma_find_pattern_found(s, from + 1, i);
    }
}

proof fn lemma_find_pattern_absent(s: Seq<u8>, from: int)
    requires
        0 <= from,
        forall|k: int| from <= k && k + 13 <= s.len() ==> #[trigger] s.subrange(k, k + 13)
            != challenge_pattern(),
    ensures
        find_pattern(s, from) is None,
    decreases s.len() - from,
{
    if from + 13 <= s.len() {
        lemma_find_pattern_absent(s, from + 1);
    }
}

proof fn lemma_find_quote_found(s: Seq<u8>, from: int, i: int)
    requires
        0 <= from <= i < s.len(),
        s[i] == 34,
        forall|k: int| from <= k < i ==> s[k] != 34,
    ensures
        find_quote(s, from) == Some(i),
    decreases i - from,
{
    if from < i {
        lemma_find_quote_found(s, from + 1, i);
    }
}

proof fn lemma_find_quote_absent(s: Seq<u8>, from: int)
    requires
        0 <= from,
        forall|k: int| from <= k < s.len() ==> s[k] != 34,
    ensures
        find_quote(s, from) is None,
    decreases s.len() - from,
{
    if from < s.len() {
        lemma_find_quote_absent(s, from + 1);
    }
}

/// Returns the 13-byte challenge pattern.
fn challenge_pattern_bytes() -> (r: Vec<u8>)
    ensures
        r@ == challenge_pattern(),
{
    let r: Vec<u8> = vec![34u8, 99u8, 104u8, 97u8, 108u8, 108u8, 101u8, 110u8, 103u8, 101u8, 34u8,
        58u8, 34u8];
    proof {
        assert(r@ =~= challenge_pattern());
    }
    r
}

/// Verifies that the challenge embedded in the client-data JSON decodes to
/// exactly `expected_hash`. Succeeds exactly when the challenge field is
/// present, decodes as unpadded base64url and equals the expected bytes.
pub fn verify_webauthn_challenge(client_data_json: &[u8], expected_hash: &[u8]) -> (r: Result<
    (),
    KeystoreError,
>)
    ensures
        (r is Ok) == (challenge_of(client_data_json@) == Some(expected_hash@)),
        r matches Err(e) ==> e == KeystoreError::InvalidWebAuthnData,
{
    let pattern = challenge_pattern_bytes();
    let n = client_data_json.len();

    // Find the first occurrence of the pattern.
    let mut p: usize = 0;
    let mut found_p: bool = false;
    while !found_p && n - p >= 13
        invariant
            p <= n,
            n == client_data_json@.len(),
            pattern@ == challenge_pattern(),
            !found_p ==> forall|k: int| 0 <= k < p ==> #[trigger] client_data_json@.subrange(k, k + 13)
                != challenge_pattern(),
            found_p ==> p + 13 <= n && client_data_json@.subrange(p as int, p as int + 13)
                == challenge_pattern() && forall|k: int| 0 <= k < p ==> #[trigger] client_data_json@.subrange(
                k,
                k + 13,
            ) != challenge_pattern(),
        decreases n - p, (if found_p { 0int } else { 1int }),
    {
        if bytes_eq(slice_subrange(client_data_json, p, p + 13), pattern.as_slice()) {
            found_p = true;
        } else {
            p += 1;
        }
    }
    if !found_p {
        proof {
            lemma_find_pattern_absent(client_data_json@, 0);
        }
        return Err(KeystoreError::InvalidWebAuthnData);
    }
    proof {
        lemma_find_pattern_found(client_data_json@, 0, p as int);
    }
    let start = p + 13;

    // Find the closing quote.
    let mut q: usize = start;
    let mut found_q: bool = false;
    while !found_q && q < n
        invariant
            start <= q <= n,
            n == client_data_json@.len(),
            !found_q ==> forall|k: int| start <= k < q ==> client_data_json@[k] != 34,
            found_q ==> q < n && client_data_json@[q as int] == 34 && forall|k: int|
                start <= k < q ==> client_data_json@[k] != 34,
        decreases n - q, (if found_q { 0int } else { 1int }),
    {
        if client_data_json[q] == 34 {
            found_q = true;
        } else {
            q += 1;
        }
    }
    if !found_q {
        proof {
            lemma_find_quote_absent(client_data_json@, start as int);
        }
        return Err(KeystoreError::InvalidWebAuthnData);
    }
    proof {
        lemma_find_quote_found(client_data_json@, start as int, q as int);
    }

    let text = slice_subrange(client_data_json, start, q);
    let challenge = match base64url_decode(text) {
        Ok(challenge) => challenge,
        Err(_) => {
            return Err(KeystoreError::InvalidWebAuthnData);
        },
    };
    if bytes_eq(challenge.as_slice(), expected_hash) {
        Ok(())
    } else {
        Err(KeystoreError::InvalidWebAuthnData)
    }
}

} // verus!
