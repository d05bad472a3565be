//! Hex text, BLAKE3 digests and the deterministic signature tokens that the
//! hub checks on signed actions.
use vstd::prelude::*;
use crate::text::{spec_strip_hex_prefix, strip_hex_prefix};

verus! {

broadcast use vstd::string::group_string_axioms;

/// An ASCII hex digit, either case.
pub open spec fn spec_is_hex_byte(b: u8) -> bool {
    (0x30 <= b && b <= 0x39) || (0x41 <= b && b <= 0x46) || (0x61 <= b && b <= 0x66)
}

/// The value of a hex digit.
pub open spec fn spec_hex_value(b: u8) -> int {
    if 0x30 <= b && b <= 0x39 {
        b - 0x30
    } else if 0x41 <= b && b <= 0x46 {
        b - 0x41 + 10
    } else {
        b - 0x61 + 10
    }
}

/// What `hex::decode` accepts: an even number of hex digits.
pub open spec fn spec_is_hex_text(bytes: Seq<u8>) -> bool {
    &&& bytes.len() % 2 == 0
    &&& forall|i: int| 0 <= i < bytes.len() ==> spec_is_hex_byte(#[trigger] bytes[i])
}

/// What `hex::decode` gives on accepted input: one byte per digit pair,
/// high nibble first.
pub open spec fn spec_hex_decode(bytes: Seq<u8>) -> Seq<u8> {
    Seq::new(
        bytes.len() / 2,
        |i: int| (spec_hex_value(bytes[2 * i]) * 16 + spec_hex_value(bytes[2 * i + 1])) as u8,
    )
}

/// The lower-case hex digit of a nibble.
pub open spec fn spec_nibble_char(n: int) -> char {
    if n < 10 {
        ((n + 0x30) as u8) as char
    } else {
        ((n - 10 + 0x61) as u8) as char
    }
}

/// What `hex::encode` gives: two lower-case digits per byte, high nibble first.
pub open spec fn spec_hex_lower(bytes: Seq<u8>) -> Seq<char> {
    Seq::new(
        2 * bytes.len(),
        |i: int|
            if i % 2 == 0 {
                spec_nibble_char((bytes[i / 2] / 16) as int)
            } else {
                spec_nibble_char((bytes[i / 2] % 16) as int)
            },
    )
}

/// `hex::decode` (hex 0.4): it accepts exactly an even number of ASCII hex
/// digits of either case and returns the byte of each digit pair, high
/// nibble first. The decode error is reported as `None`.
#[verifier::external_body]
fn hex_decode(data: &[u8]) -> (r: Option<Vec<u8>>)
    ensures
        r is Some <==> spec_is_hex_text(data@),
        r matches Some(v) ==> v@ == spec_hex_decode(data@),
{
    hex::decode(data).ok()
}

/// `hex::encode` (hex 0.4): the lower-case hex text of the bytes, two digits
/// per byte, high nibble first.
#[verifier::external_body]
fn hex_encode(data: &[u8]) -> (r: String)
    ensures
        r@ == spec_hex_lower(data@),
{
    hex::encode(data)
}

/// The BLAKE3 digest of a byte string.
pub uninterp spec fn blake3_digest(data: Seq<u8>) -> Seq<u8>;

/// `blake3::hash` (blake3 1.8): the 32-byte BLAKE3 digest of the input. The
/// digest itself is named, not stated; its length is the documented
/// `OUT_LEN`.
#[verifier::external_body]
fn blake3_hash(data: &[u8]) -> (r: Vec<u8>)
    ensures
        r@ == blake3_digest(data@),
        r@.len() == 32,
{
    blake3::hash(data).as_bytes().to_vec()
}

/// The UTF-8 bytes of a text.
pub open spec fn utf8(s: Seq<char>) -> Seq<u8> {
    vstd::utf8::encode_utf8(s)
}

/// Decodes hex text, with or without the `0x` prefix already removed.
pub fn decode_hex_bytes(s: &str) -> (r: Option<Vec<u8>>)
    ensures
        r is Some <==> spec_is_hex_text(utf8(s@)),
        r matches Some(v) ==> v@ == spec_hex_decode(utf8(s@)),
{
    hex_decode(s.as_bytes())
}

/// The lower-case hex text of some bytes.
pub fn encode_hex(data: &[u8]) -> (r: String)
    ensures
        r@ == spec_hex_lower(data@),
{
    hex_encode(data)
}

/// The BLAKE3 digest of `data`.
pub fn digest(data: &[u8]) -> (r: Vec<u8>)
    ensures
        r@ == blake3_digest(data@),
        r@.len() == 32,
{
    blake3_hash(data)
}

/// The hex digits of `value` once an optional `0x`/`0X` prefix is dropped.
pub open spec fn spec_hex_body(value: Seq<char>) -> Seq<u8> {
    utf8(spec_strip_hex_prefix(value))
}

/// Non-empty, well-formed hex text (optionally `0x`-prefixed).
pub open spec fn spec_is_valid_hex(value: Seq<char>) -> bool {
    spec_hex_body(value).len() > 0 && spec_is_hex_text(spec_hex_body(value))
}

/// Hex text (optionally `0x`-prefixed) of exactly `bytes` bytes.
pub open spec fn spec_is_valid_hex_len(value: Seq<char>, bytes: nat) -> bool {
    spec_hex_body(value).len() == bytes * 2 && spec_is_hex_text(spec_hex_body(value))
}

/// True for non-empty hex text with an even number of digits.
pub fn is_valid_hex(value: &str) -> (r: bool)
    ensures
        r == spec_is_valid_hex(value@),
{
    let normalized = strip_hex_prefix(value);
    let bytes = normalized.as_bytes();
    if bytes.len() == 0 || bytes.len() % 2 != 0 {
        return false;
    }
    hex_decode(bytes).is_some()
}

/// True for hex text that encodes exactly `bytes` bytes.
pub fn is_valid_hex_len(value: &str, bytes: usize) -> (r: bool)
    requires
        bytes <= usize::MAX / 2,
    ensures
        r == spec_is_valid_hex_len(value@, bytes as nat),
{
    let normalized = strip_hex_prefix(value);
    let raw = normalized.as_bytes();
    if raw.len() != bytes * 2 {
        return false;
    }
    hex_decode(raw).is_some()
}

/// True for a 32-byte transaction hash in hex (optionally `0x`-prefixed).
pub fn is_valid_tx_hash_hex(hash: &str) -> (r: bool)
    ensures
        r == spec_is_valid_hex_len(hash@, 32),
{
    is_valid_hex_len(hash, 32)
}

/// What `str::to_ascii_lowercase` gives: ASCII upper-case letters lowered,
/// every other character kept.
pub open spec fn spec_ascii_lower(s: Seq<char>) -> Seq<char> {
    s.map_values(|c: char| if 'A' <= c && c <= 'Z' { ((c as u32) + 32) as char } else { c })
}

/// True when `expected` equals `candidate` with ASCII letters lowered.
pub fn equals_ascii_lowercased(expected: &str, candidate: &str) -> (r: bool)
    ensures
        r == (expected@ == spec_ascii_lower(candidate@)),
{
    let n = expected.unicode_len();
    let m = candidate.unicode_len();
    if n != m {
        assert(expected@.len() != spec_ascii_lower(candidate@).len());
        return false;
    }
    let mut a = expected.chars();
    let mut b = candidate.chars();
    let ghost mut k: int = 0;
    loop
        invariant
            0 <= k <= n,
            n == expected@.len(),
            n == candidate@.len(),
            vstd::std_specs::iter::IteratorSpec::remaining(&a) == expected@.skip(k),
            vstd::std_specs::iter::IteratorSpec::obeys_prophetic_iter_laws(&a),
            vstd::std_specs::iter::IteratorSpec::remaining(&b) == candidate@.skip(k),
            vstd::std_specs::iter::IteratorSpec::obeys_prophetic_iter_laws(&b),
            forall|i: int| 0 <= i < k ==> #[trigger] expected@[i] == spec_ascii_lower(candidate@)[i],
        decreases n - k,
    {
        let x = a.next();
        let y = b.next();
        match (x, y) {
            (Some(cx), Some(cy)) => {
                let lowered = if 'A' <= cy && cy <= 'Z' {
                    ((cy as u32) + 32) as u8 as char
                } else {
                    cy
                };
                assert(candidate@[k] == cy);
                if cx != lowered {
                    assert(expected@[k] != spec_ascii_lower(candidate@)[k]);
                    return false;
                }
                proof {
                    k = k + 1;
                }
            },
            _ => {
                assert(expected@ =~= spec_ascii_lower(candidate@));
                return true;
            },
        }
    }
}

/// The deterministic signature token of a payload under a tag: the hex of
/// the BLAKE3 digest of the tag's bytes followed by the payload's bytes.
pub open spec fn spec_signature_hex(tag: Seq<char>, payload: Seq<char>) -> Seq<char> {
    spec_hex_lower(blake3_digest(utf8(tag) + utf8(payload)))
}

/// The deterministic signature token of `payload` under `tag`.
pub fn deterministic_signature_hex(tag: &str, payload: &str) -> (r: String)
    ensures
        r@ == spec_signature_hex(tag@, payload@),
{
    let mut bytes = vstd::slice::slice_to_vec(tag.as_bytes());
    bytes.extend_from_slice(payload.as_bytes());
    assert(bytes@ =~= utf8(tag@) + utf8(payload@));
    let d = blake3_hash(bytes.as_slice());
    hex_encode(d.as_slice())
}

} // verus!
