//! The byte-level side of reaching a Kaigi room through a SoraNet relay:
//! the room id the relay derives for a stream, the frame that opens a Kaigi
//! stream, the length-prefixed handshake frames, and the handshake
//! parameters read from hex text.
use vstd::prelude::*;
use crate::codec::{decode_hex_bytes, digest, blake3_digest, spec_hex_decode, spec_is_hex_text, utf8};
use crate::text::{concat2, decimal_string, spec_decimal, spec_trim, trim};

verus! {

broadcast use vstd::string::group_string_axioms;

/// The length of the frame that opens a route.
pub const ROUTE_OPEN_FRAME_LEN: usize = 34;

/// The stream tag of a Kaigi route.
pub const KAIGI_STREAM_TAG: u8 = 0x02;

/// The route flag of an authenticated stream.
pub const ROUTE_FLAG_AUTHENTICATED: u8 = 0x01;

/// The domain tag hashed in front of a Kaigi room id.
pub const KAIGI_ROOM_DOMAIN_TAG: &'static str = "soranet.kaigi.room_id.v1";

/// The largest handshake frame payload: its length must fit in 16 bits.
pub const MAX_HANDSHAKE_FRAME_LEN: usize = 65535;

/// Why hex text was refused.
#[derive(Debug, Clone, Copy, PartialEq, Eq)]
pub enum HexError {
    /// The text is not hex.
    DecodeHex,
    /// The hex held the wrong number of bytes.
    WrongLength { got: usize },
}

/// The message of a hex error.
pub open spec fn spec_hex_error_message(e: HexError) -> Seq<char> {
    match e {
        HexError::DecodeHex => "decode hex"@,
        HexError::WrongLength { got } => "expected 32 bytes, got "@ + spec_decimal(got as nat),
    }
}

impl HexError {
    /// The error's message.
    pub fn message(&self) -> (r: String)
        ensures
            r@ == spec_hex_error_message(*self),
    {
        match self {
            HexError::DecodeHex => "decode hex".to_owned(),
            HexError::WrongLength { got } => {
                let n = decimal_string(*got as u64);
                concat2("expected 32 bytes, got ", n.as_str())
            },
        }
    }
}

/// Why a SoraNet input was refused.
#[derive(Debug, Clone, PartialEq, Eq)]
pub enum SoranetError {
    /// A channel id of all zeros.
    ZeroChannelId,
    /// A handshake payload longer than a 16-bit length can say.
    PayloadTooLarge { len: usize },
    /// A named field was not the hex it should be.
    Field { name: String, cause: HexError },
}

/// The message of an error; a refused field is named before its cause.
pub open spec fn spec_soranet_message(e: SoranetError) -> Seq<char> {
    match e {
        SoranetError::ZeroChannelId => "channel_id must not be all zeros"@,
        SoranetError::PayloadTooLarge { .. } => "handshake payload too large"@,
        SoranetError::Field { name, cause } => name@ + ": "@ + spec_hex_error_message(cause),
    }
}

impl SoranetError {
    /// The error's message.
    pub fn message(&self) -> (r: String)
        ensures
            r@ == spec_soranet_message(*self),
    {
        match self {
            SoranetError::ZeroChannelId => "channel_id must not be all zeros".to_owned(),
            SoranetError::PayloadTooLarge { .. } => "handshake payload too large".to_owned(),
            SoranetError::Field { name, cause } => {
                let inner = cause.message();
                let mut r = concat2(name.as_str(), ": ");
                r.append(inner.as_str());
                r
            },
        }
    }
}

/// The bytes hashed for a Kaigi room id: the domain tag, then the channel,
/// route and stream ids.
pub open spec fn spec_room_id_input(channel_id: Seq<u8>, route_id: Seq<u8>, stream_id: Seq<u8>) -> Seq<u8> {
    utf8(KAIGI_ROOM_DOMAIN_TAG@) + channel_id + route_id + stream_id
}

/// Copies a 32-byte digest into an array.
fn to_array_32(v: &Vec<u8>) -> (r: [u8; 32])
    requires
        v@.len() == 32,
    ensures
        r@ == v@,
{
    let mut out = [0u8; 32];
    let mut i: usize = 0;
    while i < 32
        invariant
            v@.len() == 32,
            i <= 32,
            forall|k: int| 0 <= k < i ==> out@[k] == v@[k],
        decreases 32 - i,
    {
        out.set(i, v[i]);
        i = i + 1;
    }
    assert(out@ =~= v@);
    out
}

/// The room id that a SoraNet relay derives for a Kaigi stream: the BLAKE3
/// digest of the domain tag and the channel, route and stream ids.
pub fn derive_kaigi_room_id(channel_id: &[u8; 32], route_id: &[u8; 32], stream_id: &[u8; 32]) -> (r:
    [u8; 32])
    ensures
        r@ == blake3_digest(spec_room_id_input(channel_id@, route_id@, stream_id@)),
{
    let mut input = vstd::slice::slice_to_vec(KAIGI_ROOM_DOMAIN_TAG.as_bytes());
    input.extend_from_slice(vstd::array::array_as_slice(channel_id));
    input.extend_from_slice(vstd::array::array_as_slice(route_id));
    input.extend_from_slice(vstd::array::array_as_slice(stream_id));
    assert(input@ =~= spec_room_id_input(channel_id@, route_id@, stream_id@));
    let d = digest(input.as_slice());
    to_array_32(&d)
}

/// The bytes that hex text (surrounding white space trimmed) decodes to.
pub open spec fn spec_hex_of(s: Seq<char>) -> Option<Seq<u8>> {
    if spec_is_hex_text(utf8(spec_trim(s))) {
        Some(spec_hex_decode(utf8(spec_trim(s))))
    } else {
        None
    }
}

/// Decodes hex text, surrounding white space trimmed.
pub fn decode_hex_vec(s: &str) -> (r: Result<Vec<u8>, HexError>)
    ensures
        (match r {
            Ok(v) => spec_hex_of(s@) == Some(v@),
            Err(e) => spec_hex_of(s@) is None && e == HexError::DecodeHex,
        }),
{
    match decode_hex_bytes(trim(s)) {
        Some(v) => Ok(v),
        None => Err(HexError::DecodeHex),
    }
}

/// Decodes hex text of exactly 32 bytes, surrounding white space trimmed.
pub fn decode_hex_32(s: &str) -> (r: Result<[u8; 32], HexError>)
    ensures
        (match r {
            Ok(a) => spec_hex_of(s@) == Some(a@),
            Err(e) => match spec_hex_of(s@) {
                None => e == HexError::DecodeHex,
                Some(b) => b.len() != 32 && e == (HexError::WrongLength { got: b.len() as usize }),
            },
        }),
{
    let bytes = decode_hex_vec(s)?;
    if bytes.len() != 32 {
        return Err(HexError::WrongLength { got: bytes.len() });
    }
    Ok(to_array_32(&bytes))
}

/// The frame that opens a Kaigi stream on a relay connection: the stream
/// tag, the authentication flag and the channel id.
pub open spec fn spec_route_open_frame(channel_id: Seq<u8>, authenticated: bool) -> Seq<u8> {
    seq![
        KAIGI_STREAM_TAG,
        if authenticated {
            ROUTE_FLAG_AUTHENTICATED
        } else {
            0u8
        },
    ] + channel_id
}

/// The frame that opens a Kaigi stream; a channel id of all zeros is
/// refused.
pub fn route_open_frame(channel_id: &[u8; 32], authenticated: bool) -> (r: Result<Vec<u8>, SoranetError>)
    ensures
        (match r {
            Ok(h) => h@ == spec_route_open_frame(channel_id@, authenticated) && h@.len()
                == ROUTE_OPEN_FRAME_LEN && exists|i: int| 0 <= i < 32 && channel_id@[i] != 0,
            Err(e) => e == SoranetError::ZeroChannelId && forall|i: int|
                0 <= i < 32 ==> channel_id@[i] == 0,
        }),
{
    let mut i: usize = 0;
    let mut all_zero = true;
    while i < 32
        invariant
            i <= 32,
            channel_id@.len() == 32,
            all_zero == (forall|k: int| 0 <= k < i ==> channel_id@[k] == 0),
        decreases 32 - i,
    {
        if channel_id[i] != 0 {
            all_zero = false;
        }
        i = i + 1;
    }
    if all_zero {
        return Err(SoranetError::ZeroChannelId);
    }
    let mut header: Vec<u8> = Vec::new();
    header.push(KAIGI_STREAM_TAG);
    header.push(if authenticated { ROUTE_FLAG_AUTHENTICATED } else { 0 });
    header.extend_from_slice(vstd::array::array_as_slice(channel_id));
    assert(header@ =~= spec_route_open_frame(channel_id@, authenticated));
    Ok(header)
}

/// A handshake frame: the payload's length as two big-endian bytes, then
/// the payload.
pub open spec fn spec_handshake_frame(payload: Seq<u8>) -> Seq<u8> {
    seq![(payload.len() / 256) as u8, (payload.len() % 256) as u8] + payload
}

/// Frames a handshake payload; one too long for a 16-bit length is
/// refused.
pub fn handshake_frame(payload: &[u8]) -> (r: Result<Vec<u8>, SoranetError>)
    ensures
        (match r {
            Ok(f) => payload@.len() <= MAX_HANDSHAKE_FRAME_LEN && f@ == spec_handshake_frame(
                payload@,
            ),
            Err(e) => payload@.len() > MAX_HANDSHAKE_FRAME_LEN && e == (SoranetError::PayloadTooLarge {
                len: payload@.len() as usize,
            }),
        }),
{
    let len = payload.len();
    if len > MAX_HANDSHAKE_FRAME_LEN {
        return Err(SoranetError::PayloadTooLarge { len });
    }
    let mut out: Vec<u8> = Vec::new();
    out.push((len / 256) as u8);
    out.push((len % 256) as u8);
    out.extend_from_slice(payload);
    assert(out@ =~= spec_handshake_frame(payload@));
    Ok(out)
}

/// The payload length a handshake frame's two-byte prefix announces.
pub fn handshake_frame_len(prefix: [u8; 2]) -> (r: usize)
    ensures
        r == prefix@[0] * 256 + prefix@[1],
{
    (prefix[0] as usize) * 256 + (prefix[1] as usize)
}

/// The handshake parameters a client offers a relay.
#[derive(Debug, Clone)]
pub struct HandshakeParams {
    pub descriptor_commit: [u8; 32],
    pub client_capabilities: Vec<u8>,
    pub relay_capabilities: Vec<u8>,
    pub kem_id: u8,
    pub sig_id: u8,
    pub resume_hash: Option<Vec<u8>>,
}

/// A refusal of the named field.
pub open spec fn spec_field_error(name: Seq<char>, cause: HexError, e: SoranetError) -> bool {
    e matches SoranetError::Field { name: n, cause: c } && n@ == name && c == cause
}

fn in_field(name: &str, cause: HexError) -> (e: SoranetError)
    ensures
        spec_field_error(name@, cause, e),
{
    SoranetError::Field { name: name.to_owned(), cause }
}

/// The handshake parameters read from the hex texts of a relay's
/// configuration: the descriptor commitment must be 32 bytes; the
/// capabilities and the optional resume hash any number. The first field
/// that does not decode is named in the error.
pub fn handshake_params_from_hex(
    descriptor_commit_hex: &str,
    client_capabilities_hex: &str,
    relay_capabilities_hex: &str,
    kem_id: u8,
    sig_id: u8,
    resume_hash_hex: Option<&str>,
) -> (r: Result<HandshakeParams, SoranetError>)
    ensures
        (match r {
            Ok(p) => spec_hex_of(descriptor_commit_hex@) == Some(p.descriptor_commit@)
                && spec_hex_of(client_capabilities_hex@) == Some(p.client_capabilities@)
                && spec_hex_of(relay_capabilities_hex@) == Some(p.relay_capabilities@)
                && p.kem_id == kem_id && p.sig_id == sig_id && match resume_hash_hex {
                None => p.resume_hash is None,
                Some(h) => p.resume_hash matches Some(v) && spec_hex_of(h@) == Some(v@),
            },
            Err(e) => e is Field,
        }),
        r is Err <==> (!(spec_hex_of(descriptor_commit_hex@) matches Some(b) && b.len() == 32)
            || spec_hex_of(client_capabilities_hex@) is None || spec_hex_of(
            relay_capabilities_hex@,
        ) is None || (resume_hash_hex matches Some(h) && spec_hex_of(h@) is None)),
{
    let descriptor_commit = match decode_hex_32(descriptor_commit_hex) {
        Ok(a) => a,
        Err(e) => {
            return Err(in_field("descriptor_commit_hex", e));
        },
    };
    let client_capabilities = match decode_hex_vec(client_capabilities_hex) {
        Ok(v) => v,
        Err(e) => {
            return Err(in_field("client_capabilities_hex", e));
        },
    };
    let relay_capabilities = match decode_hex_vec(relay_capabilities_hex) {
        Ok(v) => v,
        Err(e) => {
            return Err(in_field("relay_capabilities_hex", e));
        },
    };
    let resume_hash = match resume_hash_hex {
        None => None,
        Some(h) => match decode_hex_vec(h) {
            Ok(v) => Some(v),
            Err(e) => {
                return Err(in_field("resume_hash_hex", e));
            },
        },
    };
    Ok(
        HandshakeParams {
            descriptor_commit,
            client_capabilities,
            relay_capabilities,
            kem_id,
            sig_id,
            resume_hash,
        },
    )
}

/// A text without its trailing slashes.
pub open spec fn spec_trim_end_slashes(s: Seq<char>) -> Seq<char>
    decreases s.len(),
{
    if s.len() > 0 && s.last() == '/' {
        spec_trim_end_slashes(s.drop_last())
    } else {
        s
    }
}

/// The configuration endpoint of a Torii node: its URL without trailing
/// slashes, then `/v1/config`.
pub fn config_url(torii_url: &str) -> (r: String)
    ensures
        r@ == spec_trim_end_slashes(torii_url@) + "/v1/config"@,
{
    let mut e = torii_url.unicode_len();
    assert(torii_url@.subrange(0, e as int) =~= torii_url@);
    while e > 0 && torii_url.get_char(e - 1) == '/'
        invariant
            e <= torii_url@.len(),
            spec_trim_end_slashes(torii_url@) == spec_trim_end_slashes(torii_url@.subrange(0, e as int)),
        decreases e,
    {
        assert(torii_url@.subrange(0, e as int).drop_last() =~= torii_url@.subrange(0, e - 1));
        e = e - 1;
    }
    let base = torii_url.substring_char(0, e);
    assert(spec_trim_end_slashes(base@) == base@);
    concat2(base, "/v1/config")
}

} // verus!
