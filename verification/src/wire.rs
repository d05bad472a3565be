//! The framed control-plane protocol carried over a Kaigi stream.
//!
//! Kaigi streams are byte streams: chunk boundaries do not align with
//! message boundaries, so every message travels as `u32` big-endian length
//! followed by that many payload bytes. The payload is the binary encoding of
//! one `KaigiFrame`; this module frames and unframes payload bytes and
//! enforces the size limits.
use vstd::prelude::*;

verus! {

broadcast use vstd::string::group_string_axioms;

/// A framed message carried over a Kaigi stream.
#[derive(Clone, Debug, PartialEq, Eq)]
pub enum KaigiFrame {
    /// Anonymous-mode hello frame. Carries an opaque participant handle and DH public key.
    AnonHello(AnonHelloFrame),
    /// Anonymous-mode roster with opaque handles and keying material only.
    AnonRoster(AnonRosterFrame),
    /// Anonymous-mode key update (initial announce + rekey).
    GroupKeyUpdate(GroupKeyUpdateFrame),
    /// Anonymous-mode encrypted control payload fan-out.
    EncryptedControl(EncryptedControlFrame),
    /// Anonymous-mode escrow proof heartbeat (amount-hidden).
    EscrowProof(EscrowProofFrame),
    /// Hub acknowledgement for `EscrowProof`.
    EscrowAck(EscrowAckFrame),
    Hello(HelloFrame),
    /// Snapshot of the currently-known participant roster.
    Roster(RosterFrame),
    /// A room-scoped event such as join/leave/state change.
    Event(RoomEventFrame),
    /// Room-scoped configuration (rate, host, etc).
    RoomConfig(RoomConfigFrame),
    /// Host-to-hub request to update room configuration.
    RoomConfigUpdate(RoomConfigUpdateFrame),
    /// Host moderation actions (mute/stop video/stop share/kick).
    Moderation(ModerationFrame),
    Chat(ChatFrame),
    ParticipantState(ParticipantStateFrame),
    /// Client-to-hub payment signal.
    Payment(PaymentFrame),
    /// Hub-to-client acknowledgement for a `Payment` frame.
    PaymentAck(PaymentAckFrame),
    Ping(PingFrame),
    Pong(PongFrame),
    Error(ErrorFrame),
}

#[derive(Clone, Debug, PartialEq, Eq)]
pub struct AnonHelloFrame {
    pub protocol_version: u16,
    /// Opaque participant handle (never an account id).
    pub participant_handle: String,
    /// X25519 public key encoded as lower-case hex (32 bytes).
    pub x25519_pubkey_hex: String,
}

#[derive(Clone, Debug, PartialEq, Eq)]
pub struct AnonRosterFrame {
    pub at_ms: u64,
    pub participants: Vec<AnonRosterEntry>,
}

#[derive(Clone, Debug, PartialEq, Eq)]
pub struct AnonRosterEntry {
    pub participant_handle: String,
    pub x25519_pubkey_hex: String,
    pub joined_at_ms: u64,
}

#[derive(Clone, Debug, PartialEq, Eq)]
pub struct GroupKeyUpdateFrame {
    pub sent_at_ms: u64,
    pub participant_handle: String,
    pub x25519_pubkey_hex: String,
    pub epoch: u64,
}

#[derive(Clone, Copy, Debug, PartialEq, Eq, Structural)]
pub enum EncryptedControlKind {
    Chat,
    ParticipantState,
    Moderation,
    Command,
    EscrowHeartbeat,
}

#[derive(Clone, Debug, PartialEq, Eq)]
pub struct EncryptedRecipientPayload {
    pub recipient_handle: String,
    /// XChaCha20-Poly1305 nonce encoded as lower-case hex (24 bytes).
    pub nonce_hex: String,
    /// Ciphertext + tag encoded as lower-case hex.
    pub ciphertext_hex: String,
}

#[derive(Clone, Debug, PartialEq, Eq)]
pub struct EncryptedControlFrame {
    pub sent_at_ms: u64,
    pub sender_handle: String,
    pub epoch: u64,
    pub kind: EncryptedControlKind,
    pub payloads: Vec<EncryptedRecipientPayload>,
}

#[derive(Clone, Debug, PartialEq, Eq)]
pub struct EscrowProofFrame {
    pub sent_at_ms: u64,
    pub payer_handle: String,
    pub escrow_id: String,
    /// Opaque proof bytes encoded as lower-case hex.
    pub proof_hex: String,
}

#[derive(Clone, Debug, PartialEq, Eq)]
pub struct EscrowAckFrame {
    pub received_at_ms: u64,
    pub escrow_id: String,
    pub accepted: bool,
    pub reason: Option<String>,
}

#[derive(Clone, Debug, PartialEq, Eq)]
pub struct HelloFrame {
    pub protocol_version: u16,
    pub participant_id: String,
    pub display_name: Option<String>,
    /// MUST default to `false` when joining a call.
    pub mic_enabled: bool,
    /// MUST default to `false` when joining a call.
    pub video_enabled: bool,
    pub screen_share_enabled: bool,
    /// Hint from the client: the display can render HDR content.
    pub hdr_display: bool,
    /// Hint from the client: the camera/capture pipeline can produce HDR frames.
    pub hdr_capture: bool,
}

#[derive(Clone, Debug, PartialEq, Eq)]
pub struct ChatFrame {
    pub sent_at_ms: u64,
    pub from_participant_id: String,
    pub from_display_name: Option<String>,
    pub text: String,
}

#[derive(Clone, Debug, PartialEq, Eq)]
pub struct RosterFrame {
    pub at_ms: u64,
    pub participants: Vec<RosterEntry>,
}

#[derive(Clone, Debug, PartialEq, Eq)]
pub struct RosterEntry {
    pub participant_id: String,
    pub display_name: Option<String>,
    pub mic_enabled: bool,
    pub video_enabled: bool,
    pub screen_share_enabled: bool,
}

#[derive(Clone, Debug, PartialEq, Eq)]
pub enum RoomEventFrame {
    Joined(ParticipantSnapshot),
    Left(ParticipantLeftFrame),
    StateUpdated(ParticipantSnapshot),
}

#[derive(Clone, Debug, PartialEq, Eq)]
pub struct ParticipantSnapshot {
    pub at_ms: u64,
    pub participant_id: String,
    pub display_name: Option<String>,
    pub mic_enabled: bool,
    pub video_enabled: bool,
    pub screen_share_enabled: bool,
}

#[derive(Clone, Debug, PartialEq, Eq)]
pub struct ParticipantLeftFrame {
    pub at_ms: u64,
    pub participant_id: String,
}

#[derive(Clone, Copy, Debug, PartialEq, Eq, Structural)]
pub struct ParticipantStateFrame {
    pub updated_at_ms: u64,
    pub mic_enabled: Option<bool>,
    pub video_enabled: Option<bool>,
    pub screen_share_enabled: Option<bool>,
}

#[derive(Clone, Debug, PartialEq, Eq)]
pub struct RoomConfigFrame {
    pub updated_at_ms: u64,
    /// Current host participant id (if known).
    pub host_participant_id: Option<String>,
    /// Call rate in nano-XOR per minute.
    pub rate_per_minute_nano: u64,
    /// Billing grace window (seconds).
    pub billing_grace_secs: u64,
    /// Maximum simultaneous screen shares allowed.
    pub max_screen_shares: u8,
}

#[derive(Clone, Copy, Debug, PartialEq, Eq, Structural)]
pub struct RoomConfigUpdateFrame {
    pub updated_at_ms: u64,
    pub rate_per_minute_nano: Option<u64>,
    pub max_screen_shares: Option<u8>,
}

#[derive(Clone, Debug, PartialEq, Eq)]
pub struct ModerationFrame {
    pub sent_at_ms: u64,
    pub target: ModerationTarget,
    pub action: ModerationAction,
}

#[derive(Clone, Debug, PartialEq, Eq)]
pub enum ModerationTarget {
    All,
    Participant(String),
}

#[derive(Clone, Copy, Debug, PartialEq, Eq, Structural)]
pub enum ModerationAction {
    Kick,
    DisableMic,
    DisableVideo,
    DisableScreenShare,
}

#[derive(Clone, Debug, PartialEq, Eq)]
pub struct PaymentFrame {
    pub sent_at_ms: u64,
    /// Amount paid in nano-XOR (1e-9 XOR units).
    pub amount_nano_xor: u64,
    /// Optional on-ledger transaction hash (hex) for reconciliation.
    pub tx_hash_hex: Option<String>,
}

#[derive(Clone, Copy, Debug, PartialEq, Eq, Structural)]
pub struct PaymentAckFrame {
    pub received_at_ms: u64,
    pub amount_nano_xor: u64,
    pub total_paid_nano_xor: u64,
    pub total_billed_nano_xor: u64,
}

#[derive(Clone, Copy, Debug, PartialEq, Eq, Structural)]
pub struct PingFrame {
    pub nonce: u64,
}

#[derive(Clone, Copy, Debug, PartialEq, Eq, Structural)]
pub struct PongFrame {
    pub nonce: u64,
}

#[derive(Clone, Debug, PartialEq, Eq)]
pub struct ErrorFrame {
    pub message: String,
}

pub const PROTOCOL_VERSION: u16 = 5;

pub const MAX_FRAME_LEN: usize = 256 * 1024;

pub const MAX_ANON_PARTICIPANT_HANDLE_LEN: usize = 128;

pub const MAX_ESCROW_ID_LEN: usize = 128;

pub const MAX_ESCROW_PROOF_HEX_LEN: usize = 64 * 1024;

/// Why framing or unframing failed.
#[derive(Clone, Copy, Debug, PartialEq, Eq, Structural)]
pub enum FrameError {
    /// The payload to send is longer than `MAX_FRAME_LEN`.
    FrameTooLarge { len: usize },
    /// A received header declares more than `MAX_FRAME_LEN` bytes.
    DeclaredLengthTooLarge { declared: u32 },
}

/// The error text of a framing failure.
pub open spec fn spec_frame_error_message(e: FrameError) -> Seq<char> {
    match e {
        FrameError::FrameTooLarge { len } => "frame too large: "@ + crate::text::spec_decimal(
            len as nat,
        ) + " bytes (max "@ + crate::text::spec_decimal(MAX_FRAME_LEN as nat) + ")"@,
        FrameError::DeclaredLengthTooLarge { declared } => "declared frame length "@
            + crate::text::spec_decimal(declared as nat) + " exceeds MAX_FRAME_LEN "@
            + crate::text::spec_decimal(MAX_FRAME_LEN as nat),
    }
}

impl FrameError {
    /// The human-readable text of the error.
    pub fn message(&self) -> (r: String)
        ensures
            r@ == spec_frame_error_message(*self),
    {
        match self {
            FrameError::FrameTooLarge { len } => {
                let mut s = crate::text::owned("frame too large: ");
                crate::text::push_decimal(&mut s, *len as u64);
                s.append(" bytes (max ");
                crate::text::push_decimal(&mut s, MAX_FRAME_LEN as u64);
                s.append(")");
                s
            },
            FrameError::DeclaredLengthTooLarge { declared } => {
                let mut s = crate::text::owned("declared frame length ");
                crate::text::push_decimal(&mut s, *declared as u64);
                s.append(" exceeds MAX_FRAME_LEN ");
                crate::text::push_decimal(&mut s, MAX_FRAME_LEN as u64);
                s
            },
        }
    }
}

/// The four big-endian bytes of a length.
pub open spec fn spec_be_u32(n: nat) -> Seq<u8> {
    seq![
        (n / 16777216 % 256) as u8,
        (n / 65536 % 256) as u8,
        (n / 256 % 256) as u8,
        (n % 256) as u8,
    ]
}

/// The length that a buffer's first four bytes declare, big-endian.
pub open spec fn spec_declared_len(buf: Seq<u8>) -> nat {
    (buf[0] as nat) * 16777216 + (buf[1] as nat) * 65536 + (buf[2] as nat) * 256 + (buf[3] as nat)
}

/// The framed form of a payload: its length, then the payload.
pub open spec fn spec_framed(payload: Seq<u8>) -> Seq<u8> {
    spec_be_u32(payload.len()) + payload
}

/// The error frame that stands for a frame of declared length zero.
pub open spec fn spec_is_zero_length_frame(f: KaigiFrame) -> bool {
    f matches KaigiFrame::Error(e) && e.message@ == "zero-length frame"@
}

/// Frames a payload: `u32(be) len` followed by the payload.
pub fn encode_framed_payload(payload: &[u8]) -> (r: Result<Vec<u8>, FrameError>)
    ensures
        payload@.len() > MAX_FRAME_LEN ==> r == Err::<Vec<u8>, FrameError>(
            FrameError::FrameTooLarge { len: payload@.len() as usize },
        ),
        payload@.len() <= MAX_FRAME_LEN ==> (r matches Ok(out) && out@ == spec_framed(payload@)),
{
    let n = payload.len();
    if n > MAX_FRAME_LEN {
        return Err(FrameError::FrameTooLarge { len: n });
    }
    let len = n as u32;
    let mut out: Vec<u8> = Vec::with_capacity(4 + n);
    out.push((len / 16777216 % 256) as u8);
    out.push((len / 65536 % 256) as u8);
    out.push((len / 256 % 256) as u8);
    out.push((len % 256) as u8);
    out.extend_from_slice(payload);
    assert(out@ =~= spec_framed(payload@));
    Ok(out)
}

/// What a decoding step yields.
#[derive(Clone, Debug, PartialEq, Eq)]
pub enum FrameChunk {
    /// A frame that the decoder produced itself (the zero-length error frame).
    Frame(KaigiFrame),
    /// The payload bytes of one complete frame, still to be decoded.
    Payload(Vec<u8>),
}

/// What one decoding step does to buffer `before`, leaving `after` and
/// returning `r`.
pub open spec fn spec_next_chunk_ok(
    before: Seq<u8>,
    after: Seq<u8>,
    r: Result<Option<FrameChunk>, FrameError>,
) -> bool {
    if before.len() < 4 {
        r == Ok::<Option<FrameChunk>, FrameError>(None) && after == before
    } else if spec_declared_len(before) == 0 {
        &&& r matches Ok(Some(FrameChunk::Frame(f)))
        &&& spec_is_zero_length_frame(f)
        &&& after == before.skip(4)
    } else if spec_declared_len(before) > MAX_FRAME_LEN {
        &&& r == Err::<Option<FrameChunk>, FrameError>(
            FrameError::DeclaredLengthTooLarge { declared: spec_declared_len(before) as u32 },
        )
        &&& after == before
    } else if before.len() < 4 + spec_declared_len(before) {
        r == Ok::<Option<FrameChunk>, FrameError>(None) && after == before
    } else {
        &&& r matches Ok(Some(FrameChunk::Payload(p)))
        &&& p@ == before.subrange(4, 4 + spec_declared_len(before) as int)
        &&& after == before.skip(4 + spec_declared_len(before) as int)
    }
}

/// Streaming decoder for framed Kaigi messages.
#[derive(Debug, Default)]
pub struct FrameDecoder {
    buf: Vec<u8>,
}

impl View for FrameDecoder {
    type V = Seq<u8>;

    /// The bytes received and not yet consumed.
    closed spec fn view(&self) -> Seq<u8> {
        self.buf@
    }
}

impl FrameDecoder {
    /// A decoder with an empty buffer.
    pub fn new() -> (r: Self)
        ensures
            r@ == Seq::<u8>::empty(),
    {
        Self { buf: Vec::new() }
    }

    /// Appends received bytes.
    pub fn push(&mut self, data: &[u8])
        ensures
            final(self)@ == old(self)@ + data@,
    {
        self.buf.extend_from_slice(data);
    }

    /// The number of buffered bytes.
    pub fn buffer_len(&self) -> (r: usize)
        ensures
            r == self@.len(),
    {
        self.buf.len()
    }

    /// Takes the next complete frame from the buffer.
    ///
    /// Waits (returns `Ok(None)`, buffer untouched) while fewer than four
    /// bytes, or fewer than the declared length, are buffered. A declared
    /// length of zero consumes the header and yields the zero-length error
    /// frame. A declared length over `MAX_FRAME_LEN` is an error and leaves
    /// the buffer as it is. Otherwise the header and payload are consumed and
    /// the payload is returned.
    pub fn try_next_chunk(&mut self) -> (r: Result<Option<FrameChunk>, FrameError>)
        ensures
            spec_next_chunk_ok(old(self)@, final(self)@, r),
    {
        if self.buf.len() < 4 {
            return Ok(None);
        }
        let len: u32 = (self.buf[0] as u32) * 16777216 + (self.buf[1] as u32) * 65536
            + (self.buf[2] as u32) * 256 + (self.buf[3] as u32);
        if len == 0 {
            let ghost before = self.buf@;
            let rest = self.buf.split_off(4);
            self.buf = rest;
            assert(self.buf@ =~= before.skip(4));
            return Ok(Some(FrameChunk::Frame(zero_length_frame())));
        }
        if len as usize > MAX_FRAME_LEN {
            return Err(FrameError::DeclaredLengthTooLarge { declared: len });
        }
        let total = 4 + len as usize;
        if self.buf.len() < total {
            return Ok(None);
        }
        let ghost before = self.buf@;
        let rest = self.buf.split_off(total);
        let mut head = rest;
        std::mem::swap(&mut self.buf, &mut head);
        let payload = head.split_off(4);
        assert(self.buf@ =~= before.skip(total as int));
        assert(payload@ =~= before.subrange(4, total as int));
        Ok(Some(FrameChunk::Payload(payload)))
    }
}

/// The error frame for a zero-length frame.
pub fn zero_length_frame() -> (f: KaigiFrame)
    ensures
        spec_is_zero_length_frame(f),
{
    KaigiFrame::Error(ErrorFrame { message: crate::text::owned("zero-length frame") })
}

/// A payload within the limits, framed and followed by anything, declares
/// its own length, and the bytes after the header are the payload, then
/// the rest: unframing gives back what framing took.
pub proof fn lemma_frame_roundtrip(payload: Seq<u8>, rest: Seq<u8>)
    requires
        payload.len() <= MAX_FRAME_LEN,
    ensures
        (spec_framed(payload) + rest).len() >= 4,
        spec_declared_len(spec_framed(payload) + rest) == payload.len(),
        (spec_framed(payload) + rest).subrange(4, 4 + payload.len() as int) == payload,
        (spec_framed(payload) + rest).skip(4 + payload.len() as int) == rest,
{
    let n = payload.len();
    let b = spec_framed(payload) + rest;
    assert(b[0] == (n / 16777216 % 256) as u8);
    assert(b[1] == (n / 65536 % 256) as u8);
    assert(b[2] == (n / 256 % 256) as u8);
    assert(b[3] == (n % 256) as u8);
    assert((n / 16777216 % 256) * 16777216 + (n / 65536 % 256) * 65536 + (n / 256 % 256) * 256 + (n
        % 256) == n) by (nonlinear_arith)
        requires
            n <= 262144,
    ;
    assert(b.subrange(4, 4 + n as int) =~= payload);
    assert(b.skip(4 + n as int) =~= rest);
}

/// A strict prefix of a framed payload is never a complete frame: the
/// decoder waits for more bytes.
pub proof fn lemma_partial_frame_waits(payload: Seq<u8>, k: int)
    requires
        0 < payload.len() <= MAX_FRAME_LEN,
        0 <= k < spec_framed(payload).len(),
    ensures
        spec_framed(payload).take(k).len() < 4 || (spec_declared_len(spec_framed(payload).take(k))
            == payload.len() && spec_framed(payload).take(k).len() < 4 + payload.len()),
{
    if k >= 4 {
        lemma_frame_roundtrip(payload, Seq::empty());
        assert(spec_framed(payload) + Seq::<u8>::empty() =~= spec_framed(payload));
        let t = spec_framed(payload).take(k);
        assert(t[0] == spec_framed(payload)[0]);
        assert(t[1] == spec_framed(payload)[1]);
        assert(t[2] == spec_framed(payload)[2]);
        assert(t[3] == spec_framed(payload)[3]);
    }
}

} // verus!
