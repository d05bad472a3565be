//! The frames of the client protocol, the events the session reacts to,
//! and what the runtime asks its host to do.
use vstd::prelude::*;
use crate::client::types::{
    GuestPolicy, MediaProfile, MeetingConfig, ModerationAction, Participant, ParticipantRole,
    PaymentSettlementStatus, RecordingState, RoleChange, SessionErrorCategory, ParticipantView,
    RoleChangeView,
};
use crate::text::opt_text;
use crate::client::decode::text_views;
use crate::client::types::{participant_views, role_change_views};

verus! {

/// A frame of the client protocol.
#[derive(Debug, Clone, PartialEq, Eq)]
pub enum ProtocolFrame {
    Handshake {
        room_id: String,
        participant_id: String,
        participant_name: String,
        wallet_identity: Option<String>,
        resume_token: Option<String>,
        preferred_profile: MediaProfile,
        hdr_capture: bool,
        hdr_render: bool,
        sent_at_ms: i64,
    },
    HandshakeAck { session_id: String, resume_token: String, accepted_at_ms: i64 },
    ParticipantPresenceDelta {
        joined: Vec<Participant>,
        left: Vec<String>,
        role_changes: Vec<RoleChange>,
        sequence: i64,
    },
    RoleGrant {
        target_participant_id: String,
        role: ParticipantRole,
        granted_by: String,
        signature: Option<String>,
        issued_at_ms: i64,
    },
    RoleRevoke {
        target_participant_id: String,
        role: ParticipantRole,
        revoked_by: String,
        signature: Option<String>,
        issued_at_ms: i64,
    },
    PermissionsSnapshot { participant_id: String, effective_permissions: Vec<String>, epoch: i32 },
    ModerationSigned {
        target_participant_id: String,
        action: ModerationAction,
        issued_by: String,
        signature: Option<String>,
        sent_at_ms: i64,
    },
    SessionPolicy {
        room_lock: bool,
        waiting_room_enabled: bool,
        recording_policy: RecordingState,
        guest_policy: GuestPolicy,
        e2ee_required: bool,
        max_participants: i32,
        policy_epoch: i32,
        updated_by: String,
        signature: Option<String>,
        updated_at_ms: i64,
    },
    DeviceCapability {
        participant_id: String,
        codecs: Vec<String>,
        hdr_capture: bool,
        hdr_render: bool,
        max_streams: i32,
        updated_at_ms: i64,
    },
    MediaProfileNegotiation {
        preferred_profile: MediaProfile,
        negotiated_profile: MediaProfile,
        color_primaries: String,
        transfer_function: String,
        codec: String,
    },
    RecordingNotice { state: RecordingState, issued_at_ms: i64 },
    E2eeKeyEpoch { epoch: i32, issued_by: String, signature: Option<String>, sent_at_ms: i64 },
    KeyRotationAck { ack_epoch: i32, participant_id: String, sent_at_ms: i64 },
    PaymentPolicy { required: bool, destination_account: Option<String> },
    PaymentSettlement { status: PaymentSettlementStatus },
    Error { category: SessionErrorCategory, code: String, message: String },
    Ping { sent_at_ms: i64 },
    Pong { sent_at_ms: i64 },
}

/// What a frame says, with its texts as characters.
#[verifier::ext_equal]
pub enum ProtocolFrameView {
    Handshake { room_id: Seq<char>, participant_id: Seq<char>, participant_name: Seq<char>, wallet_identity: Option<Seq<char>>, resume_token: Option<Seq<char>>, preferred_profile: MediaProfile, hdr_capture: bool, hdr_render: bool, sent_at_ms: i64 },
    HandshakeAck { session_id: Seq<char>, resume_token: Seq<char>, accepted_at_ms: i64 },
    ParticipantPresenceDelta { joined: Seq<ParticipantView>, left: Seq<Seq<char>>, role_changes: Seq<RoleChangeView>, sequence: i64 },
    RoleGrant { target_participant_id: Seq<char>, role: ParticipantRole, granted_by: Seq<char>, signature: Option<Seq<char>>, issued_at_ms: i64 },
    RoleRevoke { target_participant_id: Seq<char>, role: ParticipantRole, revoked_by: Seq<char>, signature: Option<Seq<char>>, issued_at_ms: i64 },
    PermissionsSnapshot { participant_id: Seq<char>, effective_permissions: Seq<Seq<char>>, epoch: i32 },
    ModerationSigned { target_participant_id: Seq<char>, action: ModerationAction, issued_by: Seq<char>, signature: Option<Seq<char>>, sent_at_ms: i64 },
    SessionPolicy { room_lock: bool, waiting_room_enabled: bool, recording_policy: RecordingState, guest_policy: GuestPolicy, e2ee_required: bool, max_participants: i32, policy_epoch: i32, updated_by: Seq<char>, signature: Option<Seq<char>>, updated_at_ms: i64 },
    DeviceCapability { participant_id: Seq<char>, codecs: Seq<Seq<char>>, hdr_capture: bool, hdr_render: bool, max_streams: i32, updated_at_ms: i64 },
    MediaProfileNegotiation { preferred_profile: MediaProfile, negotiated_profile: MediaProfile, color_primaries: Seq<char>, transfer_function: Seq<char>, codec: Seq<char> },
    RecordingNotice { state: RecordingState, issued_at_ms: i64 },
    E2eeKeyEpoch { epoch: i32, issued_by: Seq<char>, signature: Option<Seq<char>>, sent_at_ms: i64 },
    KeyRotationAck { ack_epoch: i32, participant_id: Seq<char>, sent_at_ms: i64 },
    PaymentPolicy { required: bool, destination_account: Option<Seq<char>> },
    PaymentSettlement { status: PaymentSettlementStatus },
    Error { category: SessionErrorCategory, code: Seq<char>, message: Seq<char> },
    Ping { sent_at_ms: i64 },
    Pong { sent_at_ms: i64 },
}

impl View for ProtocolFrame {
    type V = ProtocolFrameView;

    open spec fn view(&self) -> ProtocolFrameView {
        match self {
            ProtocolFrame::Handshake { room_id, participant_id, participant_name, wallet_identity, resume_token, preferred_profile, hdr_capture, hdr_render, sent_at_ms } => ProtocolFrameView::Handshake { room_id: room_id@, participant_id: participant_id@, participant_name: participant_name@, wallet_identity: opt_text(*wallet_identity), resume_token: opt_text(*resume_token), preferred_profile: *preferred_profile, hdr_capture: *hdr_capture, hdr_render: *hdr_render, sent_at_ms: *sent_at_ms },
            ProtocolFrame::HandshakeAck { session_id, resume_token, accepted_at_ms } => ProtocolFrameView::HandshakeAck { session_id: session_id@, resume_token: resume_token@, accepted_at_ms: *accepted_at_ms },
            ProtocolFrame::ParticipantPresenceDelta { joined, left, role_changes, sequence } => ProtocolFrameView::ParticipantPresenceDelta { joined: participant_views(joined@), left: text_views(left@), role_changes: role_change_views(role_changes@), sequence: *sequence },
            ProtocolFrame::RoleGrant { target_participant_id, role, granted_by, signature, issued_at_ms } => ProtocolFrameView::RoleGrant { target_participant_id: target_participant_id@, role: *role, granted_by: granted_by@, signature: opt_text(*signature), issued_at_ms: *issued_at_ms },
            ProtocolFrame::RoleRevoke { target_participant_id, role, revoked_by, signature, issued_at_ms } => ProtocolFrameView::RoleRevoke { target_participant_id: target_participant_id@, role: *role, revoked_by: revoked_by@, signature: opt_text(*signature), issued_at_ms: *issued_at_ms },
            ProtocolFrame::PermissionsSnapshot { participant_id, effective_permissions, epoch } => ProtocolFrameView::PermissionsSnapshot { participant_id: participant_id@, effective_permissions: text_views(effective_permissions@), epoch: *epoch },
            ProtocolFrame::ModerationSigned { target_participant_id, action, issued_by, signature, sent_at_ms } => ProtocolFrameView::ModerationSigned { target_participant_id: target_participant_id@, action: *action, issued_by: issued_by@, signature: opt_text(*signature), sent_at_ms: *sent_at_ms },
            ProtocolFrame::SessionPolicy { room_lock, waiting_room_enabled, recording_policy, guest_policy, e2ee_required, max_participants, policy_epoch, updated_by, signature, updated_at_ms } => ProtocolFrameView::SessionPolicy { room_lock: *room_lock, waiting_room_enabled: *waiting_room_enabled, recording_policy: *recording_policy, guest_policy: *guest_policy, e2ee_required: *e2ee_required, max_participants: *max_participants, policy_epoch: *policy_epoch, updated_by: updated_by@, signature: opt_text(*signature), updated_at_ms: *updated_at_ms },
            ProtocolFrame::DeviceCapability { participant_id, codecs, hdr_capture, hdr_render, max_streams, updated_at_ms } => ProtocolFrameView::DeviceCapability { participant_id: participant_id@, codecs: text_views(codecs@), hdr_capture: *hdr_capture, hdr_render: *hdr_render, max_streams: *max_streams, updated_at_ms: *updated_at_ms },
            ProtocolFrame::MediaProfileNegotiation { preferred_profile, negotiated_profile, color_primaries, transfer_function, codec } => ProtocolFrameView::MediaProfileNegotiation { preferred_profile: *preferred_profile, negotiated_profile: *negotiated_profile, color_primaries: color_primaries@, transfer_function: transfer_function@, codec: codec@ },
            ProtocolFrame::RecordingNotice { state, issued_at_ms } => ProtocolFrameView::RecordingNotice { state: *state, issued_at_ms: *issued_at_ms },
            ProtocolFrame::E2eeKeyEpoch { epoch, issued_by, signature, sent_at_ms } => ProtocolFrameView::E2eeKeyEpoch { epoch: *epoch, issued_by: issued_by@, signature: opt_text(*signature), sent_at_ms: *sent_at_ms },
            ProtocolFrame::KeyRotationAck { ack_epoch, participant_id, sent_at_ms } => ProtocolFrameView::KeyRotationAck { ack_epoch: *ack_epoch, participant_id: participant_id@, sent_at_ms: *sent_at_ms },
            ProtocolFrame::PaymentPolicy { required, destination_account } => ProtocolFrameView::PaymentPolicy { required: *required, destination_account: opt_text(*destination_account) },
            ProtocolFrame::PaymentSettlement { status } => ProtocolFrameView::PaymentSettlement { status: *status },
            ProtocolFrame::Error { category, code, message } => ProtocolFrameView::Error { category: *category, code: code@, message: message@ },
            ProtocolFrame::Ping { sent_at_ms } => ProtocolFrameView::Ping { sent_at_ms: *sent_at_ms },
            ProtocolFrame::Pong { sent_at_ms } => ProtocolFrameView::Pong { sent_at_ms: *sent_at_ms },
        }
    }
}

/// What happens to a session.
#[derive(Debug, Clone, PartialEq, Eq)]
pub enum ProtocolEvent {
    ConnectRequested,
    TransportConnected,
    TransportDisconnected { reason: String },
    TransportFailure { message: String },
    FrameReceived { frame: ProtocolFrame },
    FrameSendFailed { message: String },
    ManualDisconnected,
    FallbackActivated { reason: String },
    FallbackRecovered,
    ConfigUpdated { config: MeetingConfig },
}

/// Why a frame could not be read.
#[derive(Debug, Clone, PartialEq, Eq)]
pub enum CodecError {
    InvalidJson(String),
    InvalidShape(String),
}

/// The message of a codec error, as the error displays.
pub open spec fn spec_codec_error_message(e: CodecError) -> Seq<char> {
    match e {
        CodecError::InvalidJson(m) => "invalid frame json: "@ + m@,
        CodecError::InvalidShape(m) => "invalid frame shape: "@ + m@,
    }
}

impl CodecError {
    /// The error's message.
    pub fn message(&self) -> (r: String)
        ensures
            r@ == spec_codec_error_message(*self),
    {
        match self {
            CodecError::InvalidJson(m) => {
                let mut r = "invalid frame json: ".to_owned();
                r.append(m.as_str());
                r
            },
            CodecError::InvalidShape(m) => {
                let mut r = "invalid frame shape: ".to_owned();
                r.append(m.as_str());
                r
            },
        }
    }
}

/// What the runtime asks its host to do after a transport problem.
#[derive(Debug, Clone, PartialEq, Eq)]
pub enum RuntimeDirective {
    NoAction,
    ReconnectScheduled { attempt: usize, due_at_ms: i64 },
    FallbackActivated { reason: String },
}

} // verus!
