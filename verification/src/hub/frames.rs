//! The control frames that the hub exchanges beyond the base protocol:
//! roles and policy, permissions, presence deltas, signed moderation,
//! device and media capabilities, recording notices and E2EE key epochs.
use vstd::prelude::*;
use crate::wire::{ModerationTarget, ParticipantLeftFrame, ParticipantSnapshot};

verus! {

/// A participant's role in a transparent room.
#[derive(Clone, Copy, Debug, PartialEq, Eq, Structural)]
pub enum RoleKind {
    Host,
    CoHost,
    Participant,
}

/// A moderation action, including the waiting-room decisions.
#[derive(Clone, Copy, Debug, PartialEq, Eq, Structural)]
pub enum ModerationAction {
    Kick,
    DisableMic,
    DisableVideo,
    DisableScreenShare,
    AdmitFromWaiting,
    DenyFromWaiting,
}

/// An unsigned moderation request from a host or co-host.
#[derive(Clone, Debug, PartialEq, Eq)]
pub struct ModerationFrame {
    pub sent_at_ms: u64,
    pub target: ModerationTarget,
    pub action: ModerationAction,
}

/// A moderation request signed by its issuer.
#[derive(Clone, Debug, PartialEq, Eq)]
pub struct ModerationSignedFrame {
    pub sent_at_ms: u64,
    pub target: ModerationTarget,
    pub action: ModerationAction,
    pub issued_by: String,
    pub signature_hex: String,
}

/// What a participant's devices can capture and render.
#[derive(Clone, Debug, PartialEq, Eq)]
pub struct DeviceCapabilityFrame {
    pub reported_at_ms: u64,
    pub participant_id: String,
    pub codecs: Vec<String>,
    pub hdr_capture: bool,
    pub hdr_render: bool,
    pub max_video_streams: u8,
}

/// The dynamic range of a media profile.
#[derive(Clone, Copy, Debug, PartialEq, Eq, Structural)]
pub enum MediaProfileKind {
    Sdr,
    Hdr,
}

/// A participant's request for a media profile and the profile agreed on.
#[derive(Clone, Debug, PartialEq, Eq)]
pub struct MediaProfileNegotiationFrame {
    pub at_ms: u64,
    pub participant_id: String,
    pub requested_profile: MediaProfileKind,
    pub negotiated_profile: MediaProfileKind,
    pub codec: String,
    pub epoch: u64,
}

/// Whether a recording is running.
#[derive(Clone, Copy, Debug, PartialEq, Eq, Structural)]
pub enum RecordingState {
    Started,
    Stopped,
}

/// A notice that a participant started or stopped recording.
#[derive(Clone, Debug, PartialEq, Eq)]
pub struct RecordingNoticeFrame {
    pub at_ms: u64,
    pub participant_id: String,
    pub state: RecordingState,
    pub local_recording: bool,
    pub policy_basis: Option<String>,
    pub issued_by: String,
}

/// A participant's E2EE key for a new epoch, with its signature.
#[derive(Clone, Debug, PartialEq, Eq)]
pub struct E2EEKeyEpochFrame {
    pub sent_at_ms: u64,
    pub participant_id: String,
    pub epoch: u64,
    pub public_key_hex: String,
    pub signature_hex: String,
}

/// A participant's acknowledgement that it rotated to a key epoch.
#[derive(Clone, Debug, PartialEq, Eq)]
pub struct KeyRotationAckFrame {
    pub received_at_ms: u64,
    pub participant_id: String,
    pub ack_epoch: u64,
}

/// A signed grant of a role by the host.
#[derive(Clone, Debug, PartialEq, Eq)]
pub struct RoleGrantFrame {
    pub issued_at_ms: u64,
    pub target_participant_id: String,
    pub role: RoleKind,
    pub granted_by: String,
    pub signature_hex: String,
}

/// A signed revocation of a role by the host.
#[derive(Clone, Debug, PartialEq, Eq)]
pub struct RoleRevokeFrame {
    pub issued_at_ms: u64,
    pub target_participant_id: String,
    pub role: RoleKind,
    pub revoked_by: String,
    pub signature_hex: String,
}

/// The room's signed session policy.
#[derive(Clone, Debug, PartialEq, Eq)]
pub struct SessionPolicyFrame {
    pub updated_at_ms: u64,
    pub room_lock: bool,
    pub waiting_room_enabled: bool,
    pub guest_join_allowed: bool,
    pub local_recording_allowed: bool,
    pub e2ee_required: bool,
    pub max_participants: u32,
    pub policy_epoch: u64,
    pub updated_by: String,
    pub signature_hex: String,
}

/// What one participant may do, as the hub sees it.
#[derive(Clone, Debug, PartialEq, Eq)]
pub struct PermissionsSnapshotFrame {
    pub at_ms: u64,
    pub participant_id: String,
    pub host: bool,
    pub co_host: bool,
    pub can_moderate: bool,
    pub can_record_local: bool,
    pub epoch: u64,
}

/// One role change inside a presence delta.
#[derive(Clone, Debug, PartialEq, Eq)]
pub struct RoleChangeEntry {
    pub participant_id: String,
    pub role: RoleKind,
    pub granted: bool,
}

/// Joins, leaves and role changes since the previous delta, numbered by a
/// room-wide sequence.
#[derive(Clone, Debug, PartialEq, Eq)]
pub struct ParticipantPresenceDeltaFrame {
    pub at_ms: u64,
    pub sequence: u64,
    pub joined: Vec<ParticipantSnapshot>,
    pub left: Vec<ParticipantLeftFrame>,
    pub role_changes: Vec<RoleChangeEntry>,
}

/// A group key rotation for the anonymous members of a room.
#[derive(Clone, Debug, PartialEq, Eq)]
pub struct AnonGroupKeyRotateFrame {
    pub sent_at_ms: u64,
    pub epoch: u64,
    pub key_wrap_hex: String,
    pub member_handles: Vec<String>,
}

} // verus!
