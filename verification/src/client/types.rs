//! The client's view of a meeting session: connection phase, participants,
//! policy, media profile, E2EE and payment state, fallback and errors.
use vstd::prelude::*;
use crate::hub::table::TextTable;

verus! {

broadcast use vstd::string::group_string_axioms;

/// Where the client's connection stands.
#[derive(Debug, Clone, Copy, PartialEq, Eq, Structural)]
pub enum ConnectionPhase {
    Disconnected,
    Connecting,
    Connected,
    Degraded,
    FallbackActive,
    Error,
}

/// The kind of failure a session error reports.
#[derive(Debug, Clone, Copy, PartialEq, Eq, Structural)]
pub enum SessionErrorCategory {
    ProtocolFailure,
    PolicyFailure,
    TransportFailure,
}

/// The last error of a session.
#[derive(Debug, Clone, PartialEq, Eq)]
pub struct SessionError {
    pub category: SessionErrorCategory,
    pub code: String,
    pub message: String,
    pub at_ms: i64,
}

/// A participant's role as the client knows it.
#[derive(Debug, Clone, Copy, PartialEq, Eq, Structural)]
pub enum ParticipantRole {
    Host,
    CoHost,
    Participant,
    Guest,
}

/// A participant as the client knows it.
#[derive(Debug, Clone, PartialEq, Eq)]
pub struct Participant {
    pub id: String,
    pub display_name: String,
    pub role: ParticipantRole,
    pub muted: bool,
    pub video_enabled: bool,
    pub share_enabled: bool,
    pub waiting_room: bool,
}

/// A participant's new role.
#[derive(Debug, Clone, PartialEq, Eq)]
pub struct RoleChange {
    pub participant_id: String,
    pub role: ParticipantRole,
}

/// What a participant entry says, with its texts as characters.
pub struct ParticipantView {
    pub id: Seq<char>,
    pub display_name: Seq<char>,
    pub role: ParticipantRole,
    pub muted: bool,
    pub video_enabled: bool,
    pub share_enabled: bool,
    pub waiting_room: bool,
}

impl View for Participant {
    type V = ParticipantView;

    open spec fn view(&self) -> ParticipantView {
        ParticipantView {
            id: self.id@,
            display_name: self.display_name@,
            role: self.role,
            muted: self.muted,
            video_enabled: self.video_enabled,
            share_enabled: self.share_enabled,
            waiting_room: self.waiting_room,
        }
    }
}

/// What a list of participants says.
pub open spec fn participant_views(s: Seq<Participant>) -> Seq<ParticipantView> {
    s.map_values(|p: Participant| p@)
}

/// What a role change says, with its participant id as characters.
pub struct RoleChangeView {
    pub participant_id: Seq<char>,
    pub role: ParticipantRole,
}

impl View for RoleChange {
    type V = RoleChangeView;

    open spec fn view(&self) -> RoleChangeView {
        RoleChangeView { participant_id: self.participant_id@, role: self.role }
    }
}

/// What a list of role changes says.
pub open spec fn role_change_views(s: Seq<RoleChange>) -> Seq<RoleChangeView> {
    s.map_values(|c: RoleChange| c@)
}

/// A moderation action as the client receives it.
#[derive(Debug, Clone, Copy, PartialEq, Eq, Structural)]
pub enum ModerationAction {
    Mute,
    VideoOff,
    StopShare,
    Kick,
    AdmitFromWaiting,
    DenyFromWaiting,
}

/// The dynamic range of the media profile.
#[derive(Debug, Clone, Copy, PartialEq, Eq, Structural)]
pub enum MediaProfile {
    Sdr,
    Hdr,
}

/// The media profile the session uses.
#[derive(Debug, Clone, PartialEq, Eq)]
pub struct MediaProfileState {
    pub preferred_profile: MediaProfile,
    pub negotiated_profile: MediaProfile,
    pub color_primaries: String,
    pub transfer_function: String,
    pub codec: String,
}

impl Default for MediaProfileState {
    /// SDR both ways, BT.709 primaries, gamma transfer, H.264.
    fn default() -> (r: Self)
        ensures
            r.preferred_profile == MediaProfile::Sdr,
            r.negotiated_profile == MediaProfile::Sdr,
            r.color_primaries@ == "bt709"@,
            r.transfer_function@ == "gamma"@,
            r.codec@ == "h264"@,
    {
        MediaProfileState {
            preferred_profile: MediaProfile::Sdr,
            negotiated_profile: MediaProfile::Sdr,
            color_primaries: "bt709".to_owned(),
            transfer_function: "gamma".to_owned(),
            codec: "h264".to_owned(),
        }
    }
}

/// Whether a recording is running.
#[derive(Debug, Clone, Copy, PartialEq, Eq, Structural)]
pub enum RecordingState {
    Stopped,
    Started,
}

/// Who may join as a guest.
#[derive(Debug, Clone, Copy, PartialEq, Eq, Structural)]
pub enum GuestPolicy {
    Open,
    InviteOnly,
    Blocked,
}

/// A participant's permissions at an epoch.
#[derive(Debug, Clone, PartialEq, Eq)]
pub struct PermissionSnapshot {
    pub effective_permissions: Vec<String>,
    pub epoch: i32,
}

/// Where payment settlement stands.
#[derive(Debug, Clone, Copy, PartialEq, Eq, Structural)]
pub enum PaymentSettlementStatus {
    NotRequired,
    Pending,
    Settled,
    Blocked,
}

/// The session's payment requirement.
#[derive(Debug, Clone, PartialEq, Eq)]
pub struct PaymentState {
    pub required: bool,
    pub destination: Option<String>,
    pub settlement_status: PaymentSettlementStatus,
}

impl Default for PaymentState {
    /// Not required, no destination.
    fn default() -> (r: Self)
        ensures
            !r.required,
            r.destination is None,
            r.settlement_status == PaymentSettlementStatus::NotRequired,
    {
        PaymentState {
            required: false,
            destination: None,
            settlement_status: PaymentSettlementStatus::NotRequired,
        }
    }
}

/// The E2EE key epochs seen and acknowledged.
#[derive(Debug, Clone, Copy, PartialEq, Eq, Structural)]
pub struct E2eeState {
    pub current_epoch: i32,
    pub last_ack_epoch: i32,
}

impl Default for E2eeState {
    /// No epoch yet.
    fn default() -> (r: Self)
        ensures
            r.current_epoch == 0,
            r.last_ack_epoch == 0,
    {
        E2eeState { current_epoch: 0, last_ack_epoch: 0 }
    }
}

/// Whether the web fallback is active, why, and its timings.
#[derive(Debug, Clone, PartialEq, Eq)]
pub struct FallbackState {
    pub active: bool,
    pub reason: Option<String>,
    pub activated_at_ms: Option<i64>,
    pub recovered_at_ms: Option<i64>,
    pub last_rto_ms: Option<i64>,
}

impl Default for FallbackState {
    /// Inactive, with no history.
    fn default() -> (r: Self)
        ensures
            !r.active,
            r.reason is None,
            r.activated_at_ms is None,
            r.recovered_at_ms is None,
            r.last_rto_ms is None,
    {
        FallbackState {
            active: false,
            reason: None,
            activated_at_ms: None,
            recovered_at_ms: None,
            last_rto_ms: None,
        }
    }
}

/// How the client joins a meeting.
#[derive(Debug, Clone, PartialEq, Eq)]
pub struct MeetingConfig {
    pub signaling_url: String,
    pub fallback_url: String,
    pub room_id: String,
    pub participant_id: String,
    pub participant_name: String,
    pub wallet_identity: Option<String>,
    pub require_signed_moderation: bool,
    pub require_payment_settlement: bool,
    pub prefer_web_fallback_on_policy_failure: bool,
    pub supports_hdr_capture: bool,
    pub supports_hdr_render: bool,
}

impl Default for MeetingConfig {
    /// A local development meeting.
    fn default() -> (r: Self)
        ensures
            r.signaling_url@ == "ws://127.0.0.1:9000"@,
            r.fallback_url@ == "https://example.com/fallback"@,
            r.room_id@ == "ga-room"@,
            r.participant_id@ == "linux-guest-1"@,
            r.participant_name@ == "Linux Guest"@,
            r.wallet_identity is None,
            r.require_signed_moderation,
            !r.require_payment_settlement,
            r.prefer_web_fallback_on_policy_failure,
            r.supports_hdr_capture,
            r.supports_hdr_render,
    {
        MeetingConfig {
            signaling_url: "ws://127.0.0.1:9000".to_owned(),
            fallback_url: "https://example.com/fallback".to_owned(),
            room_id: "ga-room".to_owned(),
            participant_id: "linux-guest-1".to_owned(),
            participant_name: "Linux Guest".to_owned(),
            wallet_identity: None,
            require_signed_moderation: true,
            require_payment_settlement: false,
            prefer_web_fallback_on_policy_failure: true,
            supports_hdr_capture: true,
            supports_hdr_render: true,
        }
    }
}

/// Everything the client tracks about a session.
#[derive(Debug, Clone)]
pub struct ProtocolSessionState {
    pub config: MeetingConfig,
    pub connection_phase: ConnectionPhase,
    pub handshake_complete: bool,
    pub resume_token: Option<String>,
    pub participants: TextTable<Participant>,
    pub permission_snapshots: TextTable<PermissionSnapshot>,
    pub presence_sequence: i64,
    pub room_locked: bool,
    pub waiting_room_enabled: bool,
    pub guest_policy: GuestPolicy,
    pub e2ee_required: bool,
    pub max_participants: i32,
    pub policy_epoch: i32,
    pub media_profile: MediaProfileState,
    pub recording_notice: RecordingState,
    pub e2ee_state: E2eeState,
    pub payment_state: PaymentState,
    pub fallback: FallbackState,
    pub last_error: Option<SessionError>,
}

/// `s` is the state a session starts in under `config`: disconnected, with
/// nobody known, an open unlocked room that requires E2EE, a cap of three
/// hundred participants, and default media, E2EE, payment and fallback state.
pub open spec fn spec_initial_state(s: ProtocolSessionState, config: MeetingConfig) -> bool {
    &&& s.config == config
    &&& s.connection_phase == ConnectionPhase::Disconnected
    &&& !s.handshake_complete
    &&& s.resume_token is None
    &&& s.participants@ == Map::<Seq<char>, Participant>::empty()
    &&& s.permission_snapshots@ == Map::<Seq<char>, PermissionSnapshot>::empty()
    &&& s.presence_sequence == 0
    &&& !s.room_locked && !s.waiting_room_enabled
    &&& s.guest_policy == GuestPolicy::Open
    &&& s.e2ee_required
    &&& s.max_participants == 300
    &&& s.policy_epoch == 0
    &&& s.media_profile.preferred_profile == MediaProfile::Sdr
    &&& s.media_profile.negotiated_profile == MediaProfile::Sdr
    &&& s.media_profile.color_primaries@ == "bt709"@
    &&& s.media_profile.transfer_function@ == "gamma"@
    &&& s.media_profile.codec@ == "h264"@
    &&& s.recording_notice == RecordingState::Stopped
    &&& s.e2ee_state == (E2eeState { current_epoch: 0, last_ack_epoch: 0 })
    &&& !s.payment_state.required && s.payment_state.destination is None
            && s.payment_state.settlement_status == PaymentSettlementStatus::NotRequired
    &&& !s.fallback.active && s.fallback.reason is None && s.fallback.activated_at_ms is None
            && s.fallback.recovered_at_ms is None && s.fallback.last_rto_ms is None
    &&& s.last_error is None
}

impl ProtocolSessionState {
    /// A disconnected session with nobody known, an open unlocked room
    /// that requires E2EE, a cap of three hundred participants, and default
    /// media, E2EE, payment and fallback state.
    pub fn initial(config: MeetingConfig) -> (s: Self)
        ensures
            spec_initial_state(s, config),
    {
        ProtocolSessionState {
            config,
            connection_phase: ConnectionPhase::Disconnected,
            handshake_complete: false,
            resume_token: None,
            participants: TextTable::new(),
            permission_snapshots: TextTable::new(),
            presence_sequence: 0,
            room_locked: false,
            waiting_room_enabled: false,
            guest_policy: GuestPolicy::Open,
            e2ee_required: true,
            max_participants: 300,
            policy_epoch: 0,
            media_profile: MediaProfileState::default(),
            recording_notice: RecordingState::Stopped,
            e2ee_state: E2eeState::default(),
            payment_state: PaymentState::default(),
            fallback: FallbackState::default(),
            last_error: None,
        }
    }
}

} // verus!
