//! Reading protocol frames from JSON. A frame is an object whose `kind`
//! names it, in camel or snake case; its fields sit either in the object
//! itself or in a nested object named after the kind, and each field may be
//! spelled in several ways. Missing optional fields take defaults; a frame
//! without one of its required texts is refused.
use vstd::prelude::*;
use crate::client::json::{
    get_array, get_bool, get_i32, get_i64, get_string, get_string_ref, key_names,
    payload_or_root, spec_as_str, spec_get_array, spec_get_bool, spec_get_i32, spec_get_i64,
    spec_get_string, spec_lookup, spec_payload_or_root, spec_texts, texts, JsonValue, lookup,
    value_as_str,
};
use crate::client::protocol::{CodecError, ProtocolFrame};
use crate::client::types::{
    GuestPolicy, MediaProfile, ModerationAction, Participant, ParticipantRole,
    PaymentSettlementStatus, RecordingState, RoleChange, SessionErrorCategory,
};
use crate::text::{concat2, opt_text, same_text};

verus! {

broadcast use vstd::string::group_string_axioms;

/// An optional borrowed text as its characters.
pub open spec fn opt_view(o: Option<&str>) -> Option<Seq<char>> {
    match o {
        Some(s) => Some(s@),
        None => None,
    }
}

/// The value if there is one, the default otherwise.
pub open spec fn spec_or<T>(o: Option<T>, d: T) -> T {
    match o {
        Some(v) => v,
        None => d,
    }
}

/// The camel-case name of a frame kind given in snake case; any other
/// name as it is.
pub open spec fn spec_canonical_kind(raw: Seq<char>) -> Seq<char> {
    if raw == "handshake_ack"@ {
        "handshakeAck"@
    } else if raw == "participant_presence_delta"@ {
        "participantPresenceDelta"@
    } else if raw == "role_grant"@ {
        "roleGrant"@
    } else if raw == "role_revoke"@ {
        "roleRevoke"@
    } else if raw == "permissions_snapshot"@ {
        "permissionsSnapshot"@
    } else if raw == "moderation_signed"@ {
        "moderationSigned"@
    } else if raw == "session_policy"@ {
        "sessionPolicy"@
    } else if raw == "device_capability"@ {
        "deviceCapability"@
    } else if raw == "media_profile_negotiation"@ {
        "mediaProfileNegotiation"@
    } else if raw == "recording_notice"@ {
        "recordingNotice"@
    } else if raw == "e2ee_key_epoch"@ {
        "e2eeKeyEpoch"@
    } else if raw == "key_rotation_ack"@ {
        "keyRotationAck"@
    } else if raw == "payment_policy"@ {
        "paymentPolicy"@
    } else if raw == "payment_settlement"@ {
        "paymentSettlement"@
    } else {
        raw
    }
}

/// Every frame kind is read from its snake-case name as from its
/// camel-case name: each snake-case kind name maps to the camel-case one.
pub proof fn lemma_snake_case_kind_aliases()
    ensures
        spec_canonical_kind("handshake_ack"@) == "handshakeAck"@,
        spec_canonical_kind("participant_presence_delta"@) == "participantPresenceDelta"@,
        spec_canonical_kind("role_grant"@) == "roleGrant"@,
        spec_canonical_kind("role_revoke"@) == "roleRevoke"@,
        spec_canonical_kind("permissions_snapshot"@) == "permissionsSnapshot"@,
        spec_canonical_kind("moderation_signed"@) == "moderationSigned"@,
        spec_canonical_kind("session_policy"@) == "sessionPolicy"@,
        spec_canonical_kind("device_capability"@) == "deviceCapability"@,
        spec_canonical_kind("media_profile_negotiation"@) == "mediaProfileNegotiation"@,
        spec_canonical_kind("recording_notice"@) == "recordingNotice"@,
        spec_canonical_kind("e2ee_key_epoch"@) == "e2eeKeyEpoch"@,
        spec_canonical_kind("key_rotation_ack"@) == "keyRotationAck"@,
        spec_canonical_kind("payment_policy"@) == "paymentPolicy"@,
        spec_canonical_kind("payment_settlement"@) == "paymentSettlement"@,
{
    reveal_strlit("handshake_ack");
    reveal_strlit("participant_presence_delta");
    reveal_strlit("role_grant");
    reveal_strlit("role_revoke");
    reveal_strlit("permissions_snapshot");
    reveal_strlit("moderation_signed");
    reveal_strlit("session_policy");
    reveal_strlit("device_capability");
    reveal_strlit("media_profile_negotiation");
    reveal_strlit("recording_notice");
    reveal_strlit("e2ee_key_epoch");
    reveal_strlit("key_rotation_ack");
    reveal_strlit("payment_policy");
    reveal_strlit("payment_settlement");
    assert("handshake_ack"@.len() == 13 && "handshake_ack"@[0] == 'h' && "participant_presence_delta"@.len() == 26 && "participant_presence_delta"@[0] == 'p' && "role_grant"@.len() == 10 && "role_grant"@[0] == 'r' && "role_revoke"@.len() == 11 && "role_revoke"@[0] == 'r' && "permissions_snapshot"@.len() == 20 && "permissions_snapshot"@[0] == 'p' && "moderation_signed"@.len() == 17 && "moderation_signed"@[0] == 'm' && "session_policy"@.len() == 14 && "session_policy"@[0] == 's' && "device_capability"@.len() == 17 && "device_capability"@[0] == 'd' && "media_profile_negotiation"@.len() == 25 && "media_profile_negotiation"@[0] == 'm' && "recording_notice"@.len() == 16 && "recording_notice"@[0] == 'r' && "e2ee_key_epoch"@.len() == 14 && "e2ee_key_epoch"@[0] == 'e' && "key_rotation_ack"@.len() == 16 && "key_rotation_ack"@[0] == 'k' && "payment_policy"@.len() == 14 && "payment_policy"@[0] == 'p' && "payment_settlement"@.len() == 18 && "payment_settlement"@[0] == 'p');
}

/// The camel-case name of a frame kind.
pub fn canonical_kind(raw: &str) -> (r: &str)
    ensures
        r@ == spec_canonical_kind(raw@),
{
    if same_text(raw, "handshake_ack") {
        "handshakeAck"
    } else if same_text(raw, "participant_presence_delta") {
        "participantPresenceDelta"
    } else if same_text(raw, "role_grant") {
        "roleGrant"
    } else if same_text(raw, "role_revoke") {
        "roleRevoke"
    } else if same_text(raw, "permissions_snapshot") {
        "permissionsSnapshot"
    } else if same_text(raw, "moderation_signed") {
        "moderationSigned"
    } else if same_text(raw, "session_policy") {
        "sessionPolicy"
    } else if same_text(raw, "device_capability") {
        "deviceCapability"
    } else if same_text(raw, "media_profile_negotiation") {
        "mediaProfileNegotiation"
    } else if same_text(raw, "recording_notice") {
        "recordingNotice"
    } else if same_text(raw, "e2ee_key_epoch") {
        "e2eeKeyEpoch"
    } else if same_text(raw, "key_rotation_ack") {
        "keyRotationAck"
    } else if same_text(raw, "payment_policy") {
        "paymentPolicy"
    } else if same_text(raw, "payment_settlement") {
        "paymentSettlement"
    } else {
        raw
    }
}

/// An error category by name; a protocol failure when absent or unknown.
pub open spec fn spec_parse_session_error_category(raw: Option<Seq<char>>) -> SessionErrorCategory {
    let v = spec_or(raw, "protocol_failure"@);
    if v == "policyFailure"@ || v == "policy_failure"@ {
        SessionErrorCategory::PolicyFailure
    } else if v == "transportFailure"@ || v == "transport_failure"@ {
        SessionErrorCategory::TransportFailure
    } else {
        SessionErrorCategory::ProtocolFailure
    }
}

/// An error category by name.
pub fn parse_session_error_category(raw: Option<&str>) -> (r: SessionErrorCategory)
    ensures
        r == spec_parse_session_error_category(opt_view(raw)),
{
    let v = match raw {
        Some(s) => s,
        None => "protocol_failure",
    };
    if same_text(v, "policyFailure") || same_text(v, "policy_failure") {
        SessionErrorCategory::PolicyFailure
    } else if same_text(v, "transportFailure") || same_text(v, "transport_failure") {
        SessionErrorCategory::TransportFailure
    } else {
        SessionErrorCategory::ProtocolFailure
    }
}

/// A role by name; a participant when absent or unknown.
pub open spec fn spec_parse_participant_role(raw: Option<Seq<char>>) -> ParticipantRole {
    let v = spec_or(raw, "participant"@);
    if v == "host"@ {
        ParticipantRole::Host
    } else if v == "coHost"@ || v == "co_host"@ {
        ParticipantRole::CoHost
    } else if v == "guest"@ {
        ParticipantRole::Guest
    } else {
        ParticipantRole::Participant
    }
}

/// A role by name.
pub fn parse_participant_role(raw: Option<&str>) -> (r: ParticipantRole)
    ensures
        r == spec_parse_participant_role(opt_view(raw)),
{
    let v = match raw {
        Some(s) => s,
        None => "participant",
    };
    if same_text(v, "host") {
        ParticipantRole::Host
    } else if same_text(v, "coHost") || same_text(v, "co_host") {
        ParticipantRole::CoHost
    } else if same_text(v, "guest") {
        ParticipantRole::Guest
    } else {
        ParticipantRole::Participant
    }
}

/// A moderation action by name; a mute when absent or unknown.
pub open spec fn spec_parse_moderation_action(raw: Option<Seq<char>>) -> ModerationAction {
    let v = spec_or(raw, "mute"@);
    if v == "videoOff"@ || v == "video_off"@ {
        ModerationAction::VideoOff
    } else if v == "stopShare"@ || v == "stop_share"@ {
        ModerationAction::StopShare
    } else if v == "kick"@ {
        ModerationAction::Kick
    } else if v == "admitFromWaiting"@ || v == "admit_from_waiting"@ {
        ModerationAction::AdmitFromWaiting
    } else if v == "denyFromWaiting"@ || v == "deny_from_waiting"@ {
        ModerationAction::DenyFromWaiting
    } else {
        ModerationAction::Mute
    }
}

/// A moderation action by name.
pub fn parse_moderation_action(raw: Option<&str>) -> (r: ModerationAction)
    ensures
        r == spec_parse_moderation_action(opt_view(raw)),
{
    let v = match raw {
        Some(s) => s,
        None => "mute",
    };
    if same_text(v, "videoOff") || same_text(v, "video_off") {
        ModerationAction::VideoOff
    } else if same_text(v, "stopShare") || same_text(v, "stop_share") {
        ModerationAction::StopShare
    } else if same_text(v, "kick") {
        ModerationAction::Kick
    } else if same_text(v, "admitFromWaiting") || same_text(v, "admit_from_waiting") {
        ModerationAction::AdmitFromWaiting
    } else if same_text(v, "denyFromWaiting") || same_text(v, "deny_from_waiting") {
        ModerationAction::DenyFromWaiting
    } else {
        ModerationAction::Mute
    }
}

/// A media profile by name; SDR when absent or unknown.
pub open spec fn spec_parse_media_profile(raw: Option<Seq<char>>) -> MediaProfile {
    if spec_or(raw, "sdr"@) == "hdr"@ {
        MediaProfile::Hdr
    } else {
        MediaProfile::Sdr
    }
}

/// A media profile by name.
pub fn parse_media_profile(raw: Option<&str>) -> (r: MediaProfile)
    ensures
        r == spec_parse_media_profile(opt_view(raw)),
{
    let v = match raw {
        Some(s) => s,
        None => "sdr",
    };
    if same_text(v, "hdr") {
        MediaProfile::Hdr
    } else {
        MediaProfile::Sdr
    }
}

/// A recording state by name; stopped when absent or unknown.
pub open spec fn spec_parse_recording_state(raw: Option<Seq<char>>) -> RecordingState {
    if spec_or(raw, "stopped"@) == "started"@ {
        RecordingState::Started
    } else {
        RecordingState::Stopped
    }
}

/// A recording state by name.
pub fn parse_recording_state(raw: Option<&str>) -> (r: RecordingState)
    ensures
        r == spec_parse_recording_state(opt_view(raw)),
{
    let v = match raw {
        Some(s) => s,
        None => "stopped",
    };
    if same_text(v, "started") {
        RecordingState::Started
    } else {
        RecordingState::Stopped
    }
}

/// A guest policy by name; open when absent or unknown.
pub open spec fn spec_parse_guest_policy(raw: Option<Seq<char>>) -> GuestPolicy {
    let v = spec_or(raw, "open"@);
    if v == "inviteOnly"@ || v == "invite_only"@ {
        GuestPolicy::InviteOnly
    } else if v == "blocked"@ {
        GuestPolicy::Blocked
    } else {
        GuestPolicy::Open
    }
}

/// A guest policy by name.
pub fn parse_guest_policy(raw: Option<&str>) -> (r: GuestPolicy)
    ensures
        r == spec_parse_guest_policy(opt_view(raw)),
{
    let v = match raw {
        Some(s) => s,
        None => "open",
    };
    if same_text(v, "inviteOnly") || same_text(v, "invite_only") {
        GuestPolicy::InviteOnly
    } else if same_text(v, "blocked") {
        GuestPolicy::Blocked
    } else {
        GuestPolicy::Open
    }
}

/// A settlement status by name; not required when absent or unknown.
pub open spec fn spec_parse_payment_settlement_status(raw: Option<Seq<char>>) -> PaymentSettlementStatus {
    let v = spec_or(raw, "not_required"@);
    if v == "pending"@ {
        PaymentSettlementStatus::Pending
    } else if v == "settled"@ {
        PaymentSettlementStatus::Settled
    } else if v == "blocked"@ {
        PaymentSettlementStatus::Blocked
    } else {
        PaymentSettlementStatus::NotRequired
    }
}

/// A settlement status by name.
pub fn parse_payment_settlement_status(raw: Option<&str>) -> (r: PaymentSettlementStatus)
    ensures
        r == spec_parse_payment_settlement_status(opt_view(raw)),
{
    let v = match raw {
        Some(s) => s,
        None => "not_required",
    };
    if same_text(v, "pending") {
        PaymentSettlementStatus::Pending
    } else if same_text(v, "settled") {
        PaymentSettlementStatus::Settled
    } else if same_text(v, "blocked") {
        PaymentSettlementStatus::Blocked
    } else {
        PaymentSettlementStatus::NotRequired
    }
}

/// The frame is refused for a missing required text.
pub open spec fn spec_missing(r: Result<ProtocolFrame, CodecError>, field: Seq<char>) -> bool {
    r matches Err(CodecError::InvalidShape(m)) && m@ == "missing required field: "@ + field
}

fn missing(field: &str) -> (r: Result<ProtocolFrame, CodecError>)
    ensures
        spec_missing(r, field@),
{
    Err(CodecError::InvalidShape(concat2("missing required field: ", field)))
}

/// A text member, or a default.
fn string_or(obj: &Vec<(String, JsonValue)>, keys: &[&str], default: &str) -> (r: String)
    ensures
        r@ == spec_or(spec_get_string(obj@, key_names(keys@)), default@),
{
    match get_string(obj, keys) {
        Some(s) => s,
        None => default.to_owned(),
    }
}

/// The names under which the participant id of a frame may be given.
pub open spec fn participant_id_keys() -> Seq<Seq<char>> {
    key_names(seq!["participant_id", "participantId", "participantID"])
}

/// A handshake read from its fields.
pub open spec fn spec_handshake(obj: Seq<(String, JsonValue)>, r: Result<ProtocolFrame, CodecError>) -> bool {
    let room = spec_get_string(obj, key_names(seq!["room_id", "roomId", "roomID"]));
    let pid = spec_get_string(obj, participant_id_keys());
    let name = spec_get_string(obj, key_names(seq!["participant_name", "participantName"]));
    if room is None {
        spec_missing(r, "handshake.room_id"@)
    } else if pid is None {
        spec_missing(r, "handshake.participant_id"@)
    } else if name is None {
        spec_missing(r, "handshake.participant_name"@)
    } else {
        r matches Ok(
            ProtocolFrame::Handshake {
                room_id,
                participant_id,
                participant_name,
                wallet_identity,
                resume_token,
                preferred_profile,
                hdr_capture,
                hdr_render,
                sent_at_ms,
            },
        ) && room == Some(room_id@) && pid == Some(participant_id@) && name == Some(
            participant_name@,
        ) && opt_text(wallet_identity) == spec_get_string(
            obj,
            key_names(seq!["wallet_identity", "walletIdentity"]),
        ) && opt_text(resume_token) == spec_get_string(
            obj,
            key_names(seq!["resume_token", "resumeToken"]),
        ) && preferred_profile == spec_parse_media_profile(
            spec_get_string(obj, key_names(seq!["preferred_profile", "preferredProfile"])),
        ) && hdr_capture == spec_or(
            spec_get_bool(obj, key_names(seq!["hdr_capture", "hdrCapture"])),
            false,
        ) && hdr_render == spec_or(
            spec_get_bool(obj, key_names(seq!["hdr_render", "hdrRender"])),
            false,
        ) && sent_at_ms == spec_or(spec_get_i64(obj, key_names(seq!["sent_at_ms", "sentAtMs"])), 0)
    }
}

fn decode_handshake(obj: &Vec<(String, JsonValue)>) -> (r: Result<ProtocolFrame, CodecError>)
    ensures
        spec_handshake(obj@, r),
{
    let room_keys = ["room_id", "roomId", "roomID"];
    let room_id = match get_string(obj, &room_keys) {
        Some(s) => s,
        None => {
            return missing("handshake.room_id");
        },
    };
    let participant_id = match get_string(obj, &["participant_id", "participantId", "participantID"]) {
        Some(s) => s,
        None => {
            return missing("handshake.participant_id");
        },
    };
    let participant_name = match get_string(obj, &["participant_name", "participantName"]) {
        Some(s) => s,
        None => {
            return missing("handshake.participant_name");
        },
    };
    Ok(
        ProtocolFrame::Handshake {
            room_id,
            participant_id,
            participant_name,
            wallet_identity: get_string(obj, &["wallet_identity", "walletIdentity"]),
            resume_token: get_string(obj, &["resume_token", "resumeToken"]),
            preferred_profile: parse_media_profile(
                get_string_ref(obj, &["preferred_profile", "preferredProfile"]),
            ),
            hdr_capture: match get_bool(obj, &["hdr_capture", "hdrCapture"]) {
                Some(b) => b,
                None => false,
            },
            hdr_render: match get_bool(obj, &["hdr_render", "hdrRender"]) {
                Some(b) => b,
                None => false,
            },
            sent_at_ms: match get_i64(obj, &["sent_at_ms", "sentAtMs"]) {
                Some(t) => t,
                None => 0,
            },
        },
    )
}


fn bool_or(o: Option<bool>, d: bool) -> (r: bool)
    ensures
        r == spec_or(o, d),
{
    match o {
        Some(b) => b,
        None => d,
    }
}

fn i64_or(o: Option<i64>, d: i64) -> (r: i64)
    ensures
        r == spec_or(o, d),
{
    match o {
        Some(v) => v,
        None => d,
    }
}

fn i32_or(o: Option<i32>, d: i32) -> (r: i32)
    ensures
        r == spec_or(o, d),
{
    match o {
        Some(v) => v,
        None => d,
    }
}

/// A handshake acknowledgement read from its fields.
pub open spec fn spec_handshake_ack(obj: Seq<(String, JsonValue)>, r: Result<ProtocolFrame, CodecError>) -> bool {
    let session = spec_get_string(obj, key_names(seq!["session_id", "sessionId", "sessionID"]));
    let token = spec_get_string(obj, key_names(seq!["resume_token", "resumeToken"]));
    if session is None {
        spec_missing(r, "handshakeAck.session_id"@)
    } else if token is None {
        spec_missing(r, "handshakeAck.resume_token"@)
    } else {
        r matches Ok(ProtocolFrame::HandshakeAck { session_id, resume_token, accepted_at_ms })
            && session == Some(session_id@) && token == Some(resume_token@) && accepted_at_ms
            == spec_or(spec_get_i64(obj, key_names(seq!["accepted_at_ms", "acceptedAtMs"])), 0)
    }
}

fn decode_handshake_ack(obj: &Vec<(String, JsonValue)>) -> (r: Result<ProtocolFrame, CodecError>)
    ensures
        spec_handshake_ack(obj@, r),
{
    let session_id = match get_string(obj, &["session_id", "sessionId", "sessionID"]) {
        Some(s) => s,
        None => {
            return missing("handshakeAck.session_id");
        },
    };
    let resume_token = match get_string(obj, &["resume_token", "resumeToken"]) {
        Some(s) => s,
        None => {
            return missing("handshakeAck.resume_token");
        },
    };
    Ok(
        ProtocolFrame::HandshakeAck {
            session_id,
            resume_token,
            accepted_at_ms: i64_or(get_i64(obj, &["accepted_at_ms", "acceptedAtMs"]), 0),
        },
    )
}

/// A value reads as a participant: an object with an `id` text.
pub open spec fn spec_is_participant(v: JsonValue) -> bool {
    v matches JsonValue::Object(o) && spec_get_string(o@, key_names(["id"]@)) is Some
}

/// `p` is the participant a value reads as: its id; its display name,
/// the id when absent; its role; muted and in the waiting room only when
/// said so; video and sharing on unless said otherwise.
pub open spec fn spec_participant(v: JsonValue, p: Participant) -> bool {
    v matches JsonValue::Object(o) && {
        let obj = o@;
        let id = spec_get_string(obj, key_names(["id"]@));
        &&& id == Some(p.id@)
        &&& p.display_name@ == spec_or(
            spec_get_string(obj, key_names(seq!["display_name", "displayName"])),
            p.id@,
        )
        &&& p.role == spec_parse_participant_role(spec_get_string(obj, key_names(["role"]@)))
        &&& p.muted == spec_or(spec_get_bool(obj, key_names(["muted"]@)), false)
        &&& p.video_enabled == spec_or(
            spec_get_bool(obj, key_names(seq!["video_enabled", "videoEnabled"])),
            true,
        )
        &&& p.share_enabled == spec_or(
            spec_get_bool(obj, key_names(seq!["share_enabled", "shareEnabled"])),
            true,
        )
        &&& p.waiting_room == spec_or(
            spec_get_bool(obj, key_names(seq!["waiting_room", "waitingRoom"])),
            false,
        )
    }
}

/// Reads a participant from a value.
pub fn parse_participant(value: &JsonValue) -> (r: Option<Participant>)
    ensures
        r is Some <==> spec_is_participant(*value),
        r matches Some(p) ==> spec_participant(*value, p),
{
    let obj = match value {
        JsonValue::Object(o) => o,
        _ => {
            return None;
        },
    };
    let id = match get_string(obj, &["id"]) {
        Some(s) => s,
        None => {
            return None;
        },
    };
    let display_name = match get_string(obj, &["display_name", "displayName"]) {
        Some(s) => s,
        None => id.clone(),
    };
    Some(
        Participant {
            id,
            display_name,
            role: parse_participant_role(get_string_ref(obj, &["role"])),
            muted: bool_or(get_bool(obj, &["muted"]), false),
            video_enabled: bool_or(get_bool(obj, &["video_enabled", "videoEnabled"]), true),
            share_enabled: bool_or(get_bool(obj, &["share_enabled", "shareEnabled"]), true),
            waiting_room: bool_or(get_bool(obj, &["waiting_room", "waitingRoom"]), false),
        },
    )
}

/// The participants among some values, in order.
pub open spec fn spec_participants(items: Seq<JsonValue>, out: Seq<Participant>) -> bool
    decreases items.len(),
{
    if items.len() == 0 {
        out.len() == 0
    } else if spec_is_participant(items.last()) {
        out.len() > 0 && spec_participant(items.last(), out.last()) && spec_participants(
            items.drop_last(),
            out.drop_last(),
        )
    } else {
        spec_participants(items.drop_last(), out)
    }
}

fn participants(items: &[JsonValue]) -> (r: Vec<Participant>)
    ensures
        spec_participants(items@, r@),
{
    let mut out: Vec<Participant> = Vec::new();
    let mut i: usize = 0;
    while i < items.len()
        invariant
            i <= items@.len(),
            spec_participants(items@.take(i as int), out@),
        decreases items@.len() - i,
    {
        let ghost before = out@;
        assert(items@.take(i + 1).drop_last() =~= items@.take(i as int));
        assert(items@.take(i + 1).last() == items@[i as int]);
        match parse_participant(&items[i]) {
            Some(p) => {
                out.push(p);
                assert(out@.drop_last() =~= before);
            },
            None => {},
        }
        i = i + 1;
    }
    assert(items@.take(items@.len() as int) =~= items@);
    out
}

/// A value reads as a role change: an object with a participant id.
pub open spec fn spec_is_role_change(v: JsonValue) -> bool {
    v matches JsonValue::Object(o) && spec_get_string(o@, participant_id_keys()) is Some
}

/// `c` is the role change a value reads as.
pub open spec fn spec_role_change(v: JsonValue, c: RoleChange) -> bool {
    v matches JsonValue::Object(o) && spec_get_string(o@, participant_id_keys()) == Some(
        c.participant_id@,
    ) && c.role == spec_parse_participant_role(spec_get_string(o@, key_names(["role"]@)))
}

/// Reads a role change from a value.
pub fn parse_role_change(value: &JsonValue) -> (r: Option<RoleChange>)
    ensures
        r is Some <==> spec_is_role_change(*value),
        r matches Some(c) ==> spec_role_change(*value, c),
{
    let obj = match value {
        JsonValue::Object(o) => o,
        _ => {
            return None;
        },
    };
    let participant_id = match get_string(obj, &["participant_id", "participantId", "participantID"]) {
        Some(s) => s,
        None => {
            return None;
        },
    };
    Some(RoleChange { participant_id, role: parse_participant_role(get_string_ref(obj, &["role"])) })
}

/// The role changes among some values, in order.
pub open spec fn spec_role_changes(items: Seq<JsonValue>, out: Seq<RoleChange>) -> bool
    decreases items.len(),
{
    if items.len() == 0 {
        out.len() == 0
    } else if spec_is_role_change(items.last()) {
        out.len() > 0 && spec_role_change(items.last(), out.last()) && spec_role_changes(
            items.drop_last(),
            out.drop_last(),
        )
    } else {
        spec_role_changes(items.drop_last(), out)
    }
}

fn role_changes(items: &[JsonValue]) -> (r: Vec<RoleChange>)
    ensures
        spec_role_changes(items@, r@),
{
    let mut out: Vec<RoleChange> = Vec::new();
    let mut i: usize = 0;
    while i < items.len()
        invariant
            i <= items@.len(),
            spec_role_changes(items@.take(i as int), out@),
        decreases items@.len() - i,
    {
        let ghost before = out@;
        assert(items@.take(i + 1).drop_last() =~= items@.take(i as int));
        assert(items@.take(i + 1).last() == items@[i as int]);
        match parse_role_change(&items[i]) {
            Some(c) => {
                out.push(c);
                assert(out@.drop_last() =~= before);
            },
            None => {},
        }
        i = i + 1;
    }
    assert(items@.take(items@.len() as int) =~= items@);
    out
}

/// The texts of a list of strings.
pub open spec fn text_views(v: Seq<String>) -> Seq<Seq<char>> {
    v.map_values(|s: String| s@)
}

/// A presence change read from its fields.
pub open spec fn spec_presence_delta(obj: Seq<(String, JsonValue)>, r: Result<ProtocolFrame, CodecError>) -> bool {
    r matches Ok(ProtocolFrame::ParticipantPresenceDelta { joined, left, role_changes, sequence })
        && spec_participants(spec_get_array(obj, key_names(["joined"]@)), joined@)
        && text_views(left@) == spec_texts(spec_get_array(obj, key_names(["left"]@)))
        && spec_role_changes(
        spec_get_array(obj, key_names(seq!["role_changes", "roleChanges"])),
        role_changes@,
    ) && sequence == spec_or(spec_get_i64(obj, key_names(["sequence"]@)), 0)
}

fn decode_presence_delta(obj: &Vec<(String, JsonValue)>) -> (r: Result<ProtocolFrame, CodecError>)
    ensures
        spec_presence_delta(obj@, r),
{
    Ok(
        ProtocolFrame::ParticipantPresenceDelta {
            joined: participants(get_array(obj, &["joined"])),
            left: texts(get_array(obj, &["left"])),
            role_changes: role_changes(get_array(obj, &["role_changes", "roleChanges"])),
            sequence: i64_or(get_i64(obj, &["sequence"]), 0),
        },
    )
}

/// The names under which the target participant of a frame may be given.
pub open spec fn target_keys() -> Seq<Seq<char>> {
    key_names(seq!["target_participant_id", "targetParticipantId", "targetParticipantID"])
}

/// A role grant read from its fields.
pub open spec fn spec_role_grant(obj: Seq<(String, JsonValue)>, r: Result<ProtocolFrame, CodecError>) -> bool {
    let target = spec_get_string(obj, target_keys());
    if target is None {
        spec_missing(r, "roleGrant.target_participant_id"@)
    } else {
        r matches Ok(
            ProtocolFrame::RoleGrant {
                target_participant_id,
                role,
                granted_by,
                signature,
                issued_at_ms,
            },
        ) && target == Some(target_participant_id@) && role == spec_parse_participant_role(
            spec_get_string(obj, key_names(["role"]@)),
        ) && granted_by@ == spec_or(
            spec_get_string(obj, key_names(seq!["granted_by", "grantedBy"])),
            "unknown"@,
        ) && opt_text(signature) == spec_get_string(obj, key_names(["signature"]@))
            && issued_at_ms == spec_or(
            spec_get_i64(obj, key_names(seq!["issued_at_ms", "issuedAtMs"])),
            0,
        )
    }
}

fn decode_role_grant(obj: &Vec<(String, JsonValue)>) -> (r: Result<ProtocolFrame, CodecError>)
    ensures
        spec_role_grant(obj@, r),
{
    let target_participant_id = match get_string(
        obj,
        &["target_participant_id", "targetParticipantId", "targetParticipantID"],
    ) {
        Some(s) => s,
        None => {
            return missing("roleGrant.target_participant_id");
        },
    };
    Ok(
        ProtocolFrame::RoleGrant {
            target_participant_id,
            role: parse_participant_role(get_string_ref(obj, &["role"])),
            granted_by: string_or(obj, &["granted_by", "grantedBy"], "unknown"),
            signature: get_string(obj, &["signature"]),
            issued_at_ms: i64_or(get_i64(obj, &["issued_at_ms", "issuedAtMs"]), 0),
        },
    )
}

/// A role revocation read from its fields.
pub open spec fn spec_role_revoke(obj: Seq<(String, JsonValue)>, r: Result<ProtocolFrame, CodecError>) -> bool {
    let target = spec_get_string(obj, target_keys());
    if target is None {
        spec_missing(r, "roleRevoke.target_participant_id"@)
    } else {
        r matches Ok(
            ProtocolFrame::RoleRevoke {
                target_participant_id,
                role,
                revoked_by,
                signature,
                issued_at_ms,
            },
        ) && target == Some(target_participant_id@) && role == spec_parse_participant_role(
            spec_get_string(obj, key_names(["role"]@)),
        ) && revoked_by@ == spec_or(
            spec_get_string(obj, key_names(seq!["revoked_by", "revokedBy"])),
            "unknown"@,
        ) && opt_text(signature) == spec_get_string(obj, key_names(["signature"]@))
            && issued_at_ms == spec_or(
            spec_get_i64(obj, key_names(seq!["issued_at_ms", "issuedAtMs"])),
            0,
        )
    }
}

fn decode_role_revoke(obj: &Vec<(String, JsonValue)>) -> (r: Result<ProtocolFrame, CodecError>)
    ensures
        spec_role_revoke(obj@, r),
{
    let target_participant_id = match get_string(
        obj,
        &["target_participant_id", "targetParticipantId", "targetParticipantID"],
    ) {
        Some(s) => s,
        None => {
            return missing("roleRevoke.target_participant_id");
        },
    };
    Ok(
        ProtocolFrame::RoleRevoke {
            target_participant_id,
            role: parse_participant_role(get_string_ref(obj, &["role"])),
            revoked_by: string_or(obj, &["revoked_by", "revokedBy"], "unknown"),
            signature: get_string(obj, &["signature"]),
            issued_at_ms: i64_or(get_i64(obj, &["issued_at_ms", "issuedAtMs"]), 0),
        },
    )
}

/// A permissions snapshot read from its fields.
pub open spec fn spec_permissions_snapshot(obj: Seq<(String, JsonValue)>, r: Result<ProtocolFrame, CodecError>) -> bool {
    let pid = spec_get_string(obj, participant_id_keys());
    if pid is None {
        spec_missing(r, "permissionsSnapshot.participant_id"@)
    } else {
        r matches Ok(
            ProtocolFrame::PermissionsSnapshot { participant_id, effective_permissions, epoch },
        ) && pid == Some(participant_id@) && text_views(effective_permissions@) == spec_texts(
            spec_get_array(obj, key_names(seq!["effective_permissions", "effectivePermissions"])),
        ) && epoch == spec_or(spec_get_i32(obj, key_names(["epoch"]@)), 0)
    }
}

fn decode_permissions_snapshot(obj: &Vec<(String, JsonValue)>) -> (r: Result<ProtocolFrame, CodecError>)
    ensures
        spec_permissions_snapshot(obj@, r),
{
    let participant_id = match get_string(obj, &["participant_id", "participantId", "participantID"]) {
        Some(s) => s,
        None => {
            return missing("permissionsSnapshot.participant_id");
        },
    };
    Ok(
        ProtocolFrame::PermissionsSnapshot {
            participant_id,
            effective_permissions: texts(
                get_array(obj, &["effective_permissions", "effectivePermissions"]),
            ),
            epoch: i32_or(get_i32(obj, &["epoch"]), 0),
        },
    )
}

/// A signed moderation action read from its fields.
pub open spec fn spec_moderation_signed(obj: Seq<(String, JsonValue)>, r: Result<ProtocolFrame, CodecError>) -> bool {
    let target = spec_get_string(obj, target_keys());
    if target is None {
        spec_missing(r, "moderationSigned.target_participant_id"@)
    } else {
        r matches Ok(
            ProtocolFrame::ModerationSigned {
                target_participant_id,
                action,
                issued_by,
                signature,
                sent_at_ms,
            },
        ) && target == Some(target_participant_id@) && action == spec_parse_moderation_action(
            spec_get_string(obj, key_names(["action"]@)),
        ) && issued_by@ == spec_or(
            spec_get_string(obj, key_names(seq!["issued_by", "issuedBy"])),
            "unknown"@,
        ) && opt_text(signature) == spec_get_string(obj, key_names(["signature"]@))
            && sent_at_ms == spec_or(spec_get_i64(obj, key_names(seq!["sent_at_ms", "sentAtMs"])), 0)
    }
}

fn decode_moderation_signed(obj: &Vec<(String, JsonValue)>) -> (r: Result<ProtocolFrame, CodecError>)
    ensures
        spec_moderation_signed(obj@, r),
{
    let target_participant_id = match get_string(
        obj,
        &["target_participant_id", "targetParticipantId", "targetParticipantID"],
    ) {
        Some(s) => s,
        None => {
            return missing("moderationSigned.target_participant_id");
        },
    };
    Ok(
        ProtocolFrame::ModerationSigned {
            target_participant_id,
            action: parse_moderation_action(get_string_ref(obj, &["action"])),
            issued_by: string_or(obj, &["issued_by", "issuedBy"], "unknown"),
            signature: get_string(obj, &["signature"]),
            sent_at_ms: i64_or(get_i64(obj, &["sent_at_ms", "sentAtMs"]), 0),
        },
    )
}

/// A session policy read from its fields.
pub open spec fn spec_session_policy(obj: Seq<(String, JsonValue)>, r: Result<ProtocolFrame, CodecError>) -> bool {
    r matches Ok(
        ProtocolFrame::SessionPolicy {
            room_lock,
            waiting_room_enabled,
            recording_policy,
            guest_policy,
            e2ee_required,
            max_participants,
            policy_epoch,
            updated_by,
            signature,
            updated_at_ms,
        },
    ) && room_lock == spec_or(spec_get_bool(obj, key_names(seq!["room_lock", "roomLock"])), false)
        && waiting_room_enabled == spec_or(
        spec_get_bool(obj, key_names(seq!["waiting_room_enabled", "waitingRoomEnabled"])),
        false,
    ) && recording_policy == spec_parse_recording_state(
        spec_get_string(obj, key_names(seq!["recording_policy", "recordingPolicy"])),
    ) && guest_policy == spec_parse_guest_policy(
        spec_get_string(obj, key_names(seq!["guest_policy", "guestPolicy"])),
    ) && e2ee_required == spec_or(
        spec_get_bool(obj, key_names(seq!["e2ee_required", "e2eeRequired"])),
        true,
    ) && max_participants == spec_or(
        spec_get_i32(obj, key_names(seq!["max_participants", "maxParticipants"])),
        300,
    ) && policy_epoch == spec_or(
        spec_get_i32(obj, key_names(seq!["policy_epoch", "policyEpoch"])),
        0,
    ) && updated_by@ == spec_or(
        spec_get_string(obj, key_names(seq!["updated_by", "updatedBy"])),
        "system"@,
    ) && opt_text(signature) == spec_get_string(obj, key_names(["signature"]@))
        && updated_at_ms == spec_or(
        spec_get_i64(obj, key_names(seq!["updated_at_ms", "updatedAtMs"])),
        0,
    )
}

fn decode_session_policy(obj: &Vec<(String, JsonValue)>) -> (r: Result<ProtocolFrame, CodecError>)
    ensures
        spec_session_policy(obj@, r),
{
    Ok(
        ProtocolFrame::SessionPolicy {
            room_lock: bool_or(get_bool(obj, &["room_lock", "roomLock"]), false),
            waiting_room_enabled: bool_or(
                get_bool(obj, &["waiting_room_enabled", "waitingRoomEnabled"]),
                false,
            ),
            recording_policy: parse_recording_state(
                get_string_ref(obj, &["recording_policy", "recordingPolicy"]),
            ),
            guest_policy: parse_guest_policy(get_string_ref(obj, &["guest_policy", "guestPolicy"])),
            e2ee_required: bool_or(get_bool(obj, &["e2ee_required", "e2eeRequired"]), true),
            max_participants: i32_or(get_i32(obj, &["max_participants", "maxParticipants"]), 300),
            policy_epoch: i32_or(get_i32(obj, &["policy_epoch", "policyEpoch"]), 0),
            updated_by: string_or(obj, &["updated_by", "updatedBy"], "system"),
            signature: get_string(obj, &["signature"]),
            updated_at_ms: i64_or(get_i64(obj, &["updated_at_ms", "updatedAtMs"]), 0),
        },
    )
}

/// Device capabilities read from their fields.
pub open spec fn spec_device_capability(obj: Seq<(String, JsonValue)>, r: Result<ProtocolFrame, CodecError>) -> bool {
    let pid = spec_get_string(obj, participant_id_keys());
    if pid is None {
        spec_missing(r, "deviceCapability.participant_id"@)
    } else {
        r matches Ok(
            ProtocolFrame::DeviceCapability {
                participant_id,
                codecs,
                hdr_capture,
                hdr_render,
                max_streams,
                updated_at_ms,
            },
        ) && pid == Some(participant_id@) && text_views(codecs@) == spec_texts(
            spec_get_array(obj, key_names(["codecs"]@)),
        ) && hdr_capture == spec_or(
            spec_get_bool(obj, key_names(seq!["hdr_capture", "hdrCapture"])),
            false,
        ) && hdr_render == spec_or(
            spec_get_bool(obj, key_names(seq!["hdr_render", "hdrRender"])),
            false,
        ) && max_streams == spec_or(
            spec_get_i32(obj, key_names(seq!["max_streams", "maxStreams"])),
            1,
        ) && updated_at_ms == spec_or(
            spec_get_i64(obj, key_names(seq!["updated_at_ms", "updatedAtMs"])),
            0,
        )
    }
}

fn decode_device_capability(obj: &Vec<(String, JsonValue)>) -> (r: Result<ProtocolFrame, CodecError>)
    ensures
        spec_device_capability(obj@, r),
{
    let participant_id = match get_string(obj, &["participant_id", "participantId", "participantID"]) {
        Some(s) => s,
        None => {
            return missing("deviceCapability.participant_id");
        },
    };
    Ok(
        ProtocolFrame::DeviceCapability {
            participant_id,
            codecs: texts(get_array(obj, &["codecs"])),
            hdr_capture: bool_or(get_bool(obj, &["hdr_capture", "hdrCapture"]), false),
            hdr_render: bool_or(get_bool(obj, &["hdr_render", "hdrRender"]), false),
            max_streams: i32_or(get_i32(obj, &["max_streams", "maxStreams"]), 1),
            updated_at_ms: i64_or(get_i64(obj, &["updated_at_ms", "updatedAtMs"]), 0),
        },
    )
}

/// A media profile negotiation read from its fields.
pub open spec fn spec_media_profile_negotiation(obj: Seq<(String, JsonValue)>, r: Result<ProtocolFrame, CodecError>) -> bool {
    r matches Ok(
        ProtocolFrame::MediaProfileNegotiation {
            preferred_profile,
            negotiated_profile,
            color_primaries,
            transfer_function,
            codec,
        },
    ) && preferred_profile == spec_parse_media_profile(
        spec_get_string(obj, key_names(seq!["preferred_profile", "preferredProfile"])),
    ) && negotiated_profile == spec_parse_media_profile(
        spec_get_string(obj, key_names(seq!["negotiated_profile", "negotiatedProfile"])),
    ) && color_primaries@ == spec_or(
        spec_get_string(obj, key_names(seq!["color_primaries", "colorPrimaries"])),
        "bt709"@,
    ) && transfer_function@ == spec_or(
        spec_get_string(obj, key_names(seq!["transfer_function", "transferFunction"])),
        "gamma"@,
    ) && codec@ == spec_or(spec_get_string(obj, key_names(["codec"]@)), "h264"@)
}

fn decode_media_profile_negotiation(obj: &Vec<(String, JsonValue)>) -> (r: Result<
    ProtocolFrame,
    CodecError,
>)
    ensures
        spec_media_profile_negotiation(obj@, r),
{
    Ok(
        ProtocolFrame::MediaProfileNegotiation {
            preferred_profile: parse_media_profile(
                get_string_ref(obj, &["preferred_profile", "preferredProfile"]),
            ),
            negotiated_profile: parse_media_profile(
                get_string_ref(obj, &["negotiated_profile", "negotiatedProfile"]),
            ),
            color_primaries: string_or(obj, &["color_primaries", "colorPrimaries"], "bt709"),
            transfer_function: string_or(obj, &["transfer_function", "transferFunction"], "gamma"),
            codec: string_or(obj, &["codec"], "h264"),
        },
    )
}

/// A recording notice read from its fields.
pub open spec fn spec_recording_notice(obj: Seq<(String, JsonValue)>, r: Result<ProtocolFrame, CodecError>) -> bool {
    r matches Ok(ProtocolFrame::RecordingNotice { state, issued_at_ms }) && state
        == spec_parse_recording_state(spec_get_string(obj, key_names(["state"]@)))
        && issued_at_ms == spec_or(
        spec_get_i64(obj, key_names(seq!["issued_at_ms", "issuedAtMs"])),
        0,
    )
}

fn decode_recording_notice(obj: &Vec<(String, JsonValue)>) -> (r: Result<ProtocolFrame, CodecError>)
    ensures
        spec_recording_notice(obj@, r),
{
    Ok(
        ProtocolFrame::RecordingNotice {
            state: parse_recording_state(get_string_ref(obj, &["state"])),
            issued_at_ms: i64_or(get_i64(obj, &["issued_at_ms", "issuedAtMs"]), 0),
        },
    )
}

/// A key epoch read from its fields.
pub open spec fn spec_e2ee_key_epoch(obj: Seq<(String, JsonValue)>, r: Result<ProtocolFrame, CodecError>) -> bool {
    r matches Ok(ProtocolFrame::E2eeKeyEpoch { epoch, issued_by, signature, sent_at_ms }) && epoch
        == spec_or(spec_get_i32(obj, key_names(["epoch"]@)), 0) && issued_by@ == spec_or(
        spec_get_string(obj, key_names(seq!["issued_by", "issuedBy"])),
        "unknown"@,
    ) && opt_text(signature) == spec_get_string(obj, key_names(["signature"]@))
        && sent_at_ms == spec_or(spec_get_i64(obj, key_names(seq!["sent_at_ms", "sentAtMs"])), 0)
}

fn decode_e2ee_key_epoch(obj: &Vec<(String, JsonValue)>) -> (r: Result<ProtocolFrame, CodecError>)
    ensures
        spec_e2ee_key_epoch(obj@, r),
{
    Ok(
        ProtocolFrame::E2eeKeyEpoch {
            epoch: i32_or(get_i32(obj, &["epoch"]), 0),
            issued_by: string_or(obj, &["issued_by", "issuedBy"], "unknown"),
            signature: get_string(obj, &["signature"]),
            sent_at_ms: i64_or(get_i64(obj, &["sent_at_ms", "sentAtMs"]), 0),
        },
    )
}

/// A key rotation acknowledgement read from its fields.
pub open spec fn spec_key_rotation_ack(obj: Seq<(String, JsonValue)>, r: Result<ProtocolFrame, CodecError>) -> bool {
    let pid = spec_get_string(obj, participant_id_keys());
    if pid is None {
        spec_missing(r, "keyRotationAck.participant_id"@)
    } else {
        r matches Ok(ProtocolFrame::KeyRotationAck { ack_epoch, participant_id, sent_at_ms })
            && ack_epoch == spec_or(spec_get_i32(obj, key_names(seq!["ack_epoch", "ackEpoch"])), 0)
            && pid == Some(participant_id@) && sent_at_ms == spec_or(
            spec_get_i64(
                obj,
                key_names(seq!["sent_at_ms", "sentAtMs", "received_at_ms", "receivedAtMs"]),
            ),
            0,
        )
    }
}

fn decode_key_rotation_ack(obj: &Vec<(String, JsonValue)>) -> (r: Result<ProtocolFrame, CodecError>)
    ensures
        spec_key_rotation_ack(obj@, r),
{
    let ack_epoch = i32_or(get_i32(obj, &["ack_epoch", "ackEpoch"]), 0);
    let participant_id = match get_string(obj, &["participant_id", "participantId", "participantID"]) {
        Some(s) => s,
        None => {
            return missing("keyRotationAck.participant_id");
        },
    };
    Ok(
        ProtocolFrame::KeyRotationAck {
            ack_epoch,
            participant_id,
            sent_at_ms: i64_or(
                get_i64(obj, &["sent_at_ms", "sentAtMs", "received_at_ms", "receivedAtMs"]),
                0,
            ),
        },
    )
}

/// A payment policy read from its fields.
pub open spec fn spec_payment_policy(obj: Seq<(String, JsonValue)>, r: Result<ProtocolFrame, CodecError>) -> bool {
    r matches Ok(ProtocolFrame::PaymentPolicy { required, destination_account }) && required
        == spec_or(spec_get_bool(obj, key_names(["required"]@)), false) && opt_text(
        destination_account,
    ) == spec_get_string(obj, key_names(seq!["destination_account", "destinationAccount"]))
}

fn decode_payment_policy(obj: &Vec<(String, JsonValue)>) -> (r: Result<ProtocolFrame, CodecError>)
    ensures
        spec_payment_policy(obj@, r),
{
    Ok(
        ProtocolFrame::PaymentPolicy {
            required: bool_or(get_bool(obj, &["required"]), false),
            destination_account: get_string(obj, &["destination_account", "destinationAccount"]),
        },
    )
}

/// A payment settlement read from its fields.
pub open spec fn spec_payment_settlement(obj: Seq<(String, JsonValue)>, r: Result<ProtocolFrame, CodecError>) -> bool {
    r == Ok::<ProtocolFrame, CodecError>(
        ProtocolFrame::PaymentSettlement {
            status: spec_parse_payment_settlement_status(
                spec_get_string(obj, key_names(["status"]@)),
            ),
        },
    )
}

/// A ping or pong time read from its fields.
pub open spec fn spec_sent_at(obj: Seq<(String, JsonValue)>) -> i64 {
    spec_or(spec_get_i64(obj, key_names(seq!["sent_at_ms", "sentAtMs"])), 0)
}

/// An error frame read from its fields.
pub open spec fn spec_error_frame(obj: Seq<(String, JsonValue)>, r: Result<ProtocolFrame, CodecError>) -> bool {
    r matches Ok(ProtocolFrame::Error { category, code, message }) && category
        == spec_parse_session_error_category(spec_get_string(obj, key_names(["category"]@)))
        && code@ == spec_or(spec_get_string(obj, key_names(["code"]@)), "error"@) && message@
        == spec_or(spec_get_string(obj, key_names(["message"]@)), "unknown"@)
}

fn decode_error_frame(obj: &Vec<(String, JsonValue)>) -> (r: Result<ProtocolFrame, CodecError>)
    ensures
        spec_error_frame(obj@, r),
{
    Ok(
        ProtocolFrame::Error {
            category: parse_session_error_category(get_string_ref(obj, &["category"])),
            code: string_or(obj, &["code"], "error"),
            message: string_or(obj, &["message"], "unknown"),
        },
    )
}
fn decode_payment_settlement(obj: &Vec<(String, JsonValue)>) -> (r: Result<ProtocolFrame, CodecError>)
    ensures
        spec_payment_settlement(obj@, r),
{
    Ok(
        ProtocolFrame::PaymentSettlement {
            status: parse_payment_settlement_status(get_string_ref(obj, &["status"])),
        },
    )
}

/// A ping read from its fields.
pub open spec fn spec_ping(obj: Seq<(String, JsonValue)>, r: Result<ProtocolFrame, CodecError>) -> bool {
    r == Ok::<ProtocolFrame, CodecError>(ProtocolFrame::Ping { sent_at_ms: spec_sent_at(obj) })
}

fn decode_ping(obj: &Vec<(String, JsonValue)>) -> (r: Result<ProtocolFrame, CodecError>)
    ensures
        spec_ping(obj@, r),
{
    Ok(ProtocolFrame::Ping { sent_at_ms: i64_or(get_i64(obj, &["sent_at_ms", "sentAtMs"]), 0) })
}

/// A pong read from its fields.
pub open spec fn spec_pong(obj: Seq<(String, JsonValue)>, r: Result<ProtocolFrame, CodecError>) -> bool {
    r == Ok::<ProtocolFrame, CodecError>(ProtocolFrame::Pong { sent_at_ms: spec_sent_at(obj) })
}

fn decode_pong(obj: &Vec<(String, JsonValue)>) -> (r: Result<ProtocolFrame, CodecError>)
    ensures
        spec_pong(obj@, r),
{
    Ok(ProtocolFrame::Pong { sent_at_ms: i64_or(get_i64(obj, &["sent_at_ms", "sentAtMs"]), 0) })
}

/// The frame of a kind (already in camel case), read from the root object:
/// its fields come from the nested object named after the kind when there
/// is one, from the root otherwise. An unknown kind is refused.
pub open spec fn spec_decode_kind(
    root: Seq<(String, JsonValue)>,
    kind: Seq<char>,
    r: Result<ProtocolFrame, CodecError>,
) -> bool {
    if kind == "handshake"@ {
        spec_handshake(spec_payload_or_root(root, key_names(["handshake"]@)), r)
    } else if kind == "handshakeAck"@ {
        spec_handshake_ack(spec_payload_or_root(root, key_names(seq!["handshakeAck", "handshake_ack"])), r)
    } else if kind == "participantPresenceDelta"@ {
        spec_presence_delta(spec_payload_or_root(root, key_names(seq!["presenceDelta", "participantPresenceDelta", "participant_presence_delta"])), r)
    } else if kind == "roleGrant"@ {
        spec_role_grant(spec_payload_or_root(root, key_names(seq!["roleGrant", "role_grant"])), r)
    } else if kind == "roleRevoke"@ {
        spec_role_revoke(spec_payload_or_root(root, key_names(seq!["roleRevoke", "role_revoke"])), r)
    } else if kind == "permissionsSnapshot"@ {
        spec_permissions_snapshot(spec_payload_or_root(root, key_names(seq!["permissionsSnapshot", "permissions_snapshot"])), r)
    } else if kind == "moderationSigned"@ {
        spec_moderation_signed(spec_payload_or_root(root, key_names(seq!["moderationSigned", "moderation_signed"])), r)
    } else if kind == "sessionPolicy"@ {
        spec_session_policy(spec_payload_or_root(root, key_names(seq!["sessionPolicy", "session_policy"])), r)
    } else if kind == "deviceCapability"@ {
        spec_device_capability(spec_payload_or_root(root, key_names(seq!["deviceCapability", "device_capability"])), r)
    } else if kind == "mediaProfileNegotiation"@ {
        spec_media_profile_negotiation(spec_payload_or_root(root, key_names(seq!["mediaProfileNegotiation", "media_profile_negotiation"])), r)
    } else if kind == "recordingNotice"@ {
        spec_recording_notice(spec_payload_or_root(root, key_names(seq!["recordingNotice", "recording_notice"])), r)
    } else if kind == "e2eeKeyEpoch"@ {
        spec_e2ee_key_epoch(spec_payload_or_root(root, key_names(seq!["e2eeKeyEpoch", "e2ee_key_epoch"])), r)
    } else if kind == "keyRotationAck"@ {
        spec_key_rotation_ack(spec_payload_or_root(root, key_names(seq!["keyRotationAck", "key_rotation_ack"])), r)
    } else if kind == "paymentPolicy"@ {
        spec_payment_policy(spec_payload_or_root(root, key_names(seq!["paymentPolicy", "payment_policy"])), r)
    } else if kind == "paymentSettlement"@ {
        spec_payment_settlement(spec_payload_or_root(root, key_names(seq!["paymentSettlement", "payment_settlement"])), r)
    } else if kind == "ping"@ {
        spec_ping(spec_payload_or_root(root, key_names(["ping"]@)), r)
    } else if kind == "pong"@ {
        spec_pong(spec_payload_or_root(root, key_names(["pong"]@)), r)
    } else if kind == "error"@ {
        spec_error_frame(spec_payload_or_root(root, key_names(["error"]@)), r)
    } else {
        r matches Err(CodecError::InvalidShape(m)) && m@ == "unsupported frame kind: "@ + kind
    }
}

fn decode_kind(root: &Vec<(String, JsonValue)>, kind: &str) -> (r: Result<ProtocolFrame, CodecError>)
    ensures
        spec_decode_kind(root@, kind@, r),
{
    if same_text(kind, "handshake") {
        decode_handshake(payload_or_root(root, &["handshake"]))
    } else if same_text(kind, "handshakeAck") {
        decode_handshake_ack(payload_or_root(root, &["handshakeAck", "handshake_ack"]))
    } else if same_text(kind, "participantPresenceDelta") {
        decode_presence_delta(payload_or_root(root, &["presenceDelta", "participantPresenceDelta", "participant_presence_delta"]))
    } else if same_text(kind, "roleGrant") {
        decode_role_grant(payload_or_root(root, &["roleGrant", "role_grant"]))
    } else if same_text(kind, "roleRevoke") {
        decode_role_revoke(payload_or_root(root, &["roleRevoke", "role_revoke"]))
    } else if same_text(kind, "permissionsSnapshot") {
        decode_permissions_snapshot(payload_or_root(root, &["permissionsSnapshot", "permissions_snapshot"]))
    } else if same_text(kind, "moderationSigned") {
        decode_moderation_signed(payload_or_root(root, &["moderationSigned", "moderation_signed"]))
    } else if same_text(kind, "sessionPolicy") {
        decode_session_policy(payload_or_root(root, &["sessionPolicy", "session_policy"]))
    } else if same_text(kind, "deviceCapability") {
        decode_device_capability(payload_or_root(root, &["deviceCapability", "device_capability"]))
    } else if same_text(kind, "mediaProfileNegotiation") {
        decode_media_profile_negotiation(payload_or_root(root, &["mediaProfileNegotiation", "media_profile_negotiation"]))
    } else if same_text(kind, "recordingNotice") {
        decode_recording_notice(payload_or_root(root, &["recordingNotice", "recording_notice"]))
    } else if same_text(kind, "e2eeKeyEpoch") {
        decode_e2ee_key_epoch(payload_or_root(root, &["e2eeKeyEpoch", "e2ee_key_epoch"]))
    } else if same_text(kind, "keyRotationAck") {
        decode_key_rotation_ack(payload_or_root(root, &["keyRotationAck", "key_rotation_ack"]))
    } else if same_text(kind, "paymentPolicy") {
        decode_payment_policy(payload_or_root(root, &["paymentPolicy", "payment_policy"]))
    } else if same_text(kind, "paymentSettlement") {
        decode_payment_settlement(payload_or_root(root, &["paymentSettlement", "payment_settlement"]))
    } else if same_text(kind, "ping") {
        decode_ping(payload_or_root(root, &["ping"]))
    } else if same_text(kind, "pong") {
        decode_pong(payload_or_root(root, &["pong"]))
    } else if same_text(kind, "error") {
        decode_error_frame(payload_or_root(root, &["error"]))
    } else {
        Err(CodecError::InvalidShape(concat2("unsupported frame kind: ", kind)))
    }
}

/// What a JSON value reads as: an object whose `kind` text names a frame
/// (in camel or snake case), read as that frame. Anything else is refused:
/// a value that is not an object, an object without a `kind` text, an
/// unknown kind, or a frame missing one of its required texts.
pub open spec fn spec_decode_frame_value(v: JsonValue, r: Result<ProtocolFrame, CodecError>) -> bool {
    match v {
        JsonValue::Object(root) => match spec_as_str(spec_lookup(root@, "kind"@)) {
            Some(raw) => spec_decode_kind(root@, spec_canonical_kind(raw), r),
            None => r matches Err(CodecError::InvalidShape(m)) && m@ == "frame.kind missing"@,
        },
        _ => r matches Err(CodecError::InvalidShape(m)) && m@ == "frame must be an object"@,
    }
}

/// Reads a protocol frame from a JSON value.
pub fn decode_frame_value(value: &JsonValue) -> (r: Result<ProtocolFrame, CodecError>)
    ensures
        spec_decode_frame_value(*value, r),
{
    let root = match value {
        JsonValue::Object(o) => o,
        _ => {
            return Err(CodecError::InvalidShape("frame must be an object".to_owned()));
        },
    };
    let raw = match lookup(root, "kind") {
        Some(v) => match value_as_str(v) {
            Some(s) => s,
            None => {
                return Err(CodecError::InvalidShape("frame.kind missing".to_owned()));
            },
        },
        None => {
            return Err(CodecError::InvalidShape("frame.kind missing".to_owned()));
        },
    };
    decode_kind(root, canonical_kind(raw))
}

/// Whether a frame of this kind (in camel case) is refused for its kind or
/// its fields: an unknown kind is; a handshake lacking its room,
/// participant id or name; an acknowledgement lacking its session or resume
/// token; a role grant, role revoke or signed moderation lacking its
/// target; a permissions snapshot, device capability or key rotation
/// acknowledgement lacking its participant id. The other kinds require
/// nothing.
pub open spec fn spec_kind_refused(root: Seq<(String, JsonValue)>, kind: Seq<char>) -> bool {
    if kind == "handshake"@ {
        let obj = spec_payload_or_root(root, key_names(["handshake"]@));
        ||| spec_get_string(obj, key_names(seq!["room_id", "roomId", "roomID"])) is None
        ||| spec_get_string(obj, participant_id_keys()) is None
        ||| spec_get_string(obj, key_names(seq!["participant_name", "participantName"])) is None
    } else if kind == "handshakeAck"@ {
        let obj = spec_payload_or_root(root, key_names(seq!["handshakeAck", "handshake_ack"]));
        ||| spec_get_string(obj, key_names(seq!["session_id", "sessionId", "sessionID"])) is None
        ||| spec_get_string(obj, key_names(seq!["resume_token", "resumeToken"])) is None
    } else if kind == "participantPresenceDelta"@ {
        false
    } else if kind == "roleGrant"@ {
        spec_get_string(spec_payload_or_root(root, key_names(seq!["roleGrant", "role_grant"])), target_keys()) is None
    } else if kind == "roleRevoke"@ {
        spec_get_string(spec_payload_or_root(root, key_names(seq!["roleRevoke", "role_revoke"])), target_keys()) is None
    } else if kind == "permissionsSnapshot"@ {
        spec_get_string(
            spec_payload_or_root(root, key_names(seq!["permissionsSnapshot", "permissions_snapshot"])),
            participant_id_keys(),
        ) is None
    } else if kind == "moderationSigned"@ {
        spec_get_string(
            spec_payload_or_root(root, key_names(seq!["moderationSigned", "moderation_signed"])),
            target_keys(),
        ) is None
    } else if kind == "sessionPolicy"@ {
        false
    } else if kind == "deviceCapability"@ {
        spec_get_string(
            spec_payload_or_root(root, key_names(seq!["deviceCapability", "device_capability"])),
            participant_id_keys(),
        ) is None
    } else if kind == "mediaProfileNegotiation"@ || kind == "recordingNotice"@ || kind == "e2eeKeyEpoch"@ {
        false
    } else if kind == "keyRotationAck"@ {
        spec_get_string(
            spec_payload_or_root(root, key_names(seq!["keyRotationAck", "key_rotation_ack"])),
            participant_id_keys(),
        ) is None
    } else {
        !(kind == "paymentPolicy"@ || kind == "paymentSettlement"@ || kind == "ping"@ || kind
            == "pong"@ || kind == "error"@)
    }
}

/// A JSON value is refused as a frame exactly when it is not an object, has
/// no `kind` text, or is refused for its kind (an unsupported kind, or a
/// required text missing); every refusal is a shape error.
pub proof fn lemma_decode_refusals(v: JsonValue, r: Result<ProtocolFrame, CodecError>)
    requires
        spec_decode_frame_value(v, r),
    ensures
        r matches Err(e) ==> e is InvalidShape,
        r is Err <==> match v {
            JsonValue::Object(root) => match spec_as_str(spec_lookup(root@, "kind"@)) {
                Some(raw) => spec_kind_refused(root@, spec_canonical_kind(raw)),
                None => true,
            },
            _ => true,
        },
{
}

} // verus!
