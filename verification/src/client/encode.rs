//! Writing protocol frames as JSON: the object that serialising a frame
//! gives, with its `kind` in camel case first and its fields after it under
//! their snake-case names.
use vstd::prelude::*;
use crate::client::json::{JsonNumber, JsonValue};
use crate::client::protocol::ProtocolFrame;
use crate::client::types::{
    GuestPolicy, MediaProfile, ModerationAction, Participant, ParticipantRole,
    PaymentSettlementStatus, RecordingState, RoleChange, SessionErrorCategory,
};

verus! {

broadcast use vstd::string::group_string_axioms;

/// `v` is the string `t`.
pub open spec fn spec_is_text(v: JsonValue, t: Seq<char>) -> bool {
    v matches JsonValue::String(s) && s@ == t
}

/// `v` is the string of `o`, or `null` where there is none.
pub open spec fn spec_is_opt_text(v: JsonValue, o: Option<String>) -> bool {
    match o {
        Some(s) => spec_is_text(v, s@),
        None => v == JsonValue::Null,
    }
}

/// `v` is the number `x`.
pub open spec fn spec_is_int(v: JsonValue, x: int) -> bool {
    v == JsonValue::Number(
        JsonNumber {
            as_i64: Some(x as i64),
            as_u64: if x >= 0 { Some(x as u64) } else { None },
        },
    )
}

/// `v` is an array of the strings `ts`.
pub open spec fn spec_is_texts(v: JsonValue, ts: Seq<String>) -> bool {
    v matches JsonValue::Array(items) && items@.len() == ts.len() && forall|i: int|
        0 <= i < ts.len() ==> #[trigger] spec_is_text(items@[i], ts[i]@)
}

/// `v` is the object of a participant: its seven fields in order.
pub open spec fn spec_is_participant_json(v: JsonValue, p: Participant) -> bool {
    v matches JsonValue::Object(m) && {
        let o = m@;
        &&& o.len() == 7
        &&& o[0].0@ == "id"@ && spec_is_text(o[0].1, p.id@)
        &&& o[1].0@ == "display_name"@ && spec_is_text(o[1].1, p.display_name@)
        &&& o[2].0@ == "role"@ && spec_is_text(o[2].1, spec_role_name(p.role))
        &&& o[3].0@ == "muted"@ && o[3].1 == JsonValue::Bool(p.muted)
        &&& o[4].0@ == "video_enabled"@ && o[4].1 == JsonValue::Bool(p.video_enabled)
        &&& o[5].0@ == "share_enabled"@ && o[5].1 == JsonValue::Bool(p.share_enabled)
        &&& o[6].0@ == "waiting_room"@ && o[6].1 == JsonValue::Bool(p.waiting_room)
    }
}

/// `v` is an array of the participants' objects.
pub open spec fn spec_is_participants(v: JsonValue, ps: Seq<Participant>) -> bool {
    v matches JsonValue::Array(items) && items@.len() == ps.len() && forall|i: int|
        0 <= i < ps.len() ==> #[trigger] spec_is_participant_json(items@[i], ps[i])
}

/// `v` is the object of a role change.
pub open spec fn spec_is_role_change_json(v: JsonValue, c: RoleChange) -> bool {
    v matches JsonValue::Object(m) && {
        let o = m@;
        &&& o.len() == 2
        &&& o[0].0@ == "participant_id"@ && spec_is_text(o[0].1, c.participant_id@)
        &&& o[1].0@ == "role"@ && spec_is_text(o[1].1, spec_role_name(c.role))
    }
}

/// `v` is an array of the role changes' objects.
pub open spec fn spec_is_role_changes(v: JsonValue, cs: Seq<RoleChange>) -> bool {
    v matches JsonValue::Array(items) && items@.len() == cs.len() && forall|i: int|
        0 <= i < cs.len() ==> #[trigger] spec_is_role_change_json(items@[i], cs[i])
}

/// The snake-case name of a media profile.
pub open spec fn spec_media_profile_name(p: MediaProfile) -> Seq<char> {
    match p {
        MediaProfile::Sdr => "sdr"@,
        MediaProfile::Hdr => "hdr"@,
    }
}

/// The snake-case name of a role.
pub open spec fn spec_role_name(r: ParticipantRole) -> Seq<char> {
    match r {
        ParticipantRole::Host => "host"@,
        ParticipantRole::CoHost => "co_host"@,
        ParticipantRole::Participant => "participant"@,
        ParticipantRole::Guest => "guest"@,
    }
}

/// The snake-case name of a moderation action.
pub open spec fn spec_action_name(a: ModerationAction) -> Seq<char> {
    match a {
        ModerationAction::Mute => "mute"@,
        ModerationAction::VideoOff => "video_off"@,
        ModerationAction::StopShare => "stop_share"@,
        ModerationAction::Kick => "kick"@,
        ModerationAction::AdmitFromWaiting => "admit_from_waiting"@,
        ModerationAction::DenyFromWaiting => "deny_from_waiting"@,
    }
}

/// The snake-case name of a recording state.
pub open spec fn spec_recording_name(s: RecordingState) -> Seq<char> {
    match s {
        RecordingState::Stopped => "stopped"@,
        RecordingState::Started => "started"@,
    }
}

/// The snake-case name of a guest policy.
pub open spec fn spec_guest_policy_name(g: GuestPolicy) -> Seq<char> {
    match g {
        GuestPolicy::Open => "open"@,
        GuestPolicy::InviteOnly => "invite_only"@,
        GuestPolicy::Blocked => "blocked"@,
    }
}

/// The snake-case name of a settlement status.
pub open spec fn spec_settlement_name(s: PaymentSettlementStatus) -> Seq<char> {
    match s {
        PaymentSettlementStatus::NotRequired => "not_required"@,
        PaymentSettlementStatus::Pending => "pending"@,
        PaymentSettlementStatus::Settled => "settled"@,
        PaymentSettlementStatus::Blocked => "blocked"@,
    }
}

/// The snake-case name of an error category.
pub open spec fn spec_category_name(c: SessionErrorCategory) -> Seq<char> {
    match c {
        SessionErrorCategory::ProtocolFailure => "protocol_failure"@,
        SessionErrorCategory::PolicyFailure => "policy_failure"@,
        SessionErrorCategory::TransportFailure => "transport_failure"@,
    }
}

/// The snake-case name of a media profile.
pub fn media_profile_name(p: MediaProfile) -> (r: &'static str)
    ensures
        r@ == spec_media_profile_name(p),
{
    match p {
        MediaProfile::Sdr => "sdr",
        MediaProfile::Hdr => "hdr",
    }
}

/// The snake-case name of a role.
pub fn role_name(r: ParticipantRole) -> (s: &'static str)
    ensures
        s@ == spec_role_name(r),
{
    match r {
        ParticipantRole::Host => "host",
        ParticipantRole::CoHost => "co_host",
        ParticipantRole::Participant => "participant",
        ParticipantRole::Guest => "guest",
    }
}

/// The snake-case name of a moderation action.
pub fn action_name(a: ModerationAction) -> (s: &'static str)
    ensures
        s@ == spec_action_name(a),
{
    match a {
        ModerationAction::Mute => "mute",
        ModerationAction::VideoOff => "video_off",
        ModerationAction::StopShare => "stop_share",
        ModerationAction::Kick => "kick",
        ModerationAction::AdmitFromWaiting => "admit_from_waiting",
        ModerationAction::DenyFromWaiting => "deny_from_waiting",
    }
}

/// The snake-case name of a recording state.
pub fn recording_name(s: RecordingState) -> (r: &'static str)
    ensures
        r@ == spec_recording_name(s),
{
    match s {
        RecordingState::Stopped => "stopped",
        RecordingState::Started => "started",
    }
}

/// The snake-case name of a guest policy.
pub fn guest_policy_name(g: GuestPolicy) -> (r: &'static str)
    ensures
        r@ == spec_guest_policy_name(g),
{
    match g {
        GuestPolicy::Open => "open",
        GuestPolicy::InviteOnly => "invite_only",
        GuestPolicy::Blocked => "blocked",
    }
}

/// The snake-case name of a settlement status.
pub fn settlement_name(s: PaymentSettlementStatus) -> (r: &'static str)
    ensures
        r@ == spec_settlement_name(s),
{
    match s {
        PaymentSettlementStatus::NotRequired => "not_required",
        PaymentSettlementStatus::Pending => "pending",
        PaymentSettlementStatus::Settled => "settled",
        PaymentSettlementStatus::Blocked => "blocked",
    }
}

/// The snake-case name of an error category.
pub fn category_name(c: SessionErrorCategory) -> (r: &'static str)
    ensures
        r@ == spec_category_name(c),
{
    match c {
        SessionErrorCategory::ProtocolFailure => "protocol_failure",
        SessionErrorCategory::PolicyFailure => "policy_failure",
        SessionErrorCategory::TransportFailure => "transport_failure",
    }
}

/// A string value.
fn name(s: &str) -> (r: JsonValue)
    ensures
        spec_is_text(r, s@),
{
    JsonValue::String(s.to_owned())
}

/// A string value holding a copy of the text.
fn text(s: &String) -> (r: JsonValue)
    ensures
        spec_is_text(r, s@),
{
    JsonValue::String(s.clone())
}

/// A string value, or `null` for none.
fn opt_text_json(o: &Option<String>) -> (r: JsonValue)
    ensures
        spec_is_opt_text(r, *o),
{
    match o {
        Some(s) => text(s),
        None => JsonValue::Null,
    }
}

/// A number value.
fn number(x: i64) -> (r: JsonValue)
    ensures
        spec_is_int(r, x as int),
{
    let as_u64: Option<u64> = if x >= 0 { Some(x as u64) } else { None };
    JsonValue::Number(JsonNumber { as_i64: Some(x), as_u64 })
}

/// A member of an object.
fn member(key: &str, value: JsonValue) -> (r: (String, JsonValue))
    ensures
        r.0@ == key@,
        r.1 == value,
{
    (key.to_owned(), value)
}

/// An array of strings.
fn texts_json(ts: &Vec<String>) -> (r: JsonValue)
    ensures
        spec_is_texts(r, ts@),
{
    let mut items: Vec<JsonValue> = Vec::new();
    for i in 0..ts.len()
        invariant
            items@.len() == i,
            forall|k: int| 0 <= k < i ==> #[trigger] spec_is_text(items@[k], ts@[k]@),
    {
        items.push(text(&ts[i]));
    }
    JsonValue::Array(items)
}

/// The object of a participant.
fn participant_json(p: &Participant) -> (r: JsonValue)
    ensures
        spec_is_participant_json(r, *p),
{
    let mut o: Vec<(String, JsonValue)> = Vec::new();
    o.push(member("id", text(&p.id)));
    o.push(member("display_name", text(&p.display_name)));
    o.push(member("role", name(role_name(p.role))));
    o.push(member("muted", JsonValue::Bool(p.muted)));
    o.push(member("video_enabled", JsonValue::Bool(p.video_enabled)));
    o.push(member("share_enabled", JsonValue::Bool(p.share_enabled)));
    o.push(member("waiting_room", JsonValue::Bool(p.waiting_room)));
    JsonValue::Object(o)
}

/// An array of participant objects.
fn participants_json(ps: &Vec<Participant>) -> (r: JsonValue)
    ensures
        spec_is_participants(r, ps@),
{
    let mut items: Vec<JsonValue> = Vec::new();
    for i in 0..ps.len()
        invariant
            items@.len() == i,
            forall|k: int| 0 <= k < i ==> #[trigger] spec_is_participant_json(items@[k], ps@[k]),
    {
        items.push(participant_json(&ps[i]));
    }
    JsonValue::Array(items)
}

/// The object of a role change.
fn role_change_json(c: &RoleChange) -> (r: JsonValue)
    ensures
        spec_is_role_change_json(r, *c),
{
    let mut o: Vec<(String, JsonValue)> = Vec::new();
    o.push(member("participant_id", text(&c.participant_id)));
    o.push(member("role", name(role_name(c.role))));
    JsonValue::Object(o)
}

/// An array of role change objects.
fn role_changes_json(cs: &Vec<RoleChange>) -> (r: JsonValue)
    ensures
        spec_is_role_changes(r, cs@),
{
    let mut items: Vec<JsonValue> = Vec::new();
    for i in 0..cs.len()
        invariant
            items@.len() == i,
            forall|k: int| 0 <= k < i ==> #[trigger] spec_is_role_change_json(items@[k], cs@[k]),
    {
        items.push(role_change_json(&cs[i]));
    }
    JsonValue::Array(items)
}

/// `j` is the JSON form of `f`: an object whose first member `kind` names
/// the frame in camel case, followed by the frame's fields under their
/// names, in order; enumerations by their snake-case names, absent options
/// as `null`, lists as arrays.
pub open spec fn spec_encoded(f: ProtocolFrame, j: JsonValue) -> bool {
    j matches JsonValue::Object(entries) && {
        let o = entries@;
        match f {
            ProtocolFrame::Handshake { room_id, participant_id, participant_name, wallet_identity, resume_token, preferred_profile, hdr_capture, hdr_render, sent_at_ms } => {
                &&& o.len() == 10
                &&& o[0].0@ == "kind"@
                &&& spec_is_text(o[0].1, "handshake"@)
                &&& o[1].0@ == "room_id"@
                &&& spec_is_text(o[1].1, room_id@)
                &&& o[2].0@ == "participant_id"@
                &&& spec_is_text(o[2].1, participant_id@)
                &&& o[3].0@ == "participant_name"@
                &&& spec_is_text(o[3].1, participant_name@)
                &&& o[4].0@ == "wallet_identity"@
                &&& spec_is_opt_text(o[4].1, wallet_identity)
                &&& o[5].0@ == "resume_token"@
                &&& spec_is_opt_text(o[5].1, resume_token)
                &&& o[6].0@ == "preferred_profile"@
                &&& spec_is_text(o[6].1, spec_media_profile_name(preferred_profile))
                &&& o[7].0@ == "hdr_capture"@
                &&& o[7].1 == JsonValue::Bool(hdr_capture)
                &&& o[8].0@ == "hdr_render"@
                &&& o[8].1 == JsonValue::Bool(hdr_render)
                &&& o[9].0@ == "sent_at_ms"@
                &&& spec_is_int(o[9].1, sent_at_ms as int)
            },
            ProtocolFrame::HandshakeAck { session_id, resume_token, accepted_at_ms } => {
                &&& o.len() == 4
                &&& o[0].0@ == "kind"@
                &&& spec_is_text(o[0].1, "handshakeAck"@)
                &&& o[1].0@ == "session_id"@
                &&& spec_is_text(o[1].1, session_id@)
                &&& o[2].0@ == "resume_token"@
                &&& spec_is_text(o[2].1, resume_token@)
                &&& o[3].0@ == "accepted_at_ms"@
                &&& spec_is_int(o[3].1, accepted_at_ms as int)
            },
            ProtocolFrame::ParticipantPresenceDelta { joined, left, role_changes, sequence } => {
                &&& o.len() == 5
                &&& o[0].0@ == "kind"@
                &&& spec_is_text(o[0].1, "participantPresenceDelta"@)
                &&& o[1].0@ == "joined"@
                &&& spec_is_participants(o[1].1, joined@)
                &&& o[2].0@ == "left"@
                &&& spec_is_texts(o[2].1, left@)
                &&& o[3].0@ == "role_changes"@
                &&& spec_is_role_changes(o[3].1, role_changes@)
                &&& o[4].0@ == "sequence"@
                &&& spec_is_int(o[4].1, sequence as int)
            },
            ProtocolFrame::RoleGrant { target_participant_id, role, granted_by, signature, issued_at_ms } => {
                &&& o.len() == 6
                &&& o[0].0@ == "kind"@
                &&& spec_is_text(o[0].1, "roleGrant"@)
                &&& o[1].0@ == "target_participant_id"@
                &&& spec_is_text(o[1].1, target_participant_id@)
                &&& o[2].0@ == "role"@
                &&& spec_is_text(o[2].1, spec_role_name(role))
                &&& o[3].0@ == "granted_by"@
                &&& spec_is_text(o[3].1, granted_by@)
                &&& o[4].0@ == "signature"@
                &&& spec_is_opt_text(o[4].1, signature)
                &&& o[5].0@ == "issued_at_ms"@
                &&& spec_is_int(o[5].1, issued_at_ms as int)
            },
            ProtocolFrame::RoleRevoke { target_participant_id, role, revoked_by, signature, issued_at_ms } => {
                &&& o.len() == 6
                &&& o[0].0@ == "kind"@
                &&& spec_is_text(o[0].1, "roleRevoke"@)
                &&& o[1].0@ == "target_participant_id"@
                &&& spec_is_text(o[1].1, target_participant_id@)
                &&& o[2].0@ == "role"@
                &&& spec_is_text(o[2].1, spec_role_name(role))
                &&& o[3].0@ == "revoked_by"@
                &&& spec_is_text(o[3].1, revoked_by@)
                &&& o[4].0@ == "signature"@
                &&& spec_is_opt_text(o[4].1, signature)
                &&& o[5].0@ == "issued_at_ms"@
                &&& spec_is_int(o[5].1, issued_at_ms as int)
            },
            ProtocolFrame::PermissionsSnapshot { participant_id, effective_permissions, epoch } => {
                &&& o.len() == 4
                &&& o[0].0@ == "kind"@
                &&& spec_is_text(o[0].1, "permissionsSnapshot"@)
                &&& o[1].0@ == "participant_id"@
                &&& spec_is_text(o[1].1, participant_id@)
                &&& o[2].0@ == "effective_permissions"@
                &&& spec_is_texts(o[2].1, effective_permissions@)
                &&& o[3].0@ == "epoch"@
                &&& spec_is_int(o[3].1, epoch as int)
            },
            ProtocolFrame::ModerationSigned { target_participant_id, action, issued_by, signature, sent_at_ms } => {
                &&& o.len() == 6
                &&& o[0].0@ == "kind"@
                &&& spec_is_text(o[0].1, "moderationSigned"@)
                &&& o[1].0@ == "target_participant_id"@
                &&& spec_is_text(o[1].1, target_participant_id@)
                &&& o[2].0@ == "action"@
                &&& spec_is_text(o[2].1, spec_action_name(action))
                &&& o[3].0@ == "issued_by"@
                &&& spec_is_text(o[3].1, issued_by@)
                &&& o[4].0@ == "signature"@
                &&& spec_is_opt_text(o[4].1, signature)
                &&& o[5].0@ == "sent_at_ms"@
                &&& spec_is_int(o[5].1, sent_at_ms as int)
            },
            ProtocolFrame::SessionPolicy { room_lock, waiting_room_enabled, recording_policy, guest_policy, e2ee_required, max_participants, policy_epoch, updated_by, signature, updated_at_ms } => {
                &&& o.len() == 11
                &&& o[0].0@ == "kind"@
                &&& spec_is_text(o[0].1, "sessionPolicy"@)
                &&& o[1].0@ == "room_lock"@
                &&& o[1].1 == JsonValue::Bool(room_lock)
                &&& o[2].0@ == "waiting_room_enabled"@
                &&& o[2].1 == JsonValue::Bool(waiting_room_enabled)
                &&& o[3].0@ == "recording_policy"@
                &&& spec_is_text(o[3].1, spec_recording_name(recording_policy))
                &&& o[4].0@ == "guest_policy"@
                &&& spec_is_text(o[4].1, spec_guest_policy_name(guest_policy))
                &&& o[5].0@ == "e2ee_required"@
                &&& o[5].1 == JsonValue::Bool(e2ee_required)
                &&& o[6].0@ == "max_participants"@
                &&& spec_is_int(o[6].1, max_participants as int)
                &&& o[7].0@ == "policy_epoch"@
                &&& spec_is_int(o[7].1, policy_epoch as int)
                &&& o[8].0@ == "updated_by"@
                &&& spec_is_text(o[8].1, updated_by@)
                &&& o[9].0@ == "signature"@
                &&& spec_is_opt_text(o[9].1, signature)
                &&& o[10].0@ == "updated_at_ms"@
                &&& spec_is_int(o[10].1, updated_at_ms as int)
            },
            ProtocolFrame::DeviceCapability { participant_id, codecs, hdr_capture, hdr_render, max_streams, updated_at_ms } => {
                &&& o.len() == 7
                &&& o[0].0@ == "kind"@
                &&& spec_is_text(o[0].1, "deviceCapability"@)
                &&& o[1].0@ == "participant_id"@
                &&& spec_is_text(o[1].1, participant_id@)
                &&& o[2].0@ == "codecs"@
                &&& spec_is_texts(o[2].1, codecs@)
                &&& o[3].0@ == "hdr_capture"@
                &&& o[3].1 == JsonValue::Bool(hdr_capture)
                &&& o[4].0@ == "hdr_render"@
                &&& o[4].1 == JsonValue::Bool(hdr_render)
                &&& o[5].0@ == "max_streams"@
                &&& spec_is_int(o[5].1, max_streams as int)
                &&& o[6].0@ == "updated_at_ms"@
                &&& spec_is_int(o[6].1, updated_at_ms as int)
            },
            ProtocolFrame::MediaProfileNegotiation { preferred_profile, negotiated_profile, color_primaries, transfer_function, codec } => {
                &&& o.len() == 6
                &&& o[0].0@ == "kind"@
                &&& spec_is_text(o[0].1, "mediaProfileNegotiation"@)
                &&& o[1].0@ == "preferred_profile"@
                &&& spec_is_text(o[1].1, spec_media_profile_name(preferred_profile))
                &&& o[2].0@ == "negotiated_profile"@
                &&& spec_is_text(o[2].1, spec_media_profile_name(negotiated_profile))
                &&& o[3].0@ == "color_primaries"@
                &&& spec_is_text(o[3].1, color_primaries@)
                &&& o[4].0@ == "transfer_function"@
                &&& spec_is_text(o[4].1, transfer_function@)
                &&& o[5].0@ == "codec"@
                &&& spec_is_text(o[5].1, codec@)
            },
            ProtocolFrame::RecordingNotice { state, issued_at_ms } => {
                &&& o.len() == 3
                &&& o[0].0@ == "kind"@
                &&& spec_is_text(o[0].1, "recordingNotice"@)
                &&& o[1].0@ == "state"@
                &&& spec_is_text(o[1].1, spec_recording_name(state))
                &&& o[2].0@ == "issued_at_ms"@
                &&& spec_is_int(o[2].1, issued_at_ms as int)
            },
            ProtocolFrame::E2eeKeyEpoch { epoch, issued_by, signature, sent_at_ms } => {
                &&& o.len() == 5
                &&& o[0].0@ == "kind"@
                &&& spec_is_text(o[0].1, "e2eeKeyEpoch"@)
                &&& o[1].0@ == "epoch"@
                &&& spec_is_int(o[1].1, epoch as int)
                &&& o[2].0@ == "issued_by"@
                &&& spec_is_text(o[2].1, issued_by@)
                &&& o[3].0@ == "signature"@
                &&& spec_is_opt_text(o[3].1, signature)
                &&& o[4].0@ == "sent_at_ms"@
                &&& spec_is_int(o[4].1, sent_at_ms as int)
            },
            ProtocolFrame::KeyRotationAck { ack_epoch, participant_id, sent_at_ms } => {
                &&& o.len() == 4
                &&& o[0].0@ == "kind"@
                &&& spec_is_text(o[0].1, "keyRotationAck"@)
                &&& o[1].0@ == "ack_epoch"@
                &&& spec_is_int(o[1].1, ack_epoch as int)
                &&& o[2].0@ == "participant_id"@
                &&& spec_is_text(o[2].1, participant_id@)
                &&& o[3].0@ == "sent_at_ms"@
                &&& spec_is_int(o[3].1, sent_at_ms as int)
            },
            ProtocolFrame::PaymentPolicy { required, destination_account } => {
                &&& o.len() == 3
                &&& o[0].0@ == "kind"@
                &&& spec_is_text(o[0].1, "paymentPolicy"@)
                &&& o[1].0@ == "required"@
                &&& o[1].1 == JsonValue::Bool(required)
                &&& o[2].0@ == "destination_account"@
                &&& spec_is_opt_text(o[2].1, destination_account)
            },
            ProtocolFrame::PaymentSettlement { status } => {
                &&& o.len() == 2
                &&& o[0].0@ == "kind"@
                &&& spec_is_text(o[0].1, "paymentSettlement"@)
                &&& o[1].0@ == "status"@
                &&& spec_is_text(o[1].1, spec_settlement_name(status))
            },
            ProtocolFrame::Error { category, code, message } => {
                &&& o.len() == 4
                &&& o[0].0@ == "kind"@
                &&& spec_is_text(o[0].1, "error"@)
                &&& o[1].0@ == "category"@
                &&& spec_is_text(o[1].1, spec_category_name(category))
                &&& o[2].0@ == "code"@
                &&& spec_is_text(o[2].1, code@)
                &&& o[3].0@ == "message"@
                &&& spec_is_text(o[3].1, message@)
            },
            ProtocolFrame::Ping { sent_at_ms } => {
                &&& o.len() == 2
                &&& o[0].0@ == "kind"@
                &&& spec_is_text(o[0].1, "ping"@)
                &&& o[1].0@ == "sent_at_ms"@
                &&& spec_is_int(o[1].1, sent_at_ms as int)
            },
            ProtocolFrame::Pong { sent_at_ms } => {
                &&& o.len() == 2
                &&& o[0].0@ == "kind"@
                &&& spec_is_text(o[0].1, "pong"@)
                &&& o[1].0@ == "sent_at_ms"@
                &&& spec_is_int(o[1].1, sent_at_ms as int)
            },
        }
    }
}

/// The JSON form of a frame.
pub fn encode_frame_value(frame: &ProtocolFrame) -> (r: JsonValue)
    ensures
        spec_encoded(*frame, r),
{
    match frame {
        ProtocolFrame::Handshake { room_id, participant_id, participant_name, wallet_identity, resume_token, preferred_profile, hdr_capture, hdr_render, sent_at_ms } => {
            let mut o: Vec<(String, JsonValue)> = Vec::new();
            o.push(member("kind", name("handshake")));
            o.push(member("room_id", text(room_id)));
            o.push(member("participant_id", text(participant_id)));
            o.push(member("participant_name", text(participant_name)));
            o.push(member("wallet_identity", opt_text_json(wallet_identity)));
            o.push(member("resume_token", opt_text_json(resume_token)));
            o.push(member("preferred_profile", name(media_profile_name(*preferred_profile))));
            o.push(member("hdr_capture", JsonValue::Bool(*hdr_capture)));
            o.push(member("hdr_render", JsonValue::Bool(*hdr_render)));
            o.push(member("sent_at_ms", number(*sent_at_ms)));
            JsonValue::Object(o)
        },
        ProtocolFrame::HandshakeAck { session_id, resume_token, accepted_at_ms } => {
            let mut o: Vec<(String, JsonValue)> = Vec::new();
            o.push(member("kind", name("handshakeAck")));
            o.push(member("session_id", text(session_id)));
            o.push(member("resume_token", text(resume_token)));
            o.push(member("accepted_at_ms", number(*accepted_at_ms)));
            JsonValue::Object(o)
        },
        ProtocolFrame::ParticipantPresenceDelta { joined, left, role_changes, sequence } => {
            let mut o: Vec<(String, JsonValue)> = Vec::new();
            o.push(member("kind", name("participantPresenceDelta")));
            o.push(member("joined", participants_json(joined)));
            o.push(member("left", texts_json(left)));
            o.push(member("role_changes", role_changes_json(role_changes)));
            o.push(member("sequence", number(*sequence)));
            JsonValue::Object(o)
        },
        ProtocolFrame::RoleGrant { target_participant_id, role, granted_by, signature, issued_at_ms } => {
            let mut o: Vec<(String, JsonValue)> = Vec::new();
            o.push(member("kind", name("roleGrant")));
            o.push(member("target_participant_id", text(target_participant_id)));
            o.push(member("role", name(role_name(*role))));
            o.push(member("granted_by", text(granted_by)));
            o.push(member("signature", opt_text_json(signature)));
            o.push(member("issued_at_ms", number(*issued_at_ms)));
            JsonValue::Object(o)
        },
        ProtocolFrame::RoleRevoke { target_participant_id, role, revoked_by, signature, issued_at_ms } => {
            let mut o: Vec<(String, JsonValue)> = Vec::new();
            o.push(member("kind", name("roleRevoke")));
            o.push(member("target_participant_id", text(target_participant_id)));
            o.push(member("role", name(role_name(*role))));
            o.push(member("revoked_by", text(revoked_by)));
            o.push(member("signature", opt_text_json(signature)));
            o.push(member("issued_at_ms", number(*issued_at_ms)));
            JsonValue::Object(o)
        },
        ProtocolFrame::PermissionsSnapshot { participant_id, effective_permissions, epoch } => {
            let mut o: Vec<(String, JsonValue)> = Vec::new();
            o.push(member("kind", name("permissionsSnapshot")));
            o.push(member("participant_id", text(participant_id)));
            o.push(member("effective_permissions", texts_json(effective_permissions)));
            o.push(member("epoch", number(*epoch as i64)));
            JsonValue::Object(o)
        },
        ProtocolFrame::ModerationSigned { target_participant_id, action, issued_by, signature, sent_at_ms } => {
            let mut o: Vec<(String, JsonValue)> = Vec::new();
            o.push(member("kind", name("moderationSigned")));
            o.push(member("target_participant_id", text(target_participant_id)));
            o.push(member("action", name(action_name(*action))));
            o.push(member("issued_by", text(issued_by)));
            o.push(member("signature", opt_text_json(signature)));
            o.push(member("sent_at_ms", number(*sent_at_ms)));
            JsonValue::Object(o)
        },
        ProtocolFrame::SessionPolicy { room_lock, waiting_room_enabled, recording_policy, guest_policy, e2ee_required, max_participants, policy_epoch, updated_by, signature, updated_at_ms } => {
            let mut o: Vec<(String, JsonValue)> = Vec::new();
            o.push(member("kind", name("sessionPolicy")));
            o.push(member("room_lock", JsonValue::Bool(*room_lock)));
            o.push(member("waiting_room_enabled", JsonValue::Bool(*waiting_room_enabled)));
            o.push(member("recording_policy", name(recording_name(*recording_policy))));
            o.push(member("guest_policy", name(guest_policy_name(*guest_policy))));
            o.push(member("e2ee_required", JsonValue::Bool(*e2ee_required)));
            o.push(member("max_participants", number(*max_participants as i64)));
            o.push(member("policy_epoch", number(*policy_epoch as i64)));
            o.push(member("updated_by", text(updated_by)));
            o.push(member("signature", opt_text_json(signature)));
            o.push(member("updated_at_ms", number(*updated_at_ms)));
            JsonValue::Object(o)
        },
        ProtocolFrame::DeviceCapability { participant_id, codecs, hdr_capture, hdr_render, max_streams, updated_at_ms } => {
            let mut o: Vec<(String, JsonValue)> = Vec::new();
            o.push(member("kind", name("deviceCapability")));
            o.push(member("participant_id", text(participant_id)));
            o.push(member("codecs", texts_json(codecs)));
            o.push(member("hdr_capture", JsonValue::Bool(*hdr_capture)));
            o.push(member("hdr_render", JsonValue::Bool(*hdr_render)));
            o.push(member("max_streams", number(*max_streams as i64)));
            o.push(member("updated_at_ms", number(*updated_at_ms)));
            JsonValue::Object(o)
        },
        ProtocolFrame::MediaProfileNegotiation { preferred_profile, negotiated_profile, color_primaries, transfer_function, codec } => {
            let mut o: Vec<(String, JsonValue)> = Vec::new();
            o.push(member("kind", name("mediaProfileNegotiation")));
            o.push(member("preferred_profile", name(media_profile_name(*preferred_profile))));
            o.push(member("negotiated_profile", name(media_profile_name(*negotiated_profile))));
            o.push(member("color_primaries", text(color_primaries)));
            o.push(member("transfer_function", text(transfer_function)));
            o.push(member("codec", text(codec)));
            JsonValue::Object(o)
        },
        ProtocolFrame::RecordingNotice { state, issued_at_ms } => {
            let mut o: Vec<(String, JsonValue)> = Vec::new();
            o.push(member("kind", name("recordingNotice")));
            o.push(member("state", name(recording_name(*state))));
            o.push(member("issued_at_ms", number(*issued_at_ms)));
            JsonValue::Object(o)
        },
        ProtocolFrame::E2eeKeyEpoch { epoch, issued_by, signature, sent_at_ms } => {
            let mut o: Vec<(String, JsonValue)> = Vec::new();
            o.push(member("kind", name("e2eeKeyEpoch")));
            o.push(member("epoch", number(*epoch as i64)));
            o.push(member("issued_by", text(issued_by)));
            o.push(member("signature", opt_text_json(signature)));
            o.push(member("sent_at_ms", number(*sent_at_ms)));
            JsonValue::Object(o)
        },
        ProtocolFrame::KeyRotationAck { ack_epoch, participant_id, sent_at_ms } => {
            let mut o: Vec<(String, JsonValue)> = Vec::new();
            o.push(member("kind", name("keyRotationAck")));
            o.push(member("ack_epoch", number(*ack_epoch as i64)));
            o.push(member("participant_id", text(participant_id)));
            o.push(member("sent_at_ms", number(*sent_at_ms)));
            JsonValue::Object(o)
        },
        ProtocolFrame::PaymentPolicy { required, destination_account } => {
            let mut o: Vec<(String, JsonValue)> = Vec::new();
            o.push(member("kind", name("paymentPolicy")));
            o.push(member("required", JsonValue::Bool(*required)));
            o.push(member("destination_account", opt_text_json(destination_account)));
            JsonValue::Object(o)
        },
        ProtocolFrame::PaymentSettlement { status } => {
            let mut o: Vec<(String, JsonValue)> = Vec::new();
            o.push(member("kind", name("paymentSettlement")));
            o.push(member("status", name(settlement_name(*status))));
            JsonValue::Object(o)
        },
        ProtocolFrame::Error { category, code, message } => {
            let mut o: Vec<(String, JsonValue)> = Vec::new();
            o.push(member("kind", name("error")));
            o.push(member("category", name(category_name(*category))));
            o.push(member("code", text(code)));
            o.push(member("message", text(message)));
            JsonValue::Object(o)
        },
        ProtocolFrame::Ping { sent_at_ms } => {
            let mut o: Vec<(String, JsonValue)> = Vec::new();
            o.push(member("kind", name("ping")));
            o.push(member("sent_at_ms", number(*sent_at_ms)));
            JsonValue::Object(o)
        },
        ProtocolFrame::Pong { sent_at_ms } => {
            let mut o: Vec<(String, JsonValue)> = Vec::new();
            o.push(member("kind", name("pong")));
            o.push(member("sent_at_ms", number(*sent_at_ms)));
            JsonValue::Object(o)
        },
    }
}

} // verus!
