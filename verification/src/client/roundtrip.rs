//! Reading back what was written: the frame decoder, given the JSON form of
//! a frame, gives back that frame.
use vstd::prelude::*;
use crate::client::decode::{
    spec_canonical_kind, spec_decode_frame_value, spec_decode_kind, spec_device_capability,
    spec_e2ee_key_epoch, spec_error_frame, spec_handshake, spec_handshake_ack, spec_is_participant,
    spec_key_rotation_ack, spec_media_profile_negotiation, spec_moderation_signed,
    spec_payment_policy, spec_payment_settlement, spec_permissions_snapshot, spec_ping, spec_pong,
    spec_presence_delta, spec_recording_notice, spec_role_grant, spec_role_revoke,
    spec_session_policy, spec_is_role_change, spec_parse_media_profile,
    spec_parse_moderation_action, spec_parse_participant_role,
    spec_parse_payment_settlement_status, spec_parse_recording_state, spec_parse_guest_policy,
    spec_parse_session_error_category, spec_participant, spec_participants, spec_role_change,
    spec_role_changes, text_views,
};
use crate::client::encode::{
    spec_action_name, spec_category_name, spec_encoded, spec_guest_policy_name, spec_is_participant_json,
    spec_is_role_change_json, spec_is_text, spec_media_profile_name, spec_recording_name,
    spec_role_name, spec_settlement_name,
};
use crate::client::json::{key_names, spec_lookup, spec_payload_or_root, spec_texts, JsonValue};
use crate::client::protocol::{CodecError, ProtocolFrame};
use crate::client::types::{
    participant_views, role_change_views,
    GuestPolicy, MediaProfile, ModerationAction, Participant, ParticipantRole,
    PaymentSettlementStatus, RecordingState, RoleChange, SessionErrorCategory,
};

verus! {

broadcast use vstd::string::group_string_axioms;

/// Reading a MediaProfile back from its name gives it.
proof fn lemma_media_profile_name(p: MediaProfile)
    ensures
        spec_parse_media_profile(Some(spec_media_profile_name(p))) == p,
{
    reveal_strlit("hdr");
    reveal_strlit("sdr");
    assert("hdr"@.len() == 3 && "sdr"@.len() == 3 && "hdr"@[0] == 'h' && "sdr"@[0] == 's');
}

/// Reading a ParticipantRole back from its name gives it.
proof fn lemma_role_name(r: ParticipantRole)
    ensures
        spec_parse_participant_role(Some(spec_role_name(r))) == r,
{
    reveal_strlit("coHost");
    reveal_strlit("co_host");
    reveal_strlit("guest");
    reveal_strlit("host");
    reveal_strlit("participant");
    assert("coHost"@.len() == 6 && "co_host"@.len() == 7 && "guest"@.len() == 5 && "host"@.len() == 4 && "participant"@.len() == 11);
}

/// Reading a ModerationAction back from its name gives it.
proof fn lemma_action_name(a: ModerationAction)
    ensures
        spec_parse_moderation_action(Some(spec_action_name(a))) == a,
{
    reveal_strlit("admitFromWaiting");
    reveal_strlit("admit_from_waiting");
    reveal_strlit("denyFromWaiting");
    reveal_strlit("deny_from_waiting");
    reveal_strlit("kick");
    reveal_strlit("mute");
    reveal_strlit("stopShare");
    reveal_strlit("stop_share");
    reveal_strlit("videoOff");
    reveal_strlit("video_off");
    assert("admitFromWaiting"@.len() == 16 && "admit_from_waiting"@.len() == 18 && "denyFromWaiting"@.len() == 15 && "deny_from_waiting"@.len() == 17 && "kick"@.len() == 4 && "mute"@.len() == 4 && "stopShare"@.len() == 9 && "stop_share"@.len() == 10 && "videoOff"@.len() == 8 && "video_off"@.len() == 9 && "kick"@[0] == 'k' && "mute"@[0] == 'm');
}

/// The camel-case name of a moderation action.
pub open spec fn spec_action_camel_name(a: ModerationAction) -> Seq<char> {
    match a {
        ModerationAction::Mute => "mute"@,
        ModerationAction::VideoOff => "videoOff"@,
        ModerationAction::StopShare => "stopShare"@,
        ModerationAction::Kick => "kick"@,
        ModerationAction::AdmitFromWaiting => "admitFromWaiting"@,
        ModerationAction::DenyFromWaiting => "denyFromWaiting"@,
    }
}

/// A moderation action is read from either spelling of its name, camel
/// case or snake case; an absent name reads as a mute, and a name that is
/// neither spelling of any action reads as a mute too.
pub proof fn lemma_action_read_from_either_spelling(a: ModerationAction, v: Seq<char>)
    ensures
        spec_parse_moderation_action(Some(spec_action_camel_name(a))) == a,
        spec_parse_moderation_action(Some(spec_action_name(a))) == a,
        spec_parse_moderation_action(None) == ModerationAction::Mute,
        spec_parse_moderation_action(Some(v)) != ModerationAction::Mute ==> (v
            == spec_action_camel_name(spec_parse_moderation_action(Some(v))) || v == spec_action_name(
            spec_parse_moderation_action(Some(v)),
        )),
{
    lemma_action_name(a);
    reveal_strlit("admitFromWaiting");
    reveal_strlit("admit_from_waiting");
    reveal_strlit("denyFromWaiting");
    reveal_strlit("deny_from_waiting");
    reveal_strlit("kick");
    reveal_strlit("mute");
    reveal_strlit("stopShare");
    reveal_strlit("stop_share");
    reveal_strlit("videoOff");
    reveal_strlit("video_off");
    assert("admitFromWaiting"@.len() == 16 && "admit_from_waiting"@.len() == 18 && "denyFromWaiting"@.len() == 15 && "deny_from_waiting"@.len() == 17 && "kick"@.len() == 4 && "mute"@.len() == 4 && "stopShare"@.len() == 9 && "stop_share"@.len() == 10 && "videoOff"@.len() == 8 && "video_off"@.len() == 9 && "kick"@[0] == 'k' && "mute"@[0] == 'm' && "stopShare"@[0] == 's' && "video_off"@[0] == 'v');
}

/// Reading a RecordingState back from its name gives it.
proof fn lemma_recording_name(s: RecordingState)
    ensures
        spec_parse_recording_state(Some(spec_recording_name(s))) == s,
{
    reveal_strlit("started");
    reveal_strlit("stopped");
    assert("started"@.len() == 7 && "stopped"@.len() == 7 && "started"@[2] == 'a' && "stopped"@[2] == 'o');
}

/// Reading a GuestPolicy back from its name gives it.
proof fn lemma_guest_policy_name(g: GuestPolicy)
    ensures
        spec_parse_guest_policy(Some(spec_guest_policy_name(g))) == g,
{
    reveal_strlit("blocked");
    reveal_strlit("inviteOnly");
    reveal_strlit("invite_only");
    reveal_strlit("open");
    assert("blocked"@.len() == 7 && "inviteOnly"@.len() == 10 && "invite_only"@.len() == 11 && "open"@.len() == 4);
}

/// Reading a PaymentSettlementStatus back from its name gives it.
proof fn lemma_settlement_name(s: PaymentSettlementStatus)
    ensures
        spec_parse_payment_settlement_status(Some(spec_settlement_name(s))) == s,
{
    reveal_strlit("blocked");
    reveal_strlit("not_required");
    reveal_strlit("pending");
    reveal_strlit("settled");
    assert("blocked"@.len() == 7 && "not_required"@.len() == 12 && "pending"@.len() == 7 && "settled"@.len() == 7 && "blocked"@[0] == 'b' && "pending"@[0] == 'p' && "settled"@[0] == 's');
}

/// Reading a SessionErrorCategory back from its name gives it.
proof fn lemma_category_name(c: SessionErrorCategory)
    ensures
        spec_parse_session_error_category(Some(spec_category_name(c))) == c,
{
    reveal_strlit("policyFailure");
    reveal_strlit("policy_failure");
    reveal_strlit("protocol_failure");
    reveal_strlit("transportFailure");
    reveal_strlit("transport_failure");
    assert("policyFailure"@.len() == 13 && "policy_failure"@.len() == 14 && "protocol_failure"@.len() == 16 && "transportFailure"@.len() == 16 && "transport_failure"@.len() == 17 && "protocol_failure"@[0] == 'p' && "transportFailure"@[0] == 't');
}

/// The camel-case name of a role.
pub open spec fn spec_role_camel_name(r: ParticipantRole) -> Seq<char> {
    match r {
        ParticipantRole::Host => "host"@,
        ParticipantRole::CoHost => "coHost"@,
        ParticipantRole::Participant => "participant"@,
        ParticipantRole::Guest => "guest"@,
    }
}

/// A role is read from either spelling of its name; an absent name reads
/// as a plain participant.
pub proof fn lemma_role_read_from_either_spelling(r: ParticipantRole)
    ensures
        spec_parse_participant_role(Some(spec_role_camel_name(r))) == r,
        spec_parse_participant_role(Some(spec_role_name(r))) == r,
        spec_parse_participant_role(None) == ParticipantRole::Participant,
{
    lemma_role_name(r);
    reveal_strlit("coHost");
    reveal_strlit("co_host");
    reveal_strlit("guest");
    reveal_strlit("host");
    reveal_strlit("participant");
    assert("coHost"@.len() == 6 && "co_host"@.len() == 7 && "guest"@.len() == 5 && "host"@.len() == 4 && "participant"@.len() == 11);
}

/// The camel-case name of a guest policy.
pub open spec fn spec_guest_policy_camel_name(g: GuestPolicy) -> Seq<char> {
    match g {
        GuestPolicy::Open => "open"@,
        GuestPolicy::InviteOnly => "inviteOnly"@,
        GuestPolicy::Blocked => "blocked"@,
    }
}

/// A guest policy is read from either spelling of its name; an absent name
/// reads as open.
pub proof fn lemma_guest_policy_read_from_either_spelling(g: GuestPolicy)
    ensures
        spec_parse_guest_policy(Some(spec_guest_policy_camel_name(g))) == g,
        spec_parse_guest_policy(Some(spec_guest_policy_name(g))) == g,
        spec_parse_guest_policy(None) == GuestPolicy::Open,
{
    lemma_guest_policy_name(g);
    reveal_strlit("blocked");
    reveal_strlit("inviteOnly");
    reveal_strlit("invite_only");
    reveal_strlit("open");
    assert("blocked"@.len() == 7 && "inviteOnly"@.len() == 10 && "invite_only"@.len() == 11 && "open"@.len() == 4);
}

/// The camel-case name of an error category.
pub open spec fn spec_category_camel_name(c: SessionErrorCategory) -> Seq<char> {
    match c {
        SessionErrorCategory::ProtocolFailure => "protocolFailure"@,
        SessionErrorCategory::PolicyFailure => "policyFailure"@,
        SessionErrorCategory::TransportFailure => "transportFailure"@,
    }
}

/// An error category is read from either spelling of its name; an absent
/// name reads as a protocol failure.
pub proof fn lemma_category_read_from_either_spelling(c: SessionErrorCategory)
    ensures
        spec_parse_session_error_category(Some(spec_category_camel_name(c))) == c,
        spec_parse_session_error_category(Some(spec_category_name(c))) == c,
        spec_parse_session_error_category(None) == SessionErrorCategory::ProtocolFailure,
{
    lemma_category_name(c);
    reveal_strlit("policyFailure");
    reveal_strlit("policy_failure");
    reveal_strlit("protocolFailure");
    reveal_strlit("protocol_failure");
    reveal_strlit("transportFailure");
    reveal_strlit("transport_failure");
    assert("policyFailure"@.len() == 13 && "policy_failure"@.len() == 14 && "protocolFailure"@.len() == 15 && "protocol_failure"@.len() == 16 && "transportFailure"@.len() == 16 && "transport_failure"@.len() == 17 && "protocol_failure"@[0] == 'p' && "transportFailure"@[0] == 't');
}

/// The texts of values that are all strings are their texts.
proof fn lemma_texts_of_strings(items: Seq<JsonValue>, ts: Seq<String>)
    requires
        items.len() == ts.len(),
        forall|i: int| 0 <= i < ts.len() ==> #[trigger] spec_is_text(items[i], ts[i]@),
    ensures
        spec_texts(items) == text_views(ts),
    decreases items.len(),
{
    if items.len() > 0 {
        let n = items.len() - 1;
        assert(spec_is_text(items[n], ts[n]@));
        lemma_texts_of_strings(items.drop_last(), ts.drop_last());
        assert(text_views(ts) =~= text_views(ts.drop_last()).push(ts[n]@));
    }
}

/// Reading back an array of strings gives the same texts.
proof fn lemma_texts_read_back(items: Seq<JsonValue>, ts: Seq<String>, out: Seq<String>)
    requires
        items.len() == ts.len(),
        forall|i: int| 0 <= i < ts.len() ==> #[trigger] spec_is_text(items[i], ts[i]@),
        text_views(out) == spec_texts(items),
    ensures
        out.len() == items.len(),
        forall|i: int| 0 <= i < out.len() ==> #[trigger] spec_is_text(items[i], out[i]@),
        text_views(out) == text_views(ts),
{
    lemma_texts_of_strings(items, ts);
    assert(text_views(out).len() == text_views(ts).len());
    assert forall|i: int| 0 <= i < out.len() implies #[trigger] spec_is_text(items[i], out[i]@) by {
        assert(text_views(out)[i] == text_views(ts)[i]);
        assert(spec_is_text(items[i], ts[i]@));
    }
}

/// Reading back the object of a participant gives a participant with the
/// same object.
proof fn lemma_participant_read_back(v: JsonValue, p: Participant)
    requires
        spec_is_participant_json(v, p),
    ensures
        spec_is_participant(v),
        forall|q: Participant| spec_participant(v, q) ==> spec_is_participant_json(v, q),
        forall|q: Participant| #[trigger] spec_is_participant_json(v, q) ==> q@ == p@,
{
    assert forall|q: Participant| #[trigger] spec_is_participant_json(v, q) implies q@ == p@ by {
        lemma_role_name(q.role);
        lemma_role_name(p.role);
    }
    reveal_strlit("display_name");
    reveal_strlit("id");
    reveal_strlit("muted");
    reveal_strlit("role");
    reveal_strlit("share_enabled");
    reveal_strlit("video_enabled");
    reveal_strlit("waiting_room");
    assert("display_name"@.len() == 12 && "id"@.len() == 2 && "muted"@.len() == 5 && "role"@.len() == 4 && "share_enabled"@.len() == 13 && "video_enabled"@.len() == 13 && "waiting_room"@.len() == 12 && "display_name"@[0] == 'd' && "share_enabled"@[0] == 's' && "video_enabled"@[0] == 'v' && "waiting_room"@[0] == 'w');
    reveal_with_fuel(spec_lookup, 8);
    lemma_role_name(p.role);
}

/// Reading back an array of participant objects gives participants with the
/// same objects.
proof fn lemma_participants_read_back(items: Seq<JsonValue>, ps: Seq<Participant>, out: Seq<Participant>)
    requires
        items.len() == ps.len(),
        forall|i: int| 0 <= i < ps.len() ==> #[trigger] spec_is_participant_json(items[i], ps[i]),
        spec_participants(items, out),
    ensures
        out.len() == items.len(),
        forall|i: int| 0 <= i < out.len() ==> #[trigger] spec_is_participant_json(items[i], out[i]),
        participant_views(out) == participant_views(ps),
    decreases items.len(),
{
    if items.len() > 0 {
        let n = items.len() - 1;
        assert(spec_is_participant_json(items[n], ps[n]));
        lemma_participant_read_back(items[n], ps[n]);
        assert forall|i: int| 0 <= i < n implies #[trigger] spec_is_participant_json(
            items.drop_last()[i],
            ps.drop_last()[i],
        ) by {
            assert(spec_is_participant_json(items[i], ps[i]));
        }
        lemma_participants_read_back(items.drop_last(), ps.drop_last(), out.drop_last());
        assert forall|i: int| 0 <= i < out.len() implies #[trigger] spec_is_participant_json(
            items[i],
            out[i],
        ) by {
            if i < n {
                assert(spec_is_participant_json(items.drop_last()[i], out.drop_last()[i]));
            }
        }
        assert forall|i: int| 0 <= i < out.len() implies #[trigger] participant_views(out)[i]
            == participant_views(ps)[i] by {
            if i < n {
                assert(participant_views(out.drop_last())[i] == participant_views(ps.drop_last())[i]);
                assert(out.drop_last()[i] == out[i]);
                assert(ps.drop_last()[i] == ps[i]);
            } else {
                assert(spec_is_participant_json(items[n], out[n]));
            }
        }
        assert(participant_views(out) =~= participant_views(ps));
    } else {
        assert(participant_views(out) =~= participant_views(ps));
    }
}

/// Reading back the object of a role change gives a role change with the
/// same object.
proof fn lemma_role_change_read_back(v: JsonValue, c: RoleChange)
    requires
        spec_is_role_change_json(v, c),
    ensures
        spec_is_role_change(v),
        forall|d: RoleChange| spec_role_change(v, d) ==> spec_is_role_change_json(v, d),
        forall|d: RoleChange| #[trigger] spec_is_role_change_json(v, d) ==> d@ == c@,
{
    assert forall|d: RoleChange| #[trigger] spec_is_role_change_json(v, d) implies d@ == c@ by {
        lemma_role_name(d.role);
        lemma_role_name(c.role);
    }
    reveal_strlit("participant_id");
    reveal_strlit("role");
    assert("participant_id"@.len() == 14 && "role"@.len() == 4);
    reveal_with_fuel(spec_lookup, 3);
    lemma_role_name(c.role);
}

/// Reading back an array of role change objects gives role changes with the
/// same objects.
proof fn lemma_role_changes_read_back(items: Seq<JsonValue>, cs: Seq<RoleChange>, out: Seq<RoleChange>)
    requires
        items.len() == cs.len(),
        forall|i: int| 0 <= i < cs.len() ==> #[trigger] spec_is_role_change_json(items[i], cs[i]),
        spec_role_changes(items, out),
    ensures
        out.len() == items.len(),
        forall|i: int| 0 <= i < out.len() ==> #[trigger] spec_is_role_change_json(items[i], out[i]),
        role_change_views(out) == role_change_views(cs),
    decreases items.len(),
{
    if items.len() > 0 {
        let n = items.len() - 1;
        assert(spec_is_role_change_json(items[n], cs[n]));
        lemma_role_change_read_back(items[n], cs[n]);
        assert forall|i: int| 0 <= i < n implies #[trigger] spec_is_role_change_json(
            items.drop_last()[i],
            cs.drop_last()[i],
        ) by {
            assert(spec_is_role_change_json(items[i], cs[i]));
        }
        lemma_role_changes_read_back(items.drop_last(), cs.drop_last(), out.drop_last());
        assert forall|i: int| 0 <= i < out.len() implies #[trigger] spec_is_role_change_json(
            items[i],
            out[i],
        ) by {
            if i < n {
                assert(spec_is_role_change_json(items.drop_last()[i], out.drop_last()[i]));
            }
        }
        assert forall|i: int| 0 <= i < out.len() implies #[trigger] role_change_views(out)[i]
            == role_change_views(cs)[i] by {
            if i < n {
                assert(role_change_views(out.drop_last())[i] == role_change_views(cs.drop_last())[i]);
                assert(out.drop_last()[i] == out[i]);
                assert(cs.drop_last()[i] == cs[i]);
            } else {
                assert(spec_is_role_change_json(items[n], out[n]));
            }
        }
        assert(role_change_views(out) =~= role_change_views(cs));
    } else {
        assert(role_change_views(out) =~= role_change_views(cs));
    }
}

/// Each camel-case kind is its own canonical name, and decoding under it
/// reads the frame of that kind from its payload.
proof fn lemma_kinds_dispatch()
    ensures
        spec_canonical_kind("handshake"@) == "handshake"@,
        spec_canonical_kind("handshakeAck"@) == "handshakeAck"@,
        spec_canonical_kind("participantPresenceDelta"@) == "participantPresenceDelta"@,
        spec_canonical_kind("roleGrant"@) == "roleGrant"@,
        spec_canonical_kind("roleRevoke"@) == "roleRevoke"@,
        spec_canonical_kind("permissionsSnapshot"@) == "permissionsSnapshot"@,
        spec_canonical_kind("moderationSigned"@) == "moderationSigned"@,
        spec_canonical_kind("sessionPolicy"@) == "sessionPolicy"@,
        spec_canonical_kind("deviceCapability"@) == "deviceCapability"@,
        spec_canonical_kind("mediaProfileNegotiation"@) == "mediaProfileNegotiation"@,
        spec_canonical_kind("recordingNotice"@) == "recordingNotice"@,
        spec_canonical_kind("e2eeKeyEpoch"@) == "e2eeKeyEpoch"@,
        spec_canonical_kind("keyRotationAck"@) == "keyRotationAck"@,
        spec_canonical_kind("paymentPolicy"@) == "paymentPolicy"@,
        spec_canonical_kind("paymentSettlement"@) == "paymentSettlement"@,
        spec_canonical_kind("ping"@) == "ping"@,
        spec_canonical_kind("pong"@) == "pong"@,
        spec_canonical_kind("error"@) == "error"@,
        forall|root: Seq<(String, JsonValue)>, r: Result<ProtocolFrame, CodecError>|
            #[trigger] spec_decode_kind(root, "handshake"@, r) == spec_handshake(
                spec_payload_or_root(root, key_names(["handshake"]@)),
                r,
            ),
        forall|root: Seq<(String, JsonValue)>, r: Result<ProtocolFrame, CodecError>|
            #[trigger] spec_decode_kind(root, "handshakeAck"@, r) == spec_handshake_ack(
                spec_payload_or_root(root, key_names(seq!["handshakeAck", "handshake_ack"])),
                r,
            ),
        forall|root: Seq<(String, JsonValue)>, r: Result<ProtocolFrame, CodecError>|
            #[trigger] spec_decode_kind(root, "participantPresenceDelta"@, r) == spec_presence_delta(
                spec_payload_or_root(root, key_names(seq!["presenceDelta", "participantPresenceDelta", "participant_presence_delta"])),
                r,
            ),
        forall|root: Seq<(String, JsonValue)>, r: Result<ProtocolFrame, CodecError>|
            #[trigger] spec_decode_kind(root, "roleGrant"@, r) == spec_role_grant(
                spec_payload_or_root(root, key_names(seq!["roleGrant", "role_grant"])),
                r,
            ),
        forall|root: Seq<(String, JsonValue)>, r: Result<ProtocolFrame, CodecError>|
            #[trigger] spec_decode_kind(root, "roleRevoke"@, r) == spec_role_revoke(
                spec_payload_or_root(root, key_names(seq!["roleRevoke", "role_revoke"])),
                r,
            ),
        forall|root: Seq<(String, JsonValue)>, r: Result<ProtocolFrame, CodecError>|
            #[trigger] spec_decode_kind(root, "permissionsSnapshot"@, r) == spec_permissions_snapshot(
                spec_payload_or_root(root, key_names(seq!["permissionsSnapshot", "permissions_snapshot"])),
                r,
            ),
        forall|root: Seq<(String, JsonValue)>, r: Result<ProtocolFrame, CodecError>|
            #[trigger] spec_decode_kind(root, "moderationSigned"@, r) == spec_moderation_signed(
                spec_payload_or_root(root, key_names(seq!["moderationSigned", "moderation_signed"])),
                r,
            ),
        forall|root: Seq<(String, JsonValue)>, r: Result<ProtocolFrame, CodecError>|
            #[trigger] spec_decode_kind(root, "sessionPolicy"@, r) == spec_session_policy(
                spec_payload_or_root(root, key_names(seq!["sessionPolicy", "session_policy"])),
                r,
            ),
        forall|root: Seq<(String, JsonValue)>, r: Result<ProtocolFrame, CodecError>|
            #[trigger] spec_decode_kind(root, "deviceCapability"@, r) == spec_device_capability(
                spec_payload_or_root(root, key_names(seq!["deviceCapability", "device_capability"])),
                r,
            ),
        forall|root: Seq<(String, JsonValue)>, r: Result<ProtocolFrame, CodecError>|
            #[trigger] spec_decode_kind(root, "mediaProfileNegotiation"@, r) == spec_media_profile_negotiation(
                spec_payload_or_root(root, key_names(seq!["mediaProfileNegotiation", "media_profile_negotiation"])),
                r,
            ),
        forall|root: Seq<(String, JsonValue)>, r: Result<ProtocolFrame, CodecError>|
            #[trigger] spec_decode_kind(root, "recordingNotice"@, r) == spec_recording_notice(
                spec_payload_or_root(root, key_names(seq!["recordingNotice", "recording_notice"])),
                r,
            ),
        forall|root: Seq<(String, JsonValue)>, r: Result<ProtocolFrame, CodecError>|
            #[trigger] spec_decode_kind(root, "e2eeKeyEpoch"@, r) == spec_e2ee_key_epoch(
                spec_payload_or_root(root, key_names(seq!["e2eeKeyEpoch", "e2ee_key_epoch"])),
                r,
            ),
        forall|root: Seq<(String, JsonValue)>, r: Result<ProtocolFrame, CodecError>|
            #[trigger] spec_decode_kind(root, "keyRotationAck"@, r) == spec_key_rotation_ack(
                spec_payload_or_root(root, key_names(seq!["keyRotationAck", "key_rotation_ack"])),
                r,
            ),
        forall|root: Seq<(String, JsonValue)>, r: Result<ProtocolFrame, CodecError>|
            #[trigger] spec_decode_kind(root, "paymentPolicy"@, r) == spec_payment_policy(
                spec_payload_or_root(root, key_names(seq!["paymentPolicy", "payment_policy"])),
                r,
            ),
        forall|root: Seq<(String, JsonValue)>, r: Result<ProtocolFrame, CodecError>|
            #[trigger] spec_decode_kind(root, "paymentSettlement"@, r) == spec_payment_settlement(
                spec_payload_or_root(root, key_names(seq!["paymentSettlement", "payment_settlement"])),
                r,
            ),
        forall|root: Seq<(String, JsonValue)>, r: Result<ProtocolFrame, CodecError>|
            #[trigger] spec_decode_kind(root, "ping"@, r) == spec_ping(
                spec_payload_or_root(root, key_names(["ping"]@)),
                r,
            ),
        forall|root: Seq<(String, JsonValue)>, r: Result<ProtocolFrame, CodecError>|
            #[trigger] spec_decode_kind(root, "pong"@, r) == spec_pong(
                spec_payload_or_root(root, key_names(["pong"]@)),
                r,
            ),
        forall|root: Seq<(String, JsonValue)>, r: Result<ProtocolFrame, CodecError>|
            #[trigger] spec_decode_kind(root, "error"@, r) == spec_error_frame(
                spec_payload_or_root(root, key_names(["error"]@)),
                r,
            ),
{
    reveal_strlit("deviceCapability");
    reveal_strlit("device_capability");
    reveal_strlit("e2eeKeyEpoch");
    reveal_strlit("e2ee_key_epoch");
    reveal_strlit("error");
    reveal_strlit("handshake");
    reveal_strlit("handshakeAck");
    reveal_strlit("handshake_ack");
    reveal_strlit("keyRotationAck");
    reveal_strlit("key_rotation_ack");
    reveal_strlit("mediaProfileNegotiation");
    reveal_strlit("media_profile_negotiation");
    reveal_strlit("moderationSigned");
    reveal_strlit("moderation_signed");
    reveal_strlit("participantPresenceDelta");
    reveal_strlit("participant_presence_delta");
    reveal_strlit("paymentPolicy");
    reveal_strlit("paymentSettlement");
    reveal_strlit("payment_policy");
    reveal_strlit("payment_settlement");
    reveal_strlit("permissionsSnapshot");
    reveal_strlit("permissions_snapshot");
    reveal_strlit("ping");
    reveal_strlit("pong");
    reveal_strlit("recordingNotice");
    reveal_strlit("recording_notice");
    reveal_strlit("roleGrant");
    reveal_strlit("roleRevoke");
    reveal_strlit("role_grant");
    reveal_strlit("role_revoke");
    reveal_strlit("sessionPolicy");
    reveal_strlit("session_policy");
    assert("deviceCapability"@.len() == 16 && "device_capability"@.len() == 17 && "e2eeKeyEpoch"@.len() == 12 && "e2ee_key_epoch"@.len() == 14 && "error"@.len() == 5 && "handshake"@.len() == 9 && "handshakeAck"@.len() == 12 && "handshake_ack"@.len() == 13 && "keyRotationAck"@.len() == 14 && "key_rotation_ack"@.len() == 16 && "mediaProfileNegotiation"@.len() == 23 && "media_profile_negotiation"@.len() == 25 && "moderationSigned"@.len() == 16 && "moderation_signed"@.len() == 17 && "participantPresenceDelta"@.len() == 24 && "participant_presence_delta"@.len() == 26 && "paymentPolicy"@.len() == 13 && "paymentSettlement"@.len() == 17 && "payment_policy"@.len() == 14 && "payment_settlement"@.len() == 18 && "permissionsSnapshot"@.len() == 19 && "permissions_snapshot"@.len() == 20 && "ping"@.len() == 4 && "pong"@.len() == 4 && "recordingNotice"@.len() == 15 && "recording_notice"@.len() == 16 && "roleGrant"@.len() == 9 && "roleRevoke"@.len() == 10 && "role_grant"@.len() == 10 && "role_revoke"@.len() == 11 && "sessionPolicy"@.len() == 13 && "session_policy"@.len() == 14 && "deviceCapability"@[0] == 'd' && "device_capability"@[0] == 'd' && "e2eeKeyEpoch"@[0] == 'e' && "e2ee_key_epoch"@[0] == 'e' && "handshake"@[0] == 'h' && "handshakeAck"@[0] == 'h' && "handshake_ack"@[0] == 'h' && "keyRotationAck"@[0] == 'k' && "key_rotation_ack"@[0] == 'k' && "moderationSigned"@[0] == 'm' && "moderation_signed"@[0] == 'm' && "paymentPolicy"@[0] == 'p' && "paymentSettlement"@[0] == 'p' && "payment_policy"@[0] == 'p' && "ping"@[1] == 'i' && "pong"@[1] == 'o' && "recording_notice"@[0] == 'r' && "roleGrant"@[0] == 'r' && "roleRevoke"@[4] == 'R' && "role_grant"@[4] == '_' && "sessionPolicy"@[0] == 's' && "session_policy"@[0] == 's');
}

proof fn lemma_reads_back_handshake(f: ProtocolFrame, j: JsonValue, r: Result<ProtocolFrame, CodecError>)
    requires
        f is Handshake,
        spec_encoded(f, j),
        spec_decode_frame_value(j, r),
    ensures
        r matches Ok(g) && spec_encoded(g, j) && g@ == f@,
{
    let o = j->Object_0@;
    lemma_kinds_dispatch();
    reveal_strlit("handshake");
    reveal_strlit("hdr_capture");
    reveal_strlit("hdr_render");
    reveal_strlit("kind");
    reveal_strlit("participant_id");
    reveal_strlit("participant_name");
    reveal_strlit("preferred_profile");
    reveal_strlit("resume_token");
    reveal_strlit("room_id");
    reveal_strlit("sent_at_ms");
    reveal_strlit("wallet_identity");
    assert("handshake"@.len() == 9 && "hdr_capture"@.len() == 11 && "hdr_render"@.len() == 10 && "kind"@.len() == 4 && "participant_id"@.len() == 14 && "participant_name"@.len() == 16 && "preferred_profile"@.len() == 17 && "resume_token"@.len() == 12 && "room_id"@.len() == 7 && "sent_at_ms"@.len() == 10 && "wallet_identity"@.len() == 15 && "hdr_render"@[0] == 'h' && "sent_at_ms"@[0] == 's');
    reveal_with_fuel(spec_lookup, 11);
    reveal_with_fuel(spec_payload_or_root, 4);
    lemma_media_profile_name(f->Handshake_preferred_profile);
    assert(spec_payload_or_root(o, key_names(["handshake"]@)) == o);
}

proof fn lemma_reads_back_handshake_ack(f: ProtocolFrame, j: JsonValue, r: Result<ProtocolFrame, CodecError>)
    requires
        f is HandshakeAck,
        spec_encoded(f, j),
        spec_decode_frame_value(j, r),
    ensures
        r matches Ok(g) && spec_encoded(g, j) && g@ == f@,
{
    let o = j->Object_0@;
    lemma_kinds_dispatch();
    reveal_strlit("accepted_at_ms");
    reveal_strlit("handshakeAck");
    reveal_strlit("handshake_ack");
    reveal_strlit("kind");
    reveal_strlit("resume_token");
    reveal_strlit("session_id");
    assert("accepted_at_ms"@.len() == 14 && "handshakeAck"@.len() == 12 && "handshake_ack"@.len() == 13 && "kind"@.len() == 4 && "resume_token"@.len() == 12 && "session_id"@.len() == 10 && "handshakeAck"@[0] == 'h' && "resume_token"@[0] == 'r');
    reveal_with_fuel(spec_lookup, 5);
    reveal_with_fuel(spec_payload_or_root, 4);
    assert(spec_payload_or_root(o, key_names(seq!["handshakeAck", "handshake_ack"])) == o);
}

proof fn lemma_reads_back_participant_presence_delta(f: ProtocolFrame, j: JsonValue, r: Result<ProtocolFrame, CodecError>)
    requires
        f is ParticipantPresenceDelta,
        spec_encoded(f, j),
        spec_decode_frame_value(j, r),
    ensures
        r matches Ok(g) && spec_encoded(g, j) && g@ == f@,
{
    let o = j->Object_0@;
    lemma_kinds_dispatch();
    reveal_strlit("joined");
    reveal_strlit("kind");
    reveal_strlit("left");
    reveal_strlit("participantPresenceDelta");
    reveal_strlit("participant_presence_delta");
    reveal_strlit("presenceDelta");
    reveal_strlit("role_changes");
    reveal_strlit("sequence");
    assert("joined"@.len() == 6 && "kind"@.len() == 4 && "left"@.len() == 4 && "participantPresenceDelta"@.len() == 24 && "participant_presence_delta"@.len() == 26 && "presenceDelta"@.len() == 13 && "role_changes"@.len() == 12 && "sequence"@.len() == 8 && "kind"@[0] == 'k' && "left"@[0] == 'l');
    reveal_with_fuel(spec_lookup, 6);
    reveal_with_fuel(spec_payload_or_root, 4);
    assert(spec_payload_or_root(o, key_names(seq!["presenceDelta", "participantPresenceDelta", "participant_presence_delta"])) == o);
    lemma_participants_read_back(o[1].1->Array_0@, f->ParticipantPresenceDelta_joined@, r->Ok_0->ParticipantPresenceDelta_joined@);
    lemma_texts_read_back(o[2].1->Array_0@, f->ParticipantPresenceDelta_left@, r->Ok_0->ParticipantPresenceDelta_left@);
    lemma_role_changes_read_back(o[3].1->Array_0@, f->ParticipantPresenceDelta_role_changes@, r->Ok_0->ParticipantPresenceDelta_role_changes@);
}

proof fn lemma_reads_back_role_grant(f: ProtocolFrame, j: JsonValue, r: Result<ProtocolFrame, CodecError>)
    requires
        f is RoleGrant,
        spec_encoded(f, j),
        spec_decode_frame_value(j, r),
    ensures
        r matches Ok(g) && spec_encoded(g, j) && g@ == f@,
{
    let o = j->Object_0@;
    lemma_kinds_dispatch();
    reveal_strlit("granted_by");
    reveal_strlit("issued_at_ms");
    reveal_strlit("kind");
    reveal_strlit("role");
    reveal_strlit("roleGrant");
    reveal_strlit("role_grant");
    reveal_strlit("signature");
    reveal_strlit("target_participant_id");
    assert("granted_by"@.len() == 10 && "issued_at_ms"@.len() == 12 && "kind"@.len() == 4 && "role"@.len() == 4 && "roleGrant"@.len() == 9 && "role_grant"@.len() == 10 && "signature"@.len() == 9 && "target_participant_id"@.len() == 21 && "granted_by"@[0] == 'g' && "kind"@[0] == 'k' && "role"@[0] == 'r' && "roleGrant"@[0] == 'r' && "role_grant"@[0] == 'r' && "signature"@[0] == 's');
    reveal_with_fuel(spec_lookup, 7);
    reveal_with_fuel(spec_payload_or_root, 4);
    lemma_role_name(f->RoleGrant_role);
    assert(spec_payload_or_root(o, key_names(seq!["roleGrant", "role_grant"])) == o);
}

proof fn lemma_reads_back_role_revoke(f: ProtocolFrame, j: JsonValue, r: Result<ProtocolFrame, CodecError>)
    requires
        f is RoleRevoke,
        spec_encoded(f, j),
        spec_decode_frame_value(j, r),
    ensures
        r matches Ok(g) && spec_encoded(g, j) && g@ == f@,
{
    let o = j->Object_0@;
    lemma_kinds_dispatch();
    reveal_strlit("issued_at_ms");
    reveal_strlit("kind");
    reveal_strlit("revoked_by");
    reveal_strlit("role");
    reveal_strlit("roleRevoke");
    reveal_strlit("role_revoke");
    reveal_strlit("signature");
    reveal_strlit("target_participant_id");
    assert("issued_at_ms"@.len() == 12 && "kind"@.len() == 4 && "revoked_by"@.len() == 10 && "role"@.len() == 4 && "roleRevoke"@.len() == 10 && "role_revoke"@.len() == 11 && "signature"@.len() == 9 && "target_participant_id"@.len() == 21 && "kind"@[0] == 'k' && "revoked_by"@[1] == 'e' && "role"@[0] == 'r' && "roleRevoke"@[1] == 'o');
    reveal_with_fuel(spec_lookup, 7);
    reveal_with_fuel(spec_payload_or_root, 4);
    lemma_role_name(f->RoleRevoke_role);
    assert(spec_payload_or_root(o, key_names(seq!["roleRevoke", "role_revoke"])) == o);
}

proof fn lemma_reads_back_permissions_snapshot(f: ProtocolFrame, j: JsonValue, r: Result<ProtocolFrame, CodecError>)
    requires
        f is PermissionsSnapshot,
        spec_encoded(f, j),
        spec_decode_frame_value(j, r),
    ensures
        r matches Ok(g) && spec_encoded(g, j) && g@ == f@,
{
    let o = j->Object_0@;
    lemma_kinds_dispatch();
    reveal_strlit("effective_permissions");
    reveal_strlit("epoch");
    reveal_strlit("kind");
    reveal_strlit("participant_id");
    reveal_strlit("permissionsSnapshot");
    reveal_strlit("permissions_snapshot");
    assert("effective_permissions"@.len() == 21 && "epoch"@.len() == 5 && "kind"@.len() == 4 && "participant_id"@.len() == 14 && "permissionsSnapshot"@.len() == 19 && "permissions_snapshot"@.len() == 20);
    reveal_with_fuel(spec_lookup, 5);
    reveal_with_fuel(spec_payload_or_root, 4);
    assert(spec_payload_or_root(o, key_names(seq!["permissionsSnapshot", "permissions_snapshot"])) == o);
    lemma_texts_read_back(o[2].1->Array_0@, f->PermissionsSnapshot_effective_permissions@, r->Ok_0->PermissionsSnapshot_effective_permissions@);
}

proof fn lemma_reads_back_moderation_signed(f: ProtocolFrame, j: JsonValue, r: Result<ProtocolFrame, CodecError>)
    requires
        f is ModerationSigned,
        spec_encoded(f, j),
        spec_decode_frame_value(j, r),
    ensures
        r matches Ok(g) && spec_encoded(g, j) && g@ == f@,
{
    let o = j->Object_0@;
    lemma_kinds_dispatch();
    reveal_strlit("action");
    reveal_strlit("issued_by");
    reveal_strlit("kind");
    reveal_strlit("moderationSigned");
    reveal_strlit("moderation_signed");
    reveal_strlit("sent_at_ms");
    reveal_strlit("signature");
    reveal_strlit("target_participant_id");
    assert("action"@.len() == 6 && "issued_by"@.len() == 9 && "kind"@.len() == 4 && "moderationSigned"@.len() == 16 && "moderation_signed"@.len() == 17 && "sent_at_ms"@.len() == 10 && "signature"@.len() == 9 && "target_participant_id"@.len() == 21 && "issued_by"@[0] == 'i' && "signature"@[0] == 's');
    reveal_with_fuel(spec_lookup, 7);
    reveal_with_fuel(spec_payload_or_root, 4);
    lemma_action_name(f->ModerationSigned_action);
    assert(spec_payload_or_root(o, key_names(seq!["moderationSigned", "moderation_signed"])) == o);
}

proof fn lemma_reads_back_session_policy(f: ProtocolFrame, j: JsonValue, r: Result<ProtocolFrame, CodecError>)
    requires
        f is SessionPolicy,
        spec_encoded(f, j),
        spec_decode_frame_value(j, r),
    ensures
        r matches Ok(g) && spec_encoded(g, j) && g@ == f@,
{
    let o = j->Object_0@;
    lemma_kinds_dispatch();
    reveal_strlit("e2ee_required");
    reveal_strlit("guest_policy");
    reveal_strlit("kind");
    reveal_strlit("max_participants");
    reveal_strlit("policy_epoch");
    reveal_strlit("recording_policy");
    reveal_strlit("room_lock");
    reveal_strlit("sessionPolicy");
    reveal_strlit("session_policy");
    reveal_strlit("signature");
    reveal_strlit("updated_at_ms");
    reveal_strlit("updated_by");
    reveal_strlit("waiting_room_enabled");
    assert("e2ee_required"@.len() == 13 && "guest_policy"@.len() == 12 && "kind"@.len() == 4 && "max_participants"@.len() == 16 && "policy_epoch"@.len() == 12 && "recording_policy"@.len() == 16 && "room_lock"@.len() == 9 && "sessionPolicy"@.len() == 13 && "session_policy"@.len() == 14 && "signature"@.len() == 9 && "updated_at_ms"@.len() == 13 && "updated_by"@.len() == 10 && "waiting_room_enabled"@.len() == 20 && "e2ee_required"@[0] == 'e' && "guest_policy"@[0] == 'g' && "max_participants"@[0] == 'm' && "policy_epoch"@[0] == 'p' && "recording_policy"@[0] == 'r' && "room_lock"@[0] == 'r' && "sessionPolicy"@[0] == 's' && "signature"@[0] == 's' && "updated_at_ms"@[0] == 'u');
    reveal_with_fuel(spec_lookup, 12);
    reveal_with_fuel(spec_payload_or_root, 4);
    lemma_recording_name(f->SessionPolicy_recording_policy);
    lemma_guest_policy_name(f->SessionPolicy_guest_policy);
    assert(spec_payload_or_root(o, key_names(seq!["sessionPolicy", "session_policy"])) == o);
}

proof fn lemma_reads_back_device_capability(f: ProtocolFrame, j: JsonValue, r: Result<ProtocolFrame, CodecError>)
    requires
        f is DeviceCapability,
        spec_encoded(f, j),
        spec_decode_frame_value(j, r),
    ensures
        r matches Ok(g) && spec_encoded(g, j) && g@ == f@,
{
    let o = j->Object_0@;
    lemma_kinds_dispatch();
    reveal_strlit("codecs");
    reveal_strlit("deviceCapability");
    reveal_strlit("device_capability");
    reveal_strlit("hdr_capture");
    reveal_strlit("hdr_render");
    reveal_strlit("kind");
    reveal_strlit("max_streams");
    reveal_strlit("participant_id");
    reveal_strlit("updated_at_ms");
    assert("codecs"@.len() == 6 && "deviceCapability"@.len() == 16 && "device_capability"@.len() == 17 && "hdr_capture"@.len() == 11 && "hdr_render"@.len() == 10 && "kind"@.len() == 4 && "max_streams"@.len() == 11 && "participant_id"@.len() == 14 && "updated_at_ms"@.len() == 13 && "hdr_capture"@[0] == 'h' && "max_streams"@[0] == 'm');
    reveal_with_fuel(spec_lookup, 8);
    reveal_with_fuel(spec_payload_or_root, 4);
    assert(spec_payload_or_root(o, key_names(seq!["deviceCapability", "device_capability"])) == o);
    lemma_texts_read_back(o[2].1->Array_0@, f->DeviceCapability_codecs@, r->Ok_0->DeviceCapability_codecs@);
}

proof fn lemma_reads_back_media_profile_negotiation(f: ProtocolFrame, j: JsonValue, r: Result<ProtocolFrame, CodecError>)
    requires
        f is MediaProfileNegotiation,
        spec_encoded(f, j),
        spec_decode_frame_value(j, r),
    ensures
        r matches Ok(g) && spec_encoded(g, j) && g@ == f@,
{
    let o = j->Object_0@;
    lemma_kinds_dispatch();
    reveal_strlit("codec");
    reveal_strlit("color_primaries");
    reveal_strlit("kind");
    reveal_strlit("mediaProfileNegotiation");
    reveal_strlit("media_profile_negotiation");
    reveal_strlit("negotiated_profile");
    reveal_strlit("preferred_profile");
    reveal_strlit("transfer_function");
    assert("codec"@.len() == 5 && "color_primaries"@.len() == 15 && "kind"@.len() == 4 && "mediaProfileNegotiation"@.len() == 23 && "media_profile_negotiation"@.len() == 25 && "negotiated_profile"@.len() == 18 && "preferred_profile"@.len() == 17 && "transfer_function"@.len() == 17 && "preferred_profile"@[0] == 'p' && "transfer_function"@[0] == 't');
    reveal_with_fuel(spec_lookup, 7);
    reveal_with_fuel(spec_payload_or_root, 4);
    lemma_media_profile_name(f->MediaProfileNegotiation_preferred_profile);
    lemma_media_profile_name(f->MediaProfileNegotiation_negotiated_profile);
    assert(spec_payload_or_root(o, key_names(seq!["mediaProfileNegotiation", "media_profile_negotiation"])) == o);
}

proof fn lemma_reads_back_recording_notice(f: ProtocolFrame, j: JsonValue, r: Result<ProtocolFrame, CodecError>)
    requires
        f is RecordingNotice,
        spec_encoded(f, j),
        spec_decode_frame_value(j, r),
    ensures
        r matches Ok(g) && spec_encoded(g, j) && g@ == f@,
{
    let o = j->Object_0@;
    lemma_kinds_dispatch();
    reveal_strlit("issued_at_ms");
    reveal_strlit("kind");
    reveal_strlit("recordingNotice");
    reveal_strlit("recording_notice");
    reveal_strlit("state");
    assert("issued_at_ms"@.len() == 12 && "kind"@.len() == 4 && "recordingNotice"@.len() == 15 && "recording_notice"@.len() == 16 && "state"@.len() == 5);
    reveal_with_fuel(spec_lookup, 4);
    reveal_with_fuel(spec_payload_or_root, 4);
    lemma_recording_name(f->RecordingNotice_state);
    assert(spec_payload_or_root(o, key_names(seq!["recordingNotice", "recording_notice"])) == o);
}

proof fn lemma_reads_back_e2ee_key_epoch(f: ProtocolFrame, j: JsonValue, r: Result<ProtocolFrame, CodecError>)
    requires
        f is E2eeKeyEpoch,
        spec_encoded(f, j),
        spec_decode_frame_value(j, r),
    ensures
        r matches Ok(g) && spec_encoded(g, j) && g@ == f@,
{
    let o = j->Object_0@;
    lemma_kinds_dispatch();
    reveal_strlit("e2eeKeyEpoch");
    reveal_strlit("e2ee_key_epoch");
    reveal_strlit("epoch");
    reveal_strlit("issued_by");
    reveal_strlit("kind");
    reveal_strlit("sent_at_ms");
    reveal_strlit("signature");
    assert("e2eeKeyEpoch"@.len() == 12 && "e2ee_key_epoch"@.len() == 14 && "epoch"@.len() == 5 && "issued_by"@.len() == 9 && "kind"@.len() == 4 && "sent_at_ms"@.len() == 10 && "signature"@.len() == 9 && "issued_by"@[0] == 'i' && "signature"@[0] == 's');
    reveal_with_fuel(spec_lookup, 6);
    reveal_with_fuel(spec_payload_or_root, 4);
    assert(spec_payload_or_root(o, key_names(seq!["e2eeKeyEpoch", "e2ee_key_epoch"])) == o);
}

proof fn lemma_reads_back_key_rotation_ack(f: ProtocolFrame, j: JsonValue, r: Result<ProtocolFrame, CodecError>)
    requires
        f is KeyRotationAck,
        spec_encoded(f, j),
        spec_decode_frame_value(j, r),
    ensures
        r matches Ok(g) && spec_encoded(g, j) && g@ == f@,
{
    let o = j->Object_0@;
    lemma_kinds_dispatch();
    reveal_strlit("ack_epoch");
    reveal_strlit("keyRotationAck");
    reveal_strlit("key_rotation_ack");
    reveal_strlit("kind");
    reveal_strlit("participant_id");
    reveal_strlit("sent_at_ms");
    assert("ack_epoch"@.len() == 9 && "keyRotationAck"@.len() == 14 && "key_rotation_ack"@.len() == 16 && "kind"@.len() == 4 && "participant_id"@.len() == 14 && "sent_at_ms"@.len() == 10 && "keyRotationAck"@[0] == 'k' && "participant_id"@[0] == 'p');
    reveal_with_fuel(spec_lookup, 5);
    reveal_with_fuel(spec_payload_or_root, 4);
    assert(spec_payload_or_root(o, key_names(seq!["keyRotationAck", "key_rotation_ack"])) == o);
}

proof fn lemma_reads_back_payment_policy(f: ProtocolFrame, j: JsonValue, r: Result<ProtocolFrame, CodecError>)
    requires
        f is PaymentPolicy,
        spec_encoded(f, j),
        spec_decode_frame_value(j, r),
    ensures
        r matches Ok(g) && spec_encoded(g, j) && g@ == f@,
{
    let o = j->Object_0@;
    lemma_kinds_dispatch();
    reveal_strlit("destination_account");
    reveal_strlit("kind");
    reveal_strlit("paymentPolicy");
    reveal_strlit("payment_policy");
    reveal_strlit("required");
    assert("destination_account"@.len() == 19 && "kind"@.len() == 4 && "paymentPolicy"@.len() == 13 && "payment_policy"@.len() == 14 && "required"@.len() == 8);
    reveal_with_fuel(spec_lookup, 4);
    reveal_with_fuel(spec_payload_or_root, 4);
    assert(spec_payload_or_root(o, key_names(seq!["paymentPolicy", "payment_policy"])) == o);
}

proof fn lemma_reads_back_payment_settlement(f: ProtocolFrame, j: JsonValue, r: Result<ProtocolFrame, CodecError>)
    requires
        f is PaymentSettlement,
        spec_encoded(f, j),
        spec_decode_frame_value(j, r),
    ensures
        r matches Ok(g) && spec_encoded(g, j) && g@ == f@,
{
    let o = j->Object_0@;
    lemma_kinds_dispatch();
    reveal_strlit("kind");
    reveal_strlit("paymentSettlement");
    reveal_strlit("payment_settlement");
    reveal_strlit("status");
    assert("kind"@.len() == 4 && "paymentSettlement"@.len() == 17 && "payment_settlement"@.len() == 18 && "status"@.len() == 6);
    reveal_with_fuel(spec_lookup, 3);
    reveal_with_fuel(spec_payload_or_root, 4);
    lemma_settlement_name(f->PaymentSettlement_status);
    assert(spec_payload_or_root(o, key_names(seq!["paymentSettlement", "payment_settlement"])) == o);
}

proof fn lemma_reads_back_error(f: ProtocolFrame, j: JsonValue, r: Result<ProtocolFrame, CodecError>)
    requires
        f is Error,
        spec_encoded(f, j),
        spec_decode_frame_value(j, r),
    ensures
        r matches Ok(g) && spec_encoded(g, j) && g@ == f@,
{
    let o = j->Object_0@;
    lemma_kinds_dispatch();
    reveal_strlit("category");
    reveal_strlit("code");
    reveal_strlit("error");
    reveal_strlit("kind");
    reveal_strlit("message");
    assert("category"@.len() == 8 && "code"@.len() == 4 && "error"@.len() == 5 && "kind"@.len() == 4 && "message"@.len() == 7 && "code"@[0] == 'c' && "kind"@[0] == 'k');
    reveal_with_fuel(spec_lookup, 5);
    reveal_with_fuel(spec_payload_or_root, 4);
    lemma_category_name(f->Error_category);
    assert(spec_payload_or_root(o, key_names(["error"]@)) == o);
}

proof fn lemma_reads_back_ping(f: ProtocolFrame, j: JsonValue, r: Result<ProtocolFrame, CodecError>)
    requires
        f is Ping,
        spec_encoded(f, j),
        spec_decode_frame_value(j, r),
    ensures
        r matches Ok(g) && spec_encoded(g, j) && g@ == f@,
{
    let o = j->Object_0@;
    lemma_kinds_dispatch();
    reveal_strlit("kind");
    reveal_strlit("ping");
    reveal_strlit("sent_at_ms");
    assert("kind"@.len() == 4 && "ping"@.len() == 4 && "sent_at_ms"@.len() == 10 && "kind"@[0] == 'k' && "ping"@[0] == 'p');
    reveal_with_fuel(spec_lookup, 3);
    reveal_with_fuel(spec_payload_or_root, 4);
    assert(spec_payload_or_root(o, key_names(["ping"]@)) == o);
}

proof fn lemma_reads_back_pong(f: ProtocolFrame, j: JsonValue, r: Result<ProtocolFrame, CodecError>)
    requires
        f is Pong,
        spec_encoded(f, j),
        spec_decode_frame_value(j, r),
    ensures
        r matches Ok(g) && spec_encoded(g, j) && g@ == f@,
{
    let o = j->Object_0@;
    lemma_kinds_dispatch();
    reveal_strlit("kind");
    reveal_strlit("pong");
    reveal_strlit("sent_at_ms");
    assert("kind"@.len() == 4 && "pong"@.len() == 4 && "sent_at_ms"@.len() == 10 && "kind"@[0] == 'k' && "pong"@[0] == 'p');
    reveal_with_fuel(spec_lookup, 3);
    reveal_with_fuel(spec_payload_or_root, 4);
    assert(spec_payload_or_root(o, key_names(["pong"]@)) == o);
}

/// Reading the JSON form of a frame gives back that frame: the result is a
/// frame of the same kind whose every field says what the original's says
/// (`g@ == f@`, texts compared by their characters), so it also has the
/// same JSON form.
pub proof fn lemma_decode_reads_back_encoded(
    f: ProtocolFrame,
    j: JsonValue,
    r: Result<ProtocolFrame, CodecError>,
)
    requires
        spec_encoded(f, j),
        spec_decode_frame_value(j, r),
    ensures
        r matches Ok(g) && spec_encoded(g, j) && g@ == f@,
{
    match f {
        ProtocolFrame::Handshake { .. } => lemma_reads_back_handshake(f, j, r),
        ProtocolFrame::HandshakeAck { .. } => lemma_reads_back_handshake_ack(f, j, r),
        ProtocolFrame::ParticipantPresenceDelta { .. } => lemma_reads_back_participant_presence_delta(f, j, r),
        ProtocolFrame::RoleGrant { .. } => lemma_reads_back_role_grant(f, j, r),
        ProtocolFrame::RoleRevoke { .. } => lemma_reads_back_role_revoke(f, j, r),
        ProtocolFrame::PermissionsSnapshot { .. } => lemma_reads_back_permissions_snapshot(f, j, r),
        ProtocolFrame::ModerationSigned { .. } => lemma_reads_back_moderation_signed(f, j, r),
        ProtocolFrame::SessionPolicy { .. } => lemma_reads_back_session_policy(f, j, r),
        ProtocolFrame::DeviceCapability { .. } => lemma_reads_back_device_capability(f, j, r),
        ProtocolFrame::MediaProfileNegotiation { .. } => lemma_reads_back_media_profile_negotiation(f, j, r),
        ProtocolFrame::RecordingNotice { .. } => lemma_reads_back_recording_notice(f, j, r),
        ProtocolFrame::E2eeKeyEpoch { .. } => lemma_reads_back_e2ee_key_epoch(f, j, r),
        ProtocolFrame::KeyRotationAck { .. } => lemma_reads_back_key_rotation_ack(f, j, r),
        ProtocolFrame::PaymentPolicy { .. } => lemma_reads_back_payment_policy(f, j, r),
        ProtocolFrame::PaymentSettlement { .. } => lemma_reads_back_payment_settlement(f, j, r),
        ProtocolFrame::Error { .. } => lemma_reads_back_error(f, j, r),
        ProtocolFrame::Ping { .. } => lemma_reads_back_ping(f, j, r),
        ProtocolFrame::Pong { .. } => lemma_reads_back_pong(f, j, r),
    }
}

} // verus!
