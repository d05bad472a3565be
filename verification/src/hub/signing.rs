//! The signed payloads of roles, policy, moderation and E2EE key epochs, and
//! the checks of their deterministic signature tokens.
use vstd::prelude::*;
use crate::codec::{
    deterministic_signature_hex, equals_ascii_lowercased, spec_ascii_lower, spec_signature_hex,
};
use crate::hub::frames::{
    E2EEKeyEpochFrame, ModerationAction, ModerationSignedFrame, RoleGrantFrame, RoleKind,
    RoleRevokeFrame, SessionPolicyFrame,
};
use crate::text::{push_decimal, spec_decimal};
use crate::wire::ModerationTarget;

verus! {

broadcast use vstd::string::group_string_axioms;

/// The token of a role inside signed payloads.
pub open spec fn spec_role_token(role: RoleKind) -> Seq<char> {
    match role {
        RoleKind::Host => "host"@,
        RoleKind::CoHost => "cohost"@,
        RoleKind::Participant => "participant"@,
    }
}

/// The token of a role inside signed payloads.
pub fn role_kind_token(role: &RoleKind) -> (r: &'static str)
    ensures
        r@ == spec_role_token(*role),
{
    match role {
        RoleKind::Host => "host",
        RoleKind::CoHost => "cohost",
        RoleKind::Participant => "participant",
    }
}

/// The token of a moderation action inside signed payloads.
pub open spec fn spec_action_token(action: ModerationAction) -> Seq<char> {
    match action {
        ModerationAction::DisableMic => "disable_mic"@,
        ModerationAction::DisableVideo => "disable_video"@,
        ModerationAction::DisableScreenShare => "disable_screen_share"@,
        ModerationAction::Kick => "kick"@,
        ModerationAction::AdmitFromWaiting => "admit_from_waiting"@,
        ModerationAction::DenyFromWaiting => "deny_from_waiting"@,
    }
}

/// The token of a moderation action inside signed payloads.
pub fn moderation_action_token(action: &ModerationAction) -> (r: &'static str)
    ensures
        r@ == spec_action_token(*action),
{
    match action {
        ModerationAction::DisableMic => "disable_mic",
        ModerationAction::DisableVideo => "disable_video",
        ModerationAction::DisableScreenShare => "disable_screen_share",
        ModerationAction::Kick => "kick",
        ModerationAction::AdmitFromWaiting => "admit_from_waiting",
        ModerationAction::DenyFromWaiting => "deny_from_waiting",
    }
}

/// The token of a moderation target: `all`, or `participant:` and the id.
pub open spec fn spec_target_token(target: ModerationTarget) -> Seq<char> {
    match target {
        ModerationTarget::All => "all"@,
        ModerationTarget::Participant(p) => "participant:"@ + p@,
    }
}

/// The token of a moderation target inside signed payloads.
pub fn moderation_target_token(target: &ModerationTarget) -> (r: String)
    ensures
        r@ == spec_target_token(*target),
{
    match target {
        ModerationTarget::All => "all".to_owned(),
        ModerationTarget::Participant(p) => {
            let mut r = "participant:".to_owned();
            r.append(p.as_str());
            r
        },
    }
}

/// `true` or `false`, as `bool` displays.
pub open spec fn spec_bool_text(b: bool) -> Seq<char> {
    if b {
        "true"@
    } else {
        "false"@
    }
}

fn push_bool(out: &mut String, b: bool)
    ensures
        final(out)@ == old(out)@ + spec_bool_text(b),
{
    if b {
        out.append("true");
    } else {
        out.append("false");
    }
}

/// The signed payload of a moderation request:
/// `issued_by|target|action|sent_at_ms`.
pub open spec fn spec_moderation_payload(m: ModerationSignedFrame) -> Seq<char> {
    m.issued_by@ + "|"@ + spec_target_token(m.target) + "|"@ + spec_action_token(m.action) + "|"@
        + spec_decimal(m.sent_at_ms as nat)
}

/// The signed payload of a role grant:
/// `granted_by|target_participant_id|role|issued_at_ms`.
pub open spec fn spec_role_grant_payload(g: RoleGrantFrame) -> Seq<char> {
    g.granted_by@ + "|"@ + g.target_participant_id@ + "|"@ + spec_role_token(g.role) + "|"@
        + spec_decimal(g.issued_at_ms as nat)
}

/// The signed payload of a role revocation:
/// `revoked_by|target_participant_id|role|issued_at_ms`.
pub open spec fn spec_role_revoke_payload(r: RoleRevokeFrame) -> Seq<char> {
    r.revoked_by@ + "|"@ + r.target_participant_id@ + "|"@ + spec_role_token(r.role) + "|"@
        + spec_decimal(r.issued_at_ms as nat)
}

/// The signed payload of a session policy: the updater, the five flags,
/// the participant cap, the epoch and the update time, `|`-separated.
pub open spec fn spec_session_policy_payload(p: SessionPolicyFrame) -> Seq<char> {
    p.updated_by@ + "|"@ + spec_bool_text(p.room_lock) + "|"@ + spec_bool_text(
        p.waiting_room_enabled,
    ) + "|"@ + spec_bool_text(p.guest_join_allowed) + "|"@ + spec_bool_text(
        p.local_recording_allowed,
    ) + "|"@ + spec_bool_text(p.e2ee_required) + "|"@ + spec_decimal(p.max_participants as nat)
        + "|"@ + spec_decimal(p.policy_epoch as nat) + "|"@ + spec_decimal(p.updated_at_ms as nat)
}

/// The payload that derives an E2EE public key: `participant_id|epoch`.
pub open spec fn spec_e2ee_public_key_payload(f: E2EEKeyEpochFrame) -> Seq<char> {
    f.participant_id@ + "|"@ + spec_decimal(f.epoch as nat)
}

/// The signed payload of an E2EE key epoch: `participant_id|epoch|sent_at_ms`.
pub open spec fn spec_e2ee_key_epoch_payload(f: E2EEKeyEpochFrame) -> Seq<char> {
    f.participant_id@ + "|"@ + spec_decimal(f.epoch as nat) + "|"@ + spec_decimal(
        f.sent_at_ms as nat,
    )
}

/// A signature token matches when it equals the expected token once its
/// ASCII letters are lowered.
pub open spec fn spec_token_matches(tag: Seq<char>, payload: Seq<char>, given: Seq<char>) -> bool {
    spec_signature_hex(tag, payload) == spec_ascii_lower(given)
}

/// True when a signed moderation request carries the right token.
pub fn moderation_signed_signature_is_valid(moderation: &ModerationSignedFrame) -> (r: bool)
    ensures
        r == spec_token_matches(
            "moderation"@,
            spec_moderation_payload(*moderation),
            moderation.signature_hex@,
        ),
{
    let mut payload = moderation.issued_by.clone();
    payload.append("|");
    let target = moderation_target_token(&moderation.target);
    payload.append(target.as_str());
    payload.append("|");
    payload.append(moderation_action_token(&moderation.action));
    payload.append("|");
    push_decimal(&mut payload, moderation.sent_at_ms);
    let expected = deterministic_signature_hex("moderation", payload.as_str());
    equals_ascii_lowercased(expected.as_str(), moderation.signature_hex.as_str())
}

/// True when a role grant carries the right token.
pub fn role_grant_signature_is_valid(grant: &RoleGrantFrame) -> (r: bool)
    ensures
        r == spec_token_matches("role_grant"@, spec_role_grant_payload(*grant), grant.signature_hex@),
{
    let mut payload = grant.granted_by.clone();
    payload.append("|");
    payload.append(grant.target_participant_id.as_str());
    payload.append("|");
    payload.append(role_kind_token(&grant.role));
    payload.append("|");
    push_decimal(&mut payload, grant.issued_at_ms);
    let expected = deterministic_signature_hex("role_grant", payload.as_str());
    equals_ascii_lowercased(expected.as_str(), grant.signature_hex.as_str())
}

/// True when a role revocation carries the right token.
pub fn role_revoke_signature_is_valid(revoke: &RoleRevokeFrame) -> (r: bool)
    ensures
        r == spec_token_matches(
            "role_revoke"@,
            spec_role_revoke_payload(*revoke),
            revoke.signature_hex@,
        ),
{
    let mut payload = revoke.revoked_by.clone();
    payload.append("|");
    payload.append(revoke.target_participant_id.as_str());
    payload.append("|");
    payload.append(role_kind_token(&revoke.role));
    payload.append("|");
    push_decimal(&mut payload, revoke.issued_at_ms);
    let expected = deterministic_signature_hex("role_revoke", payload.as_str());
    equals_ascii_lowercased(expected.as_str(), revoke.signature_hex.as_str())
}

/// True when a session policy carries the right token.
pub fn session_policy_signature_is_valid(policy: &SessionPolicyFrame) -> (r: bool)
    ensures
        r == spec_token_matches(
            "session_policy"@,
            spec_session_policy_payload(*policy),
            policy.signature_hex@,
        ),
{
    let mut payload = policy.updated_by.clone();
    payload.append("|");
    push_bool(&mut payload, policy.room_lock);
    payload.append("|");
    push_bool(&mut payload, policy.waiting_room_enabled);
    payload.append("|");
    push_bool(&mut payload, policy.guest_join_allowed);
    payload.append("|");
    push_bool(&mut payload, policy.local_recording_allowed);
    payload.append("|");
    push_bool(&mut payload, policy.e2ee_required);
    payload.append("|");
    push_decimal(&mut payload, policy.max_participants as u64);
    payload.append("|");
    push_decimal(&mut payload, policy.policy_epoch);
    payload.append("|");
    push_decimal(&mut payload, policy.updated_at_ms);
    let expected = deterministic_signature_hex("session_policy", payload.as_str());
    equals_ascii_lowercased(expected.as_str(), policy.signature_hex.as_str())
}

/// True when an E2EE key epoch carries the public key derived from its
/// participant and epoch.
pub fn e2ee_public_key_is_valid(frame: &E2EEKeyEpochFrame) -> (r: bool)
    ensures
        r == spec_token_matches(
            "e2ee_public_key"@,
            spec_e2ee_public_key_payload(*frame),
            frame.public_key_hex@,
        ),
{
    let mut payload = frame.participant_id.clone();
    payload.append("|");
    push_decimal(&mut payload, frame.epoch);
    let expected = deterministic_signature_hex("e2ee_public_key", payload.as_str());
    equals_ascii_lowercased(expected.as_str(), frame.public_key_hex.as_str())
}

/// True when an E2EE key epoch carries the right signature token.
pub fn e2ee_signature_is_valid(frame: &E2EEKeyEpochFrame) -> (r: bool)
    ensures
        r == spec_token_matches(
            "e2ee_key_epoch"@,
            spec_e2ee_key_epoch_payload(*frame),
            frame.signature_hex@,
        ),
{
    let mut payload = frame.participant_id.clone();
    payload.append("|");
    push_decimal(&mut payload, frame.epoch);
    payload.append("|");
    push_decimal(&mut payload, frame.sent_at_ms);
    let expected = deterministic_signature_hex("e2ee_key_epoch", payload.as_str());
    equals_ascii_lowercased(expected.as_str(), frame.signature_hex.as_str())
}

/// The key of a signer's clock for one kind of signed action:
/// `action_tag:signer_id`.
pub open spec fn spec_clock_key(action_tag: Seq<char>, signer_id: Seq<char>) -> Seq<char> {
    action_tag + ":"@ + signer_id
}

/// The key of a signer's clock for one kind of signed action.
pub fn signed_action_clock_key(action_tag: &str, signer_id: &str) -> (r: String)
    ensures
        r@ == spec_clock_key(action_tag@, signer_id@),
{
    let mut r = action_tag.to_owned();
    r.append(":");
    r.append(signer_id);
    r
}

} // verus!
