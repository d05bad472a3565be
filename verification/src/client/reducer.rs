//! How a session's state changes: policy rejections, the payment and E2EE
//! policies, and the reducer over frames and transport events.
use vstd::prelude::*;
use crate::client::protocol::{ProtocolEvent, ProtocolFrame};
use crate::client::types::{
    ConnectionPhase, E2eeState, FallbackState, MediaProfile, MediaProfileState, ModerationAction,
    Participant, ParticipantRole, PaymentSettlementStatus, PaymentState, PermissionSnapshot,
    ProtocolSessionState, RoleChange, SessionError, SessionErrorCategory,
};
use crate::text::{has_prefix, is_blank, same_text, spec_is_blank};

verus! {

broadcast use vstd::string::group_string_axioms;

/// An exact copy of a participant.
pub fn copy_participant(p: &Participant) -> (r: Participant)
    ensures
        r == *p,
{
    Participant {
        id: p.id.clone(),
        display_name: p.display_name.clone(),
        role: p.role,
        muted: p.muted,
        video_enabled: p.video_enabled,
        share_enabled: p.share_enabled,
        waiting_room: p.waiting_room,
    }
}

/// An exact copy of a session error.
pub fn copy_session_error(e: &SessionError) -> (r: SessionError)
    ensures
        r == *e,
{
    SessionError {
        category: e.category,
        code: e.code.clone(),
        message: e.message.clone(),
        at_ms: e.at_ms,
    }
}

/// A signature is present when required: non-blank.
pub open spec fn spec_has_required_signature(signature: Option<String>, s: ProtocolSessionState) -> bool {
    !s.config.require_signed_moderation || (signature matches Some(v) && !spec_is_blank(v@))
}

/// True when a signature is present where one is required.
pub fn has_required_signature(signature: &Option<String>, state: &ProtocolSessionState) -> (r: bool)
    ensures
        r == spec_has_required_signature(*signature, *state),
{
    if !state.config.require_signed_moderation {
        return true;
    }
    match signature {
        Some(v) => !is_blank(v.as_str()),
        None => false,
    }
}

/// The system, or a known host or co-host, may issue roles, policy and
/// moderation.
pub open spec fn spec_actor_is_authorized(issuer: Seq<char>, s: ProtocolSessionState) -> bool {
    issuer == "system"@ || (s.participants@.contains_key(issuer) && (s.participants@[issuer].role
        == ParticipantRole::Host || s.participants@[issuer].role == ParticipantRole::CoHost))
}

/// True when the issuer may issue roles, policy and moderation.
pub fn actor_is_authorized(issuer: &str, state: &ProtocolSessionState) -> (r: bool)
    ensures
        r == spec_actor_is_authorized(issuer@, *state),
{
    if same_text(issuer, "system") {
        return true;
    }
    match state.participants.get(issuer) {
        Some(p) => match p.role {
            ParticipantRole::Host | ParticipantRole::CoHost => true,
            _ => false,
        },
        None => false,
    }
}

/// `r` is `s` after a policy rejection with `code` and `message` at
/// `now_ms`: with the web fallback preferred or already active, the
/// fallback becomes (or stays) active, keeping its first reason and
/// activation time; otherwise the session is in error. The error is
/// recorded either way.
pub open spec fn spec_policy_rejected(
    s: ProtocolSessionState,
    now_ms: i64,
    code: Seq<char>,
    message: Seq<char>,
    r: ProtocolSessionState,
) -> bool {
    let to_fallback = s.config.prefer_web_fallback_on_policy_failure || s.fallback.active;
    &&& r == (ProtocolSessionState {
        connection_phase: r.connection_phase,
        fallback: r.fallback,
        last_error: r.last_error,
        ..s
    })
    &&& r.connection_phase == if to_fallback {
        ConnectionPhase::FallbackActive
    } else {
        ConnectionPhase::Error
    }
    &&& if to_fallback {
        &&& r.fallback.active
        &&& r.fallback.recovered_at_ms == s.fallback.recovered_at_ms
        &&& r.fallback.last_rto_ms == s.fallback.last_rto_ms
        &&& r.fallback.activated_at_ms == if s.fallback.activated_at_ms is Some {
            s.fallback.activated_at_ms
        } else {
            Some(now_ms)
        }
        &&& if s.fallback.reason is Some {
            r.fallback.reason == s.fallback.reason
        } else {
            r.fallback.reason matches Some(t) && t@ == "policy:"@ + code
        }
    } else {
        r.fallback == s.fallback
    }
    &&& r.last_error matches Some(e) && e.category == SessionErrorCategory::PolicyFailure && e.code@
        == code && e.message@ == message && e.at_ms == now_ms
}

/// Records a policy rejection.
pub fn policy_reject(state: ProtocolSessionState, now_ms: i64, code: &str, message: &str) -> (r:
    ProtocolSessionState)
    ensures
        spec_policy_rejected(state, now_ms, code@, message@, r),
{
    let mut state = state;
    let to_fallback = state.config.prefer_web_fallback_on_policy_failure || state.fallback.active;
    state.connection_phase = if to_fallback {
        ConnectionPhase::FallbackActive
    } else {
        ConnectionPhase::Error
    };
    if to_fallback {
        state.fallback.active = true;
        if state.fallback.reason.is_none() {
            let mut reason = "policy:".to_owned();
            reason.append(code);
            state.fallback.reason = Some(reason);
        }
        if state.fallback.activated_at_ms.is_none() {
            state.fallback.activated_at_ms = Some(now_ms);
        }
    }
    state.last_error = Some(
        SessionError {
            category: SessionErrorCategory::PolicyFailure,
            code: code.to_owned(),
            message: message.to_owned(),
            at_ms: now_ms,
        },
    );
    state
}

/// The policy errors a policy check may clear.
#[derive(Debug, Clone, Copy, PartialEq, Eq, Structural)]
pub enum PolicyErrorClass {
    /// `payment_settlement_*` and `payment_unsettled`.
    Payment,
    /// `e2ee_*`.
    E2ee,
}

/// The error is a policy failure of the class.
pub open spec fn spec_in_class(class: PolicyErrorClass, error: Option<SessionError>) -> bool {
    match error {
        None => false,
        Some(e) => e.category == SessionErrorCategory::PolicyFailure && match class {
            PolicyErrorClass::Payment => (e.code@.len() >= 19 && e.code@.subrange(0, 19)
                == "payment_settlement_"@) || e.code@ == "payment_unsettled"@,
            PolicyErrorClass::E2ee => e.code@.len() >= 5 && e.code@.subrange(0, 5) == "e2ee_"@,
        },
    }
}

fn in_class(class: PolicyErrorClass, error: &Option<SessionError>) -> (r: bool)
    ensures
        r == spec_in_class(class, *error),
{
    proof {
        reveal_strlit("payment_settlement_");
        reveal_strlit("e2ee_");
    }
    match error {
        None => false,
        Some(e) => {
            let policy = match e.category {
                SessionErrorCategory::PolicyFailure => true,
                _ => false,
            };
            policy && match class {
                PolicyErrorClass::Payment => has_prefix(e.code.as_str(), "payment_settlement_")
                    || same_text(e.code.as_str(), "payment_unsettled"),
                PolicyErrorClass::E2ee => has_prefix(e.code.as_str(), "e2ee_"),
            }
        },
    }
}

/// `r` is `s` with a policy error of the class cleared: the session goes
/// back to the fallback, connected or connecting phase. Other errors stay.
pub open spec fn spec_cleared(s: ProtocolSessionState, class: PolicyErrorClass, r: ProtocolSessionState) -> bool {
    if !spec_in_class(class, s.last_error) {
        r == s
    } else {
        r == (ProtocolSessionState {
            connection_phase: if s.fallback.active {
                ConnectionPhase::FallbackActive
            } else if s.handshake_complete {
                ConnectionPhase::Connected
            } else {
                ConnectionPhase::Connecting
            },
            last_error: None,
            ..s
        })
    }
}

/// Clears a policy error of the class, if that is the last error.
pub fn clear_error_if_matching(state: ProtocolSessionState, class: PolicyErrorClass) -> (r:
    ProtocolSessionState)
    ensures
        spec_cleared(state, class, r),
{
    let mut state = state;
    if !in_class(class, &state.last_error) {
        return state;
    }
    state.connection_phase = if state.fallback.active {
        ConnectionPhase::FallbackActive
    } else if state.handshake_complete {
        ConnectionPhase::Connected
    } else {
        ConnectionPhase::Connecting
    };
    state.last_error = None;
    state
}

/// The payment settlement policy: where settlement is required and the
/// payment is pending (or blocked), the session is rejected; otherwise a
/// payment policy error is cleared.
pub open spec fn spec_payment_enforced(s: ProtocolSessionState, now_ms: i64, r: ProtocolSessionState) -> bool {
    let status = s.payment_state.settlement_status;
    if !s.config.require_payment_settlement || !s.payment_state.required
        || status == PaymentSettlementStatus::Settled || status
        == PaymentSettlementStatus::NotRequired {
        spec_cleared(s, PolicyErrorClass::Payment, r)
    } else if status == PaymentSettlementStatus::Blocked {
        spec_policy_rejected(
            s,
            now_ms,
            "payment_settlement_blocked"@,
            "Payment settlement blocked by policy"@,
            r,
        )
    } else {
        spec_policy_rejected(
            s,
            now_ms,
            "payment_settlement_required"@,
            "Payment settlement required before media/session actions can continue"@,
            r,
        )
    }
}

/// Applies the payment settlement policy.
pub fn enforce_payment_settlement_policy(state: ProtocolSessionState, now_ms: i64) -> (r:
    ProtocolSessionState)
    ensures
        spec_payment_enforced(state, now_ms, r),
{
    let status = state.payment_state.settlement_status;
    let settled = match status {
        PaymentSettlementStatus::Settled | PaymentSettlementStatus::NotRequired => true,
        _ => false,
    };
    if !state.config.require_payment_settlement || !state.payment_state.required || settled {
        return clear_error_if_matching(state, PolicyErrorClass::Payment);
    }
    match status {
        PaymentSettlementStatus::Blocked => policy_reject(
            state,
            now_ms,
            "payment_settlement_blocked",
            "Payment settlement blocked by policy",
        ),
        _ => policy_reject(
            state,
            now_ms,
            "payment_settlement_required",
            "Payment settlement required before media/session actions can continue",
        ),
    }
}

/// The E2EE epoch policy: a session that requires E2EE is rejected until
/// it has a key epoch; otherwise an E2EE policy error is cleared.
pub open spec fn spec_e2ee_enforced(s: ProtocolSessionState, now_ms: i64, r: ProtocolSessionState) -> bool {
    if !s.e2ee_required || s.e2ee_state.current_epoch > 0 {
        spec_cleared(s, PolicyErrorClass::E2ee, r)
    } else {
        spec_policy_rejected(
            s,
            now_ms,
            "e2ee_epoch_required"@,
            "E2EE key epoch is required by session policy"@,
            r,
        )
    }
}

/// Applies the E2EE epoch policy.
pub fn enforce_e2ee_epoch_policy(state: ProtocolSessionState, now_ms: i64) -> (r:
    ProtocolSessionState)
    ensures
        spec_e2ee_enforced(state, now_ms, r),
{
    if !state.e2ee_required || state.e2ee_state.current_epoch > 0 {
        return clear_error_if_matching(state, PolicyErrorClass::E2ee);
    }
    policy_reject(
        state,
        now_ms,
        "e2ee_epoch_required",
        "E2EE key epoch is required by session policy",
    )
}

/// The participants once the joined ones are added, later ones replacing
/// earlier ones with the same id.
pub open spec fn spec_join_all(m: Map<Seq<char>, Participant>, joined: Seq<Participant>) -> Map<
    Seq<char>,
    Participant,
>
    decreases joined.len(),
{
    if joined.len() == 0 {
        m
    } else {
        spec_join_all(m, joined.drop_last()).insert(joined.last().id@, joined.last())
    }
}

/// The participants once the ones that left are removed.
pub open spec fn spec_leave_all(m: Map<Seq<char>, Participant>, left: Seq<String>) -> Map<
    Seq<char>,
    Participant,
>
    decreases left.len(),
{
    if left.len() == 0 {
        m
    } else {
        spec_leave_all(m, left.drop_last()).remove(left.last()@)
    }
}

/// A participant's entry with a new role, when it is known.
pub open spec fn spec_with_role(m: Map<Seq<char>, Participant>, id: Seq<char>, role: ParticipantRole) -> Map<
    Seq<char>,
    Participant,
> {
    if m.contains_key(id) {
        m.insert(id, Participant { role, ..m[id] })
    } else {
        m
    }
}

/// The participants once the role changes apply, in order, to known ids.
pub open spec fn spec_roles_all(m: Map<Seq<char>, Participant>, changes: Seq<RoleChange>) -> Map<
    Seq<char>,
    Participant,
>
    decreases changes.len(),
{
    if changes.len() == 0 {
        m
    } else {
        spec_with_role(
            spec_roles_all(m, changes.drop_last()),
            changes.last().participant_id@,
            changes.last().role,
        )
    }
}

fn set_role(state: &mut ProtocolSessionState, id: &str, role: ParticipantRole)
    ensures
        final(state).participants@ == spec_with_role(old(state).participants@, id@, role),
        *final(state) == (ProtocolSessionState { participants: final(state).participants, ..*old(state) }),
{
    let updated = match state.participants.get(id) {
        Some(p) => {
            let mut q = copy_participant(p);
            q.role = role;
            Some(q)
        },
        None => None,
    };
    match updated {
        Some(q) => {
            state.participants.insert(id.to_owned(), q);
        },
        None => {},
    }
}

fn apply_presence_delta(
    state: &mut ProtocolSessionState,
    joined: &Vec<Participant>,
    left: &Vec<String>,
    role_changes: &Vec<RoleChange>,
)
    ensures
        final(state).participants@ == spec_roles_all(
            spec_leave_all(spec_join_all(old(state).participants@, joined@), left@),
            role_changes@,
        ),
        *final(state) == (ProtocolSessionState { participants: final(state).participants, ..*old(state) }),
{
    let ghost m0 = state.participants@;
    let mut i: usize = 0;
    while i < joined.len()
        invariant
            i <= joined@.len(),
            state.participants@ == spec_join_all(m0, joined@.subrange(0, i as int)),
            *state == (ProtocolSessionState { participants: state.participants, ..*old(state) }),
        decreases joined@.len() - i,
    {
        let p = copy_participant(&joined[i]);
        proof {
            assert(joined@.subrange(0, i + 1).drop_last() =~= joined@.subrange(0, i as int));
        }
        state.participants.insert(p.id.clone(), p);
        i = i + 1;
    }
    proof {
        assert(joined@.subrange(0, joined@.len() as int) =~= joined@);
    }
    let ghost m1 = state.participants@;
    let mut j: usize = 0;
    while j < left.len()
        invariant
            j <= left@.len(),
            state.participants@ == spec_leave_all(m1, left@.subrange(0, j as int)),
            *state == (ProtocolSessionState { participants: state.participants, ..*old(state) }),
        decreases left@.len() - j,
    {
        proof {
            assert(left@.subrange(0, j + 1).drop_last() =~= left@.subrange(0, j as int));
        }
        state.participants.remove(left[j].as_str());
        j = j + 1;
    }
    proof {
        assert(left@.subrange(0, left@.len() as int) =~= left@);
    }
    let ghost m2 = state.participants@;
    let mut k: usize = 0;
    while k < role_changes.len()
        invariant
            k <= role_changes@.len(),
            state.participants@ == spec_roles_all(m2, role_changes@.subrange(0, k as int)),
            *state == (ProtocolSessionState { participants: state.participants, ..*old(state) }),
        decreases role_changes@.len() - k,
    {
        proof {
            assert(role_changes@.subrange(0, k + 1).drop_last() =~= role_changes@.subrange(
                0,
                k as int,
            ));
        }
        set_role(state, role_changes[k].participant_id.as_str(), role_changes[k].role);
        k = k + 1;
    }
    proof {
        assert(role_changes@.subrange(0, role_changes@.len() as int) =~= role_changes@);
    }
}

/// The participants after a moderation action on a known id: mute, video
/// off and stop share clear that flag, admit takes it out of the waiting
/// room, and kick and deny remove it.
pub open spec fn spec_moderated(
    m: Map<Seq<char>, Participant>,
    id: Seq<char>,
    action: ModerationAction,
) -> Map<Seq<char>, Participant> {
    match action {
        ModerationAction::Kick | ModerationAction::DenyFromWaiting => m.remove(id),
        _ => if !m.contains_key(id) {
            m
        } else {
            m.insert(
                id,
                match action {
                    ModerationAction::Mute => Participant { muted: true, ..m[id] },
                    ModerationAction::VideoOff => Participant { video_enabled: false, ..m[id] },
                    ModerationAction::StopShare => Participant { share_enabled: false, ..m[id] },
                    _ => Participant { waiting_room: false, ..m[id] },
                },
            )
        },
    }
}

/// What a moderation does to the participant list: a kick or a denial from
/// the waiting room removes the target; any other action keeps the list's
/// members and changes only the target's one flag that it names (mute sets
/// `muted`, video-off clears `video_enabled`, stop-share clears
/// `share_enabled`, admit clears `waiting_room`). Every other participant
/// stays as it was, and an unknown target changes nothing.
pub proof fn lemma_moderation_changes_only_its_flag(
    m: Map<Seq<char>, Participant>,
    id: Seq<char>,
    action: ModerationAction,
)
    ensures
        forall|k: Seq<char>|
            k != id ==> (#[trigger] spec_moderated(m, id, action).contains_key(k) == m.contains_key(k))
                && (m.contains_key(k) ==> spec_moderated(m, id, action)[k] == m[k]),
        (action == ModerationAction::Kick || action == ModerationAction::DenyFromWaiting)
            ==> !spec_moderated(m, id, action).contains_key(id),
        !(action == ModerationAction::Kick || action == ModerationAction::DenyFromWaiting)
            ==> spec_moderated(m, id, action).contains_key(id) == m.contains_key(id),
        !(action == ModerationAction::Kick || action == ModerationAction::DenyFromWaiting)
            && m.contains_key(id) ==> ({
            let p = m[id];
            let q = spec_moderated(m, id, action)[id];
            &&& q.id == p.id
            &&& q.display_name == p.display_name
            &&& q.role == p.role
            &&& q.muted == (p.muted || action == ModerationAction::Mute)
            &&& q.video_enabled == (p.video_enabled && action != ModerationAction::VideoOff)
            &&& q.share_enabled == (p.share_enabled && action != ModerationAction::StopShare)
            &&& q.waiting_room == (p.waiting_room && action != ModerationAction::AdmitFromWaiting)
        }),
{
}

fn moderate(state: &mut ProtocolSessionState, id: &str, action: ModerationAction)
    ensures
        final(state).participants@ == spec_moderated(old(state).participants@, id@, action),
        *final(state) == (ProtocolSessionState { participants: final(state).participants, ..*old(state) }),
{
    match action {
        ModerationAction::Kick | ModerationAction::DenyFromWaiting => {
            state.participants.remove(id);
        },
        _ => {
            let updated = match state.participants.get(id) {
                Some(p) => {
                    let mut q = copy_participant(p);
                    match action {
                        ModerationAction::Mute => {
                            q.muted = true;
                        },
                        ModerationAction::VideoOff => {
                            q.video_enabled = false;
                        },
                        ModerationAction::StopShare => {
                            q.share_enabled = false;
                        },
                        _ => {
                            q.waiting_room = false;
                        },
                    }
                    Some(q)
                },
                None => None,
            };
            match updated {
                Some(q) => {
                    state.participants.insert(id.to_owned(), q);
                },
                None => {},
            }
        },
    }
}

/// The participants after a role revocation: a known participant holding
/// exactly that role goes back to plain participant.
pub open spec fn spec_revoked(m: Map<Seq<char>, Participant>, id: Seq<char>, role: ParticipantRole) -> Map<
    Seq<char>,
    Participant,
> {
    if m.contains_key(id) && m[id].role == role {
        m.insert(id, Participant { role: ParticipantRole::Participant, ..m[id] })
    } else {
        m
    }
}

/// The larger of two epochs.
pub open spec fn spec_max_i32(a: i32, b: i32) -> i32 {
    if a >= b {
        a
    } else {
        b
    }
}

/// A policy check passed: the signature is present where required and the
/// issuer may act; otherwise `r` is the rejection with the check's code and
/// message.
pub open spec fn spec_gate(
    s: ProtocolSessionState,
    now_ms: i64,
    signature: Option<String>,
    issuer: Seq<char>,
    missing_code: Seq<char>,
    missing_message: Seq<char>,
    unauthorized_code: Seq<char>,
    unauthorized_message: Seq<char>,
    r: ProtocolSessionState,
    passed: bool,
) -> bool {
    if !spec_has_required_signature(signature, s) {
        spec_policy_rejected(s, now_ms, missing_code, missing_message, r)
    } else if !spec_actor_is_authorized(issuer, s) {
        spec_policy_rejected(s, now_ms, unauthorized_code, unauthorized_message, r)
    } else {
        passed
    }
}

/// A handshake acknowledgement completes the handshake.
pub open spec fn spec_ack_applied(s: ProtocolSessionState, resume_token: String, r: ProtocolSessionState) -> bool {
    r == (ProtocolSessionState {
        handshake_complete: true,
        resume_token: Some(resume_token),
        connection_phase: if s.fallback.active {
            ConnectionPhase::FallbackActive
        } else {
            ConnectionPhase::Connected
        },
        last_error: None,
        ..s
    })
}

/// A presence delta newer than the last one applies its joins, leaves and
/// role changes; a stale or repeated one changes nothing.
pub open spec fn spec_presence_applied(
    s: ProtocolSessionState,
    joined: Seq<Participant>,
    left: Seq<String>,
    role_changes: Seq<RoleChange>,
    sequence: i64,
    r: ProtocolSessionState,
) -> bool {
    if sequence <= s.presence_sequence {
        r == s
    } else {
        &&& r == (ProtocolSessionState {
            participants: r.participants,
            presence_sequence: sequence,
            ..s
        })
        &&& r.participants@ == spec_roles_all(
            spec_leave_all(spec_join_all(s.participants@, joined), left),
            role_changes,
        )
    }
}

/// Only the participants change.
pub open spec fn spec_only_participants(
    s: ProtocolSessionState,
    r: ProtocolSessionState,
    participants: Map<Seq<char>, Participant>,
) -> bool {
    r == (ProtocolSessionState { participants: r.participants, ..s }) && r.participants@
        == participants
}

/// A session policy from an authorized issuer applies unless its epoch is
/// older than the current one, and the E2EE policy then runs.
pub open spec fn spec_policy_applied(
    s: ProtocolSessionState,
    frame: ProtocolFrame,
    now_ms: i64,
    r: ProtocolSessionState,
) -> bool {
    match frame {
        ProtocolFrame::SessionPolicy {
            room_lock,
            waiting_room_enabled,
            recording_policy,
            guest_policy,
            e2ee_required,
            max_participants,
            policy_epoch,
            ..
        } => if policy_epoch < s.policy_epoch {
            r == s
        } else {
            spec_e2ee_enforced(
                ProtocolSessionState {
                    room_locked: room_lock,
                    waiting_room_enabled,
                    recording_notice: recording_policy,
                    guest_policy,
                    e2ee_required,
                    max_participants,
                    policy_epoch,
                    ..s
                },
                now_ms,
                r,
            )
        },
        _ => false,
    }
}

/// A media profile negotiation records the profile; a downgrade from HDR to
/// SDR degrades the session, otherwise a completed handshake outside the
/// fallback is connected.
pub open spec fn spec_media_applied(s: ProtocolSessionState, profile: MediaProfileState, r: ProtocolSessionState) -> bool {
    r == (ProtocolSessionState {
        connection_phase: if profile.preferred_profile == MediaProfile::Hdr
            && profile.negotiated_profile == MediaProfile::Sdr {
            ConnectionPhase::Degraded
        } else if s.handshake_complete && !s.fallback.active {
            ConnectionPhase::Connected
        } else {
            s.connection_phase
        },
        media_profile: profile,
        ..s
    })
}

/// A server error is recorded; it puts the session in the fallback, in
/// error for a policy failure, or degraded.
pub open spec fn spec_error_applied(
    s: ProtocolSessionState,
    category: SessionErrorCategory,
    code: String,
    message: String,
    now_ms: i64,
    r: ProtocolSessionState,
) -> bool {
    r == (ProtocolSessionState {
        connection_phase: if s.fallback.active {
            ConnectionPhase::FallbackActive
        } else if category == SessionErrorCategory::PolicyFailure {
            ConnectionPhase::Error
        } else {
            ConnectionPhase::Degraded
        },
        last_error: Some(SessionError { category, code, message, at_ms: now_ms }),
        ..s
    })
}

/// What a frame does to a session state at `now_ms`.
pub open spec fn spec_frame_applied(
    s: ProtocolSessionState,
    frame: ProtocolFrame,
    now_ms: i64,
    r: ProtocolSessionState,
) -> bool {
    match frame {
        ProtocolFrame::HandshakeAck { resume_token, .. } => spec_ack_applied(s, resume_token, r),
        ProtocolFrame::ParticipantPresenceDelta { joined, left, role_changes, sequence } =>
            spec_presence_applied(s, joined@, left@, role_changes@, sequence, r),
        ProtocolFrame::RoleGrant { target_participant_id, role, granted_by, signature, .. } =>
            spec_gate(
            s,
            now_ms,
            signature,
            granted_by@,
            "role_grant_signature_missing"@,
            "RoleGrant signature is required"@,
            "role_grant_not_authorized"@,
            "RoleGrant issuer is not host/co-host"@,
            r,
            spec_only_participants(
                s,
                r,
                spec_with_role(s.participants@, target_participant_id@, role),
            ),
        ),
        ProtocolFrame::RoleRevoke { target_participant_id, role, revoked_by, signature, .. } =>
            spec_gate(
            s,
            now_ms,
            signature,
            revoked_by@,
            "role_revoke_signature_missing"@,
            "RoleRevoke signature is required"@,
            "role_revoke_not_authorized"@,
            "RoleRevoke issuer is not host/co-host"@,
            r,
            spec_only_participants(
                s,
                r,
                spec_revoked(s.participants@, target_participant_id@, role),
            ),
        ),
        ProtocolFrame::PermissionsSnapshot { participant_id, effective_permissions, epoch } => if !s.permission_snapshots@.contains_key(
            participant_id@,
        ) || epoch > s.permission_snapshots@[participant_id@].epoch {
            r == (ProtocolSessionState { permission_snapshots: r.permission_snapshots, ..s })
                && r.permission_snapshots@ == s.permission_snapshots@.insert(
                participant_id@,
                PermissionSnapshot { effective_permissions, epoch },
            )
        } else {
            r == s
        },
        ProtocolFrame::ModerationSigned { target_participant_id, action, issued_by, signature, .. } =>
            spec_gate(
            s,
            now_ms,
            signature,
            issued_by@,
            "moderation_signature_missing"@,
            "Moderation signature is required"@,
            "moderation_not_authorized"@,
            "Moderation issuer is not host/co-host"@,
            r,
            spec_only_participants(
                s,
                r,
                spec_moderated(s.participants@, target_participant_id@, action),
            ),
        ),
        ProtocolFrame::SessionPolicy { updated_by, signature, .. } => spec_gate(
            s,
            now_ms,
            signature,
            updated_by@,
            "session_policy_signature_missing"@,
            "SessionPolicy signature is required"@,
            "session_policy_not_authorized"@,
            "SessionPolicy issuer is not host/co-host"@,
            r,
            spec_policy_applied(s, frame, now_ms, r),
        ),
        ProtocolFrame::MediaProfileNegotiation {
            preferred_profile,
            negotiated_profile,
            color_primaries,
            transfer_function,
            codec,
        } => spec_media_applied(
            s,
            MediaProfileState {
                preferred_profile,
                negotiated_profile,
                color_primaries,
                transfer_function,
                codec,
            },
            r,
        ),
        ProtocolFrame::RecordingNotice { state, .. } => r == (ProtocolSessionState {
            recording_notice: state,
            ..s
        }),
        ProtocolFrame::E2eeKeyEpoch { epoch, signature, .. } => if !spec_has_required_signature(
            signature,
            s,
        ) {
            spec_policy_rejected(
                s,
                now_ms,
                "e2ee_signature_missing"@,
                "E2EE key epoch signature is required"@,
                r,
            )
        } else {
            spec_e2ee_enforced(
                ProtocolSessionState {
                    e2ee_state: E2eeState {
                        current_epoch: spec_max_i32(s.e2ee_state.current_epoch, epoch),
                        ..s.e2ee_state
                    },
                    ..s
                },
                now_ms,
                r,
            )
        },
        ProtocolFrame::KeyRotationAck { ack_epoch, .. } => r == (ProtocolSessionState {
            e2ee_state: E2eeState {
                last_ack_epoch: spec_max_i32(s.e2ee_state.last_ack_epoch, ack_epoch),
                ..s.e2ee_state
            },
            ..s
        }),
        ProtocolFrame::PaymentPolicy { required, destination_account } => spec_payment_enforced(
            ProtocolSessionState {
                payment_state: PaymentState {
                    required,
                    destination: destination_account,
                    settlement_status: if required {
                        PaymentSettlementStatus::Pending
                    } else {
                        PaymentSettlementStatus::NotRequired
                    },
                },
                ..s
            },
            now_ms,
            r,
        ),
        ProtocolFrame::PaymentSettlement { status } => spec_payment_enforced(
            ProtocolSessionState {
                payment_state: PaymentState { settlement_status: status, ..s.payment_state },
                ..s
            },
            now_ms,
            r,
        ),
        ProtocolFrame::Error { category, code, message } => spec_error_applied(
            s,
            category,
            code,
            message,
            now_ms,
            r,
        ),
        _ => r == s,
    }
}

/// The issuer and signature of a frame that only the system, a host or a
/// co-host may send: role grants and revocations, signed moderation and
/// session policy.
pub open spec fn spec_control_issuer(frame: ProtocolFrame) -> Option<(Seq<char>, Option<String>)> {
    match frame {
        ProtocolFrame::RoleGrant { granted_by, signature, .. } => Some((granted_by@, signature)),
        ProtocolFrame::RoleRevoke { revoked_by, signature, .. } => Some((revoked_by@, signature)),
        ProtocolFrame::ModerationSigned { issued_by, signature, .. } => Some((issued_by@, signature)),
        ProtocolFrame::SessionPolicy { updated_by, signature, .. } => Some((updated_by@, signature)),
        _ => None,
    }
}

/// A role grant, role revocation, signed moderation or session policy from
/// an issuer that is neither the system nor a known host or co-host, or
/// without a signature where signatures are required, is refused: the
/// participants and the room policy stay as they were, and a policy
/// failure is recorded.
pub proof fn lemma_control_frames_need_authority(
    s: ProtocolSessionState,
    frame: ProtocolFrame,
    now_ms: i64,
    r: ProtocolSessionState,
)
    requires
        spec_frame_applied(s, frame, now_ms, r),
    ensures
        spec_control_issuer(frame) matches Some((issuer, signature)) && ((s.config.require_signed_moderation
            && signature is None) || (issuer != "system"@ && !(s.participants@.contains_key(issuer) && (
        s.participants@[issuer].role == ParticipantRole::Host || s.participants@[issuer].role
            == ParticipantRole::CoHost)))) ==> {
            &&& r.participants@ == s.participants@
            &&& r.room_locked == s.room_locked
            &&& r.waiting_room_enabled == s.waiting_room_enabled
            &&& r.guest_policy == s.guest_policy
            &&& r.e2ee_required == s.e2ee_required
            &&& r.max_participants == s.max_participants
            &&& r.policy_epoch == s.policy_epoch
            &&& r.last_error matches Some(e) && e.category == SessionErrorCategory::PolicyFailure
        },
{
}

/// A role grant gives a known participant the role and changes nothing
/// else; a revocation takes a known participant holding exactly the revoked
/// role back to plain participant and changes nothing else; neither adds,
/// removes or changes any other participant, and an unknown target changes
/// nothing.
pub proof fn lemma_role_changes_touch_only_the_role(
    m: Map<Seq<char>, Participant>,
    id: Seq<char>,
    role: ParticipantRole,
)
    ensures
        spec_with_role(m, id, role).dom() == m.dom(),
        spec_revoked(m, id, role).dom() == m.dom(),
        forall|k: Seq<char>|
            k != id && #[trigger] m.contains_key(k) ==> spec_with_role(m, id, role)[k] == m[k]
                && spec_revoked(m, id, role)[k] == m[k],
        m.contains_key(id) ==> spec_with_role(m, id, role)[id] == (Participant { role, ..m[id] }),
        m.contains_key(id) && m[id].role == role ==> spec_revoked(m, id, role)[id] == (Participant {
            role: ParticipantRole::Participant,
            ..m[id]
        }),
        !(m.contains_key(id) && m[id].role == role) ==> spec_revoked(m, id, role) == m,
{
    if m.contains_key(id) {
        assert(spec_with_role(m, id, role).dom() =~= m.dom());
        if m[id].role == role {
            assert(spec_revoked(m, id, role).dom() =~= m.dom());
        }
    }
}

/// The E2EE policy check: a session that requires E2EE and has no key
/// epoch yet ends in the `e2ee_epoch_required` policy failure; any other
/// session records no new error (an earlier error stays, or an E2EE policy
/// error is cleared). Only the phase, the fallback and the last error can
/// change.
pub proof fn lemma_e2ee_policy_check(s: ProtocolSessionState, now_ms: i64, r: ProtocolSessionState)
    requires
        spec_e2ee_enforced(s, now_ms, r),
    ensures
        r == (ProtocolSessionState {
            connection_phase: r.connection_phase,
            fallback: r.fallback,
            last_error: r.last_error,
            ..s
        }),
        s.e2ee_required && s.e2ee_state.current_epoch <= 0 ==> (r.last_error matches Some(e)
            && e.category == SessionErrorCategory::PolicyFailure && e.code@ == "e2ee_epoch_required"@),
        !(s.e2ee_required && s.e2ee_state.current_epoch <= 0) ==> (r.last_error is None || r.last_error
            == s.last_error),
{
}

/// The payment settlement check: when the session requires settlement and
/// the room requires payment, a pending payment ends in the
/// `payment_settlement_required` policy failure and a blocked one in
/// `payment_settlement_blocked`; any other session records no new error.
/// Only the phase, the fallback and the last error can change.
pub proof fn lemma_payment_policy_check(s: ProtocolSessionState, now_ms: i64, r: ProtocolSessionState)
    requires
        spec_payment_enforced(s, now_ms, r),
    ensures
        r == (ProtocolSessionState {
            connection_phase: r.connection_phase,
            fallback: r.fallback,
            last_error: r.last_error,
            ..s
        }),
        s.config.require_payment_settlement && s.payment_state.required
            && s.payment_state.settlement_status == PaymentSettlementStatus::Pending ==> (r.last_error
            matches Some(e) && e.category == SessionErrorCategory::PolicyFailure && e.code@
            == "payment_settlement_required"@),
        s.config.require_payment_settlement && s.payment_state.required
            && s.payment_state.settlement_status == PaymentSettlementStatus::Blocked ==> (r.last_error
            matches Some(e) && e.category == SessionErrorCategory::PolicyFailure && e.code@
            == "payment_settlement_blocked"@),
        !(s.config.require_payment_settlement && s.payment_state.required && (
        s.payment_state.settlement_status == PaymentSettlementStatus::Pending
            || s.payment_state.settlement_status == PaymentSettlementStatus::Blocked))
            ==> (r.last_error is None || r.last_error == s.last_error),
{
}

/// A session policy that passes its checks and is not older than the
/// current one sets the room lock, the waiting room, the recording notice,
/// the guest policy, the E2EE requirement, the participant cap and the
/// policy epoch to the frame's values, and leaves the participants as they
/// were; an older one changes nothing.
pub proof fn lemma_session_policy_applies(
    s: ProtocolSessionState,
    frame: ProtocolFrame,
    now_ms: i64,
    r: ProtocolSessionState,
)
    requires
        spec_frame_applied(s, frame, now_ms, r),
        frame is SessionPolicy,
        spec_has_required_signature(frame->SessionPolicy_signature, s),
        spec_actor_is_authorized(frame->SessionPolicy_updated_by@, s),
    ensures
        frame->SessionPolicy_policy_epoch < s.policy_epoch ==> r == s,
        frame->SessionPolicy_policy_epoch >= s.policy_epoch ==> {
            &&& r.room_locked == frame->SessionPolicy_room_lock
            &&& r.waiting_room_enabled == frame->SessionPolicy_waiting_room_enabled
            &&& r.recording_notice == frame->SessionPolicy_recording_policy
            &&& r.guest_policy == frame->SessionPolicy_guest_policy
            &&& r.e2ee_required == frame->SessionPolicy_e2ee_required
            &&& r.max_participants == frame->SessionPolicy_max_participants
            &&& r.policy_epoch == frame->SessionPolicy_policy_epoch
            &&& r.participants == s.participants
        },
{
}

fn gate(
    state: ProtocolSessionState,
    now_ms: i64,
    signature: &Option<String>,
    issuer: &str,
    missing_code: &str,
    missing_message: &str,
    unauthorized_code: &str,
    unauthorized_message: &str,
) -> (r: Result<ProtocolSessionState, ProtocolSessionState>)
    ensures
        match r {
            Ok(t) => t == state && spec_has_required_signature(*signature, state)
                && spec_actor_is_authorized(issuer@, state),
            Err(t) => spec_gate(
                state,
                now_ms,
                *signature,
                issuer@,
                missing_code@,
                missing_message@,
                unauthorized_code@,
                unauthorized_message@,
                t,
                false,
            ),
        },
{
    if !has_required_signature(signature, &state) {
        return Err(policy_reject(state, now_ms, missing_code, missing_message));
    }
    if !actor_is_authorized(issuer, &state) {
        return Err(policy_reject(state, now_ms, unauthorized_code, unauthorized_message));
    }
    Ok(state)
}

fn apply_ack(state: ProtocolSessionState, resume_token: String) -> (r: ProtocolSessionState)
    ensures
        spec_ack_applied(state, resume_token, r),
{
    let mut state = state;
    state.handshake_complete = true;
    state.resume_token = Some(resume_token);
    state.connection_phase = if state.fallback.active {
        ConnectionPhase::FallbackActive
    } else {
        ConnectionPhase::Connected
    };
    state.last_error = None;
    state
}

fn apply_presence(
    state: ProtocolSessionState,
    joined: Vec<Participant>,
    left: Vec<String>,
    role_changes: Vec<RoleChange>,
    sequence: i64,
) -> (r: ProtocolSessionState)
    ensures
        spec_presence_applied(state, joined@, left@, role_changes@, sequence, r),
{
    let mut state = state;
    if sequence <= state.presence_sequence {
        return state;
    }
    apply_presence_delta(&mut state, &joined, &left, &role_changes);
    state.presence_sequence = sequence;
    state
}

fn apply_revoke(state: ProtocolSessionState, target: &str, role: ParticipantRole) -> (r:
    ProtocolSessionState)
    ensures
        spec_only_participants(state, r, spec_revoked(state.participants@, target@, role)),
{
    let mut state = state;
    let holds = match state.participants.get(target) {
        Some(p) => p.role == role,
        None => false,
    };
    if holds {
        set_role(&mut state, target, ParticipantRole::Participant);
    }
    state
}

fn apply_snapshot(
    state: ProtocolSessionState,
    participant_id: String,
    effective_permissions: Vec<String>,
    epoch: i32,
) -> (r: ProtocolSessionState)
    ensures
        if !state.permission_snapshots@.contains_key(participant_id@) || epoch
            > state.permission_snapshots@[participant_id@].epoch {
            r == (ProtocolSessionState { permission_snapshots: r.permission_snapshots, ..state })
                && r.permission_snapshots@ == state.permission_snapshots@.insert(
                participant_id@,
                PermissionSnapshot { effective_permissions, epoch },
            )
        } else {
            r == state
        },
{
    let mut state = state;
    let should_apply = match state.permission_snapshots.get(participant_id.as_str()) {
        Some(snapshot) => epoch > snapshot.epoch,
        None => true,
    };
    if should_apply {
        state.permission_snapshots.insert(
            participant_id,
            PermissionSnapshot { effective_permissions, epoch },
        );
    }
    state
}

#[verifier::rlimit(30)]
fn apply_policy(state: ProtocolSessionState, frame: ProtocolFrame, now_ms: i64) -> (r:
    ProtocolSessionState)
    requires
        frame is SessionPolicy,
    ensures
        spec_policy_applied(state, frame, now_ms, r),
{
    let mut state = state;
    match frame {
        ProtocolFrame::SessionPolicy {
            room_lock,
            waiting_room_enabled,
            recording_policy,
            guest_policy,
            e2ee_required,
            max_participants,
            policy_epoch,
            ..
        } => {
            if policy_epoch < state.policy_epoch {
                return state;
            }
            state.room_locked = room_lock;
            state.waiting_room_enabled = waiting_room_enabled;
            state.recording_notice = recording_policy;
            state.guest_policy = guest_policy;
            state.e2ee_required = e2ee_required;
            state.max_participants = max_participants;
            state.policy_epoch = policy_epoch;
            enforce_e2ee_epoch_policy(state, now_ms)
        },
        _ => state,
    }
}

fn apply_media(state: ProtocolSessionState, profile: MediaProfileState) -> (r: ProtocolSessionState)
    ensures
        spec_media_applied(state, profile, r),
{
    let mut state = state;
    let degraded = match (profile.preferred_profile, profile.negotiated_profile) {
        (MediaProfile::Hdr, MediaProfile::Sdr) => true,
        _ => false,
    };
    state.media_profile = profile;
    if degraded {
        state.connection_phase = ConnectionPhase::Degraded;
    } else if state.handshake_complete && !state.fallback.active {
        state.connection_phase = ConnectionPhase::Connected;
    }
    state
}

fn apply_e2ee_epoch(state: ProtocolSessionState, epoch: i32, now_ms: i64) -> (r:
    ProtocolSessionState)
    ensures
        spec_e2ee_enforced(
            ProtocolSessionState {
                e2ee_state: E2eeState {
                    current_epoch: spec_max_i32(state.e2ee_state.current_epoch, epoch),
                    ..state.e2ee_state
                },
                ..state
            },
            now_ms,
            r,
        ),
{
    let mut state = state;
    if epoch > state.e2ee_state.current_epoch {
        state.e2ee_state.current_epoch = epoch;
    }
    enforce_e2ee_epoch_policy(state, now_ms)
}

fn apply_payment_policy(
    state: ProtocolSessionState,
    required: bool,
    destination_account: Option<String>,
    now_ms: i64,
) -> (r: ProtocolSessionState)
    ensures
        spec_payment_enforced(
            ProtocolSessionState {
                payment_state: PaymentState {
                    required,
                    destination: destination_account,
                    settlement_status: if required {
                        PaymentSettlementStatus::Pending
                    } else {
                        PaymentSettlementStatus::NotRequired
                    },
                },
                ..state
            },
            now_ms,
            r,
        ),
{
    let mut state = state;
    state.payment_state = PaymentState {
        required,
        destination: destination_account,
        settlement_status: if required {
            PaymentSettlementStatus::Pending
        } else {
            PaymentSettlementStatus::NotRequired
        },
    };
    enforce_payment_settlement_policy(state, now_ms)
}

fn apply_settlement(state: ProtocolSessionState, status: PaymentSettlementStatus, now_ms: i64) -> (r:
    ProtocolSessionState)
    ensures
        spec_payment_enforced(
            ProtocolSessionState {
                payment_state: PaymentState { settlement_status: status, ..state.payment_state },
                ..state
            },
            now_ms,
            r,
        ),
{
    let mut state = state;
    state.payment_state.settlement_status = status;
    enforce_payment_settlement_policy(state, now_ms)
}

fn apply_error(
    state: ProtocolSessionState,
    category: SessionErrorCategory,
    code: String,
    message: String,
    now_ms: i64,
) -> (r: ProtocolSessionState)
    ensures
        spec_error_applied(state, category, code, message, now_ms, r),
{
    let mut state = state;
    state.connection_phase = if state.fallback.active {
        ConnectionPhase::FallbackActive
    } else {
        match category {
            SessionErrorCategory::PolicyFailure => ConnectionPhase::Error,
            _ => ConnectionPhase::Degraded,
        }
    };
    state.last_error = Some(SessionError { category, code, message, at_ms: now_ms });
    state
}

/// Applies one received frame to the session state at `now_ms`.
#[verifier::rlimit(60)]
pub fn reduce_frame(state: ProtocolSessionState, frame: ProtocolFrame, now_ms: i64) -> (r:
    ProtocolSessionState)
    ensures
        spec_frame_applied(state, frame, now_ms, r),
{
    let ghost f0 = frame;
    match frame {
        ProtocolFrame::HandshakeAck { resume_token, .. } => apply_ack(state, resume_token),
        ProtocolFrame::ParticipantPresenceDelta { joined, left, role_changes, sequence } =>
            apply_presence(state, joined, left, role_changes, sequence),
        ProtocolFrame::RoleGrant { target_participant_id, role, granted_by, signature, .. } => {
            match gate(
                state,
                now_ms,
                &signature,
                granted_by.as_str(),
                "role_grant_signature_missing",
                "RoleGrant signature is required",
                "role_grant_not_authorized",
                "RoleGrant issuer is not host/co-host",
            ) {
                Err(t) => t,
                Ok(t) => {
                    let mut t = t;
                    set_role(&mut t, target_participant_id.as_str(), role);
                    t
                },
            }
        },
        ProtocolFrame::RoleRevoke { target_participant_id, role, revoked_by, signature, .. } => {
            match gate(
                state,
                now_ms,
                &signature,
                revoked_by.as_str(),
                "role_revoke_signature_missing",
                "RoleRevoke signature is required",
                "role_revoke_not_authorized",
                "RoleRevoke issuer is not host/co-host",
            ) {
                Err(t) => t,
                Ok(t) => apply_revoke(t, target_participant_id.as_str(), role),
            }
        },
        ProtocolFrame::PermissionsSnapshot { participant_id, effective_permissions, epoch } =>
            apply_snapshot(state, participant_id, effective_permissions, epoch),
        ProtocolFrame::ModerationSigned { target_participant_id, action, issued_by, signature, .. } => {
            match gate(
                state,
                now_ms,
                &signature,
                issued_by.as_str(),
                "moderation_signature_missing",
                "Moderation signature is required",
                "moderation_not_authorized",
                "Moderation issuer is not host/co-host",
            ) {
                Err(t) => t,
                Ok(t) => {
                    let mut t = t;
                    moderate(&mut t, target_participant_id.as_str(), action);
                    t
                },
            }
        },
        ProtocolFrame::SessionPolicy { .. } => {
            let (updated_by, signature) = match &frame {
                ProtocolFrame::SessionPolicy { updated_by, signature, .. } => (
                    updated_by.clone(),
                    crate::hub::room::copy_opt_text(signature),
                ),
                _ => (String::new(), None),
            };
            match gate(
                state,
                now_ms,
                &signature,
                updated_by.as_str(),
                "session_policy_signature_missing",
                "SessionPolicy signature is required",
                "session_policy_not_authorized",
                "SessionPolicy issuer is not host/co-host",
            ) {
                Err(t) => t,
                Ok(t) => apply_policy(t, frame, now_ms),
            }
        },
        ProtocolFrame::MediaProfileNegotiation {
            preferred_profile,
            negotiated_profile,
            color_primaries,
            transfer_function,
            codec,
        } => apply_media(
            state,
            MediaProfileState {
                preferred_profile,
                negotiated_profile,
                color_primaries,
                transfer_function,
                codec,
            },
        ),
        ProtocolFrame::RecordingNotice { state: recording_state, .. } => {
            let mut t = state;
            t.recording_notice = recording_state;
            t
        },
        ProtocolFrame::E2eeKeyEpoch { epoch, signature, .. } => {
            if !has_required_signature(&signature, &state) {
                return policy_reject(
                    state,
                    now_ms,
                    "e2ee_signature_missing",
                    "E2EE key epoch signature is required",
                );
            }
            apply_e2ee_epoch(state, epoch, now_ms)
        },
        ProtocolFrame::KeyRotationAck { ack_epoch, .. } => {
            let mut t = state;
            if ack_epoch > t.e2ee_state.last_ack_epoch {
                t.e2ee_state.last_ack_epoch = ack_epoch;
            }
            t
        },
        ProtocolFrame::PaymentPolicy { required, destination_account } => apply_payment_policy(
            state,
            required,
            destination_account,
            now_ms,
        ),
        ProtocolFrame::PaymentSettlement { status } => apply_settlement(state, status, now_ms),
        ProtocolFrame::Error { category, code, message } => apply_error(
            state,
            category,
            code,
            message,
            now_ms,
        ),
        ProtocolFrame::Handshake { .. } | ProtocolFrame::DeviceCapability { .. }
        | ProtocolFrame::Ping { .. } | ProtocolFrame::Pong { .. } => state,
    }
}

/// `r` is `s` degraded by a transport problem with `code`: within the
/// fallback the session stays there (and, unless `keep_handshake`, loses
/// its handshake); otherwise it is degraded and records the problem.
pub open spec fn spec_transport_problem(
    s: ProtocolSessionState,
    code: Seq<char>,
    message: String,
    keep_handshake: bool,
    now_ms: i64,
    r: ProtocolSessionState,
) -> bool {
    let handshake = if keep_handshake {
        s.handshake_complete
    } else {
        false
    };
    if s.fallback.active {
        r == (ProtocolSessionState {
            connection_phase: ConnectionPhase::FallbackActive,
            handshake_complete: handshake,
            ..s
        })
    } else {
        &&& r == (ProtocolSessionState {
            connection_phase: ConnectionPhase::Degraded,
            handshake_complete: handshake,
            last_error: r.last_error,
            ..s
        })
        &&& r.last_error matches Some(e) && e.category == SessionErrorCategory::TransportFailure
            && e.code@ == code && e.message == message && e.at_ms == now_ms
    }
}

/// The recovery time of a fallback: from its activation to `now_ms`, never
/// negative.
pub open spec fn spec_rto(activated_at_ms: Option<i64>, now_ms: i64) -> Option<i64> {
    match activated_at_ms {
        Some(at) => Some(
            if now_ms - at >= 0 {
                (now_ms - at) as i64
            } else {
                0
            },
        ),
        None => None,
    }
}

/// The recovery time is representable.
pub open spec fn spec_rto_fits(s: ProtocolSessionState, now_ms: i64) -> bool {
    s.fallback.activated_at_ms matches Some(at) ==> i64::MIN <= now_ms - at <= i64::MAX
}

/// What an event does to a session state at `now_ms`.
pub open spec fn spec_event_applied(
    s: ProtocolSessionState,
    event: ProtocolEvent,
    now_ms: i64,
    r: ProtocolSessionState,
) -> bool {
    match event {
        ProtocolEvent::ConnectRequested => r == (ProtocolSessionState {
            connection_phase: ConnectionPhase::Connecting,
            handshake_complete: false,
            last_error: None,
            ..s
        }),
        ProtocolEvent::TransportConnected => r == (ProtocolSessionState {
            connection_phase: ConnectionPhase::Connecting,
            last_error: None,
            ..s
        }),
        ProtocolEvent::TransportDisconnected { reason } => spec_transport_problem(
            s,
            "transport_disconnected"@,
            reason,
            false,
            now_ms,
            r,
        ),
        ProtocolEvent::TransportFailure { message } => spec_transport_problem(
            s,
            "transport_failure"@,
            message,
            false,
            now_ms,
            r,
        ),
        ProtocolEvent::FrameSendFailed { message } => spec_transport_problem(
            s,
            "send_failed"@,
            message,
            true,
            now_ms,
            r,
        ),
        ProtocolEvent::ManualDisconnected => r == (ProtocolSessionState {
            connection_phase: ConnectionPhase::Disconnected,
            handshake_complete: false,
            last_error: None,
            ..s
        }),
        ProtocolEvent::FallbackActivated { reason } => {
            &&& r == (ProtocolSessionState {
                connection_phase: ConnectionPhase::FallbackActive,
                fallback: FallbackState {
                    active: true,
                    reason: Some(reason),
                    activated_at_ms: Some(now_ms),
                    ..s.fallback
                },
                last_error: r.last_error,
                ..s
            })
            &&& r.last_error matches Some(e) && e.category == SessionErrorCategory::TransportFailure
                && e.code@ == "fallback_activated"@ && e.message == reason && e.at_ms == now_ms
        },
        ProtocolEvent::FallbackRecovered => r == (ProtocolSessionState {
            connection_phase: ConnectionPhase::Disconnected,
            fallback: FallbackState {
                active: false,
                reason: None,
                recovered_at_ms: Some(now_ms),
                last_rto_ms: spec_rto(s.fallback.activated_at_ms, now_ms),
                ..s.fallback
            },
            ..s
        }),
        ProtocolEvent::ConfigUpdated { config } => spec_payment_enforced(
            ProtocolSessionState { config, ..s },
            now_ms,
            r,
        ),
        ProtocolEvent::FrameReceived { frame } => spec_frame_applied(s, frame, now_ms, r),
    }
}

/// Transport events touch only the connection: the participants, the room
/// policy and the payment state stay as they were. A disconnect, a failure
/// or a failed send outside the web fallback degrades the session and
/// records a transport failure; inside the fallback the session stays in
/// the fallback with its error unchanged. A disconnect or failure loses the
/// handshake, a failed send keeps it. Leaving the fallback records the
/// recovery time from its activation, never negative.
pub proof fn lemma_transport_events(s: ProtocolSessionState, event: ProtocolEvent, now_ms: i64, r: ProtocolSessionState)
    requires
        spec_event_applied(s, event, now_ms, r),
    ensures
        (event is TransportDisconnected || event is TransportFailure || event is FrameSendFailed) ==> {
            &&& r.participants == s.participants
            &&& r.policy_epoch == s.policy_epoch
            &&& r.payment_state == s.payment_state
            &&& r.fallback == s.fallback
            &&& s.fallback.active ==> r.connection_phase == ConnectionPhase::FallbackActive
                && r.last_error == s.last_error
            &&& !s.fallback.active ==> r.connection_phase == ConnectionPhase::Degraded
                && (r.last_error matches Some(e) && e.category == SessionErrorCategory::TransportFailure
                && e.at_ms == now_ms)
            &&& event is FrameSendFailed ==> r.handshake_complete == s.handshake_complete
            &&& !(event is FrameSendFailed) ==> !r.handshake_complete
        },
        event is FallbackRecovered ==> {
            &&& !r.fallback.active
            &&& r.fallback.recovered_at_ms == Some(now_ms)
            &&& r.connection_phase == ConnectionPhase::Disconnected
            &&& r.participants == s.participants
            &&& s.fallback.activated_at_ms matches Some(at) ==> (now_ms - at <= 0x7fff_ffff_ffff_ffff
                ==> (r.fallback.last_rto_ms matches Some(rto) && rto >= 0 && (now_ms >= at ==> rto
                == now_ms - at)))
        },
        event is FallbackActivated ==> r.fallback.active && r.connection_phase
            == ConnectionPhase::FallbackActive && r.fallback.activated_at_ms == Some(now_ms)
            && r.participants == s.participants,
{
}

fn transport_problem(
    state: ProtocolSessionState,
    code: &str,
    message: String,
    keep_handshake: bool,
    now_ms: i64,
) -> (r: ProtocolSessionState)
    ensures
        spec_transport_problem(state, code@, message, keep_handshake, now_ms, r),
{
    let mut state = state;
    if !keep_handshake {
        state.handshake_complete = false;
    }
    if state.fallback.active {
        state.connection_phase = ConnectionPhase::FallbackActive;
        return state;
    }
    state.connection_phase = ConnectionPhase::Degraded;
    state.last_error = Some(
        SessionError {
            category: SessionErrorCategory::TransportFailure,
            code: code.to_owned(),
            message,
            at_ms: now_ms,
        },
    );
    state
}

/// Applies one event to the session state at `now_ms`.
pub fn reduce(state: ProtocolSessionState, event: ProtocolEvent, now_ms: i64) -> (r:
    ProtocolSessionState)
    requires
        event is FallbackRecovered ==> spec_rto_fits(state, now_ms),
    ensures
        spec_event_applied(state, event, now_ms, r),
{
    let mut state = state;
    match event {
        ProtocolEvent::ConnectRequested => {
            state.connection_phase = ConnectionPhase::Connecting;
            state.handshake_complete = false;
            state.last_error = None;
            state
        },
        ProtocolEvent::TransportConnected => {
            state.connection_phase = ConnectionPhase::Connecting;
            state.last_error = None;
            state
        },
        ProtocolEvent::TransportDisconnected { reason } => transport_problem(
            state,
            "transport_disconnected",
            reason,
            false,
            now_ms,
        ),
        ProtocolEvent::TransportFailure { message } => transport_problem(
            state,
            "transport_failure",
            message,
            false,
            now_ms,
        ),
        ProtocolEvent::FrameSendFailed { message } => transport_problem(
            state,
            "send_failed",
            message,
            true,
            now_ms,
        ),
        ProtocolEvent::ManualDisconnected => {
            state.connection_phase = ConnectionPhase::Disconnected;
            state.handshake_complete = false;
            state.last_error = None;
            state
        },
        ProtocolEvent::FallbackActivated { reason } => {
            state.connection_phase = ConnectionPhase::FallbackActive;
            state.fallback.active = true;
            state.fallback.reason = Some(reason.clone());
            state.fallback.activated_at_ms = Some(now_ms);
            state.last_error = Some(
                SessionError {
                    category: SessionErrorCategory::TransportFailure,
                    code: "fallback_activated".to_owned(),
                    message: reason,
                    at_ms: now_ms,
                },
            );
            state
        },
        ProtocolEvent::FallbackRecovered => {
            let rto = match state.fallback.activated_at_ms {
                Some(at) => {
                    let d = now_ms - at;
                    Some(
                        if d >= 0 {
                            d
                        } else {
                            0
                        },
                    )
                },
                None => None,
            };
            state.connection_phase = ConnectionPhase::Disconnected;
            state.fallback.active = false;
            state.fallback.reason = None;
            state.fallback.recovered_at_ms = Some(now_ms);
            state.fallback.last_rto_ms = rto;
            state
        },
        ProtocolEvent::ConfigUpdated { config } => {
            state.config = config;
            enforce_payment_settlement_policy(state, now_ms)
        },
        ProtocolEvent::FrameReceived { frame } => reduce_frame(state, frame, now_ms),
    }
}

/// The counters a session keeps only move forward: whatever event it
/// takes, its presence sequence, policy epoch, E2EE key epoch and
/// acknowledged epoch never decrease, and a recovered fallback's recovery
/// time is never negative.
pub proof fn lemma_session_counters_monotone(
    s: ProtocolSessionState,
    event: ProtocolEvent,
    now_ms: i64,
    r: ProtocolSessionState,
)
    requires
        spec_event_applied(s, event, now_ms, r),
    ensures
        r.presence_sequence >= s.presence_sequence,
        r.policy_epoch >= s.policy_epoch,
        r.e2ee_state.current_epoch >= s.e2ee_state.current_epoch,
        r.e2ee_state.last_ack_epoch >= s.e2ee_state.last_ack_epoch,
        event is FallbackRecovered && spec_rto_fits(s, now_ms) ==> (r.fallback.last_rto_ms matches Some(
            t,
        ) ==> t >= 0),
{
}

/// A presence delta whose sequence is not newer than the session's is
/// ignored entirely, so a replayed or reordered delta never undoes a newer
/// one.
pub proof fn lemma_stale_presence_delta_ignored(
    s: ProtocolSessionState,
    joined: Vec<Participant>,
    left: Vec<String>,
    role_changes: Vec<RoleChange>,
    sequence: i64,
    now_ms: i64,
    r: ProtocolSessionState,
)
    requires
        sequence <= s.presence_sequence,
        spec_event_applied(
            s,
            ProtocolEvent::FrameReceived {
                frame: ProtocolFrame::ParticipantPresenceDelta { joined, left, role_changes, sequence },
            },
            now_ms,
            r,
        ),
    ensures
        r == s,
{
}

/// Joining adds every joined id and keeps every id already there.
proof fn lemma_join_all_keys(m: Map<Seq<char>, Participant>, joined: Seq<Participant>)
    ensures
        forall|i: int| 0 <= i < joined.len() ==> #[trigger] spec_join_all(m, joined).contains_key(
            joined[i].id@,
        ),
        forall|k: Seq<char>| m.contains_key(k) ==> #[trigger] spec_join_all(m, joined).contains_key(k),
    decreases joined.len(),
{
    if joined.len() > 0 {
        let prev = spec_join_all(m, joined.drop_last());
        let last = joined.last();
        lemma_join_all_keys(m, joined.drop_last());
        assert(spec_join_all(m, joined) == prev.insert(last.id@, last));
        assert forall|i: int| 0 <= i < joined.len() implies #[trigger] spec_join_all(
            m,
            joined,
        ).contains_key(joined[i].id@) by {
            if i < joined.len() - 1 {
                assert(joined.drop_last()[i] == joined[i]);
                assert(prev.contains_key(joined.drop_last()[i].id@));
            }
        }
        assert forall|k: Seq<char>| m.contains_key(k) implies #[trigger] spec_join_all(
            m,
            joined,
        ).contains_key(k) by {
            assert(prev.contains_key(k));
        }
    }
}

/// Leaving removes every id that left and keeps every other id.
proof fn lemma_leave_all_keys(m: Map<Seq<char>, Participant>, left: Seq<String>)
    ensures
        forall|i: int| 0 <= i < left.len() ==> !#[trigger] spec_leave_all(m, left).contains_key(
            left[i]@,
        ),
        forall|k: Seq<char>|
            m.contains_key(k) && (forall|i: int| 0 <= i < left.len() ==> left[i]@ != k)
                ==> #[trigger] spec_leave_all(m, left).contains_key(k),
    decreases left.len(),
{
    if left.len() > 0 {
        let prev = spec_leave_all(m, left.drop_last());
        let last = left.last();
        lemma_leave_all_keys(m, left.drop_last());
        assert(spec_leave_all(m, left) == prev.remove(last@));
        assert forall|i: int| 0 <= i < left.len() implies !#[trigger] spec_leave_all(
            m,
            left,
        ).contains_key(left[i]@) by {
            if i < left.len() - 1 {
                assert(left.drop_last()[i] == left[i]);
                assert(!prev.contains_key(left.drop_last()[i]@));
            }
        }
        assert forall|k: Seq<char>|
            m.contains_key(k) && (forall|i: int| 0 <= i < left.len() ==> left[i]@ != k) implies #[trigger] spec_leave_all(
            m,
            left,
        ).contains_key(k) by {
            assert forall|i: int| 0 <= i < left.drop_last().len() implies left.drop_last()[i]@ != k by {
                assert(left.drop_last()[i] == left[i]);
            }
            assert(prev.contains_key(k));
            assert(left[left.len() - 1]@ != k);
        }
    }
}

/// Role changes keep the set of known ids.
proof fn lemma_roles_all_keys(m: Map<Seq<char>, Participant>, changes: Seq<RoleChange>)
    ensures
        spec_roles_all(m, changes).dom() == m.dom(),
    decreases changes.len(),
{
    if changes.len() > 0 {
        lemma_roles_all_keys(m, changes.drop_last());
        let prev = spec_roles_all(m, changes.drop_last());
        assert(spec_with_role(prev, changes.last().participant_id@, changes.last().role).dom()
            =~= prev.dom());
    }
}

/// A presence delta newer than the session's is taken: the session's
/// sequence becomes the delta's, every id that left is gone, every joined id
/// that did not also leave is present, and nothing but the participants and
/// the sequence changes.
pub proof fn lemma_fresh_presence_delta_applies(
    s: ProtocolSessionState,
    joined: Vec<Participant>,
    left: Vec<String>,
    role_changes: Vec<RoleChange>,
    sequence: i64,
    now_ms: i64,
    r: ProtocolSessionState,
)
    requires
        sequence > s.presence_sequence,
        spec_event_applied(
            s,
            ProtocolEvent::FrameReceived {
                frame: ProtocolFrame::ParticipantPresenceDelta { joined, left, role_changes, sequence },
            },
            now_ms,
            r,
        ),
    ensures
        r.presence_sequence == sequence,
        forall|i: int| 0 <= i < left@.len() ==> !r.participants@.contains_key(#[trigger] left@[i]@),
        forall|i: int|
            0 <= i < joined@.len() && (forall|j: int| 0 <= j < left@.len() ==> left@[j]@ != joined@[i].id@)
                ==> r.participants@.contains_key(#[trigger] joined@[i].id@),
        r == (ProtocolSessionState { participants: r.participants, presence_sequence: sequence, ..s }),
{
    let joined_map = spec_join_all(s.participants@, joined@);
    let left_map = spec_leave_all(joined_map, left@);
    lemma_join_all_keys(s.participants@, joined@);
    lemma_leave_all_keys(joined_map, left@);
    lemma_roles_all_keys(left_map, role_changes@);
    assert forall|i: int|
        0 <= i < joined@.len() && (forall|j: int| 0 <= j < left@.len() ==> left@[j]@ != joined@[i].id@)
        implies r.participants@.contains_key(#[trigger] joined@[i].id@) by {
        assert(joined_map.contains_key(joined@[i].id@));
        assert(left_map.contains_key(joined@[i].id@));
    }
    assert forall|i: int| 0 <= i < left@.len() implies !r.participants@.contains_key(
        #[trigger] left@[i]@,
    ) by {
        assert(!left_map.contains_key(left@[i]@));
    }
}

} // verus!
