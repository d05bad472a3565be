use kaigi::codec::{deterministic_signature_hex, is_valid_hex_len, is_valid_tx_hash_hex};
use kaigi::hub::anon::{
    apply_anon_hello_state, validate_anon_participant_handle, validate_anonymous_room_capacity,
    validate_encrypted_control_room_recipients,
};
use kaigi::hub::frames::{
    ModerationAction, ModerationFrame, ModerationSignedFrame, RoleGrantFrame, RoleKind,
    RoleRevokeFrame, SessionPolicyFrame,
};
use kaigi::hub::limits::DEFAULT_ANON_MAX_PARTICIPANTS;
use kaigi::hub::membership::{admit_waiting_participant, deny_waiting_participant, validate_join_allowed};
use kaigi::hub::roles::{
    apply_role_grant, apply_role_revoke, apply_session_policy_update,
    validate_moderation_sender_clock,
};
use kaigi::hub::room::{
    enforce_signed_action_clock, permissions_snapshot_for_conn, record_anon_admission_rejection,
    ParticipantState, RoomState,
};
use kaigi::hub::signing::moderation_signed_signature_is_valid;
use kaigi::wire::{
    AnonHelloFrame, EncryptedControlFrame, EncryptedControlKind, EncryptedRecipientPayload,
    ModerationTarget, MAX_ANON_PARTICIPANT_HANDLE_LEN, PROTOCOL_VERSION,
};

fn test_room_state(anonymous_mode: bool) -> RoomState {
    let mut room = RoomState::new(1);
    room.anonymous_mode = anonymous_mode;
    room
}

fn participant(participant_id: &str, hello_seen: bool) -> ParticipantState {
    let mut state = ParticipantState::connected(0, 0);
    state.participant_id = participant_id.to_string();
    state.hello_seen = hello_seen;
    state
}

fn test_participant_with_handle(handle: Option<&str>, anonymous_mode: bool) -> ParticipantState {
    let mut state = participant("p", true);
    state.participant_handle = handle.map(ToString::to_string);
    state.anonymous_mode = anonymous_mode;
    state
}

fn test_pending_participant() -> ParticipantState {
    participant("pending", false)
}

fn test_joined_participant(participant_id: &str) -> ParticipantState {
    let mut state = participant(participant_id, true);
    state.display_name = Some(participant_id.to_string());
    state
}

fn test_encrypted_control(sender_handle: &str) -> EncryptedControlFrame {
    EncryptedControlFrame {
        sent_at_ms: 1,
        sender_handle: sender_handle.to_string(),
        epoch: 1,
        kind: EncryptedControlKind::Chat,
        payloads: vec![EncryptedRecipientPayload {
            recipient_handle: "anon-b".to_string(),
            nonce_hex: "11".repeat(24),
            ciphertext_hex: "aa".repeat(16),
        }],
    }
}

#[test]
fn anon_handle_validation_rejects_empty_and_duplicate() {
    let mut room = test_room_state(true);
    room.participants.insert(1, test_participant_with_handle(Some("anon-a"), true));
    room.participants.insert(2, test_participant_with_handle(Some("anon-b"), true));

    assert_eq!(
        validate_anon_participant_handle(&room, 1, " "),
        Some("participant_handle must be non-empty".to_string())
    );
    assert_eq!(
        validate_anon_participant_handle(&room, 1, "anon-b"),
        Some("participant_handle already in use".to_string())
    );
    assert_eq!(
        validate_anon_participant_handle(&room, 1, "anon b"),
        Some("participant_handle must not contain whitespace/control chars".to_string())
    );
    assert_eq!(
        validate_anon_participant_handle(&room, 1, "alice@sora"),
        Some("participant_handle must not contain '@'".to_string())
    );
    assert_eq!(
        validate_anon_participant_handle(&room, 1, "匿名"),
        Some("participant_handle must be ASCII".to_string())
    );
    assert_eq!(
        validate_anon_participant_handle(&room, 1, &"a".repeat(MAX_ANON_PARTICIPANT_HANDLE_LEN + 1)),
        Some(format!("participant_handle too long: max {MAX_ANON_PARTICIPANT_HANDLE_LEN} chars"))
    );
}

#[test]
fn anon_handle_validation_allows_rehello_and_blocks_handle_change() {
    let mut room = test_room_state(true);
    room.participants.insert(1, test_participant_with_handle(Some("anon-a"), true));

    assert_eq!(validate_anon_participant_handle(&room, 1, "anon-a"), None);
    assert_eq!(
        validate_anon_participant_handle(&room, 1, "anon-c"),
        Some("participant_handle cannot change after AnonHello".to_string())
    );
}

#[test]
fn anonymous_capacity_validation_rejects_new_join_when_full() {
    let mut room = test_room_state(true);
    for i in 0..DEFAULT_ANON_MAX_PARTICIPANTS {
        room.participants.insert(
            (i + 1) as u64,
            test_participant_with_handle(Some(&format!("anon-{i:03}")), true),
        );
    }
    let newcomer_conn_id = 10_000u64;
    room.participants.insert(newcomer_conn_id, test_pending_participant());

    assert_eq!(
        validate_anonymous_room_capacity(&room, newcomer_conn_id, DEFAULT_ANON_MAX_PARTICIPANTS),
        Some(format!("anonymous room participant cap reached: max {DEFAULT_ANON_MAX_PARTICIPANTS}"))
    );
}

#[test]
fn anonymous_capacity_validation_allows_rehello_when_full() {
    let mut room = test_room_state(true);
    for i in 0..DEFAULT_ANON_MAX_PARTICIPANTS {
        room.participants.insert(
            (i + 1) as u64,
            test_participant_with_handle(Some(&format!("anon-{i:03}")), true),
        );
    }

    assert_eq!(validate_anonymous_room_capacity(&room, 1, DEFAULT_ANON_MAX_PARTICIPANTS), None);
}

#[test]
fn anonymous_admission_rejection_counter_increments() {
    let mut room = test_room_state(true);
    assert_eq!(record_anon_admission_rejection(&mut room), 1);
    assert_eq!(record_anon_admission_rejection(&mut room), 2);
}

#[test]
fn signed_action_clock_rejects_replay_and_stale_timestamps() {
    let mut room = test_room_state(false);

    enforce_signed_action_clock(&mut room, "role_grant", "host", "issued_at_ms", 10)
        .expect("first action should pass");
    let replay = enforce_signed_action_clock(&mut room, "role_grant", "host", "issued_at_ms", 10)
        .expect_err("same timestamp should be rejected");
    assert!(replay.contains("replay/stale rejected"));

    let stale = enforce_signed_action_clock(&mut room, "role_grant", "host", "issued_at_ms", 9)
        .expect_err("older timestamp should be rejected");
    assert!(stale.contains("must increase"));

    enforce_signed_action_clock(&mut room, "role_grant", "host", "issued_at_ms", 11)
        .expect("newer timestamp should pass");
    enforce_signed_action_clock(&mut room, "role_revoke", "host", "issued_at_ms", 10)
        .expect("separate action stream should have independent clock");
}

#[test]
fn moderation_sender_clock_rejects_replay_and_stale_sent_at_ms() {
    let mut room = test_room_state(false);
    room.participants.insert(1, test_joined_participant("host"));
    room.host_conn_id = Some(1);

    let first = ModerationFrame {
        sent_at_ms: 10,
        target: ModerationTarget::All,
        action: ModerationAction::DisableMic,
    };
    validate_moderation_sender_clock(&mut room, 1, &first).expect("first moderation should pass");

    let replay = validate_moderation_sender_clock(&mut room, 1, &first).expect_err("replay must fail");
    assert!(replay.contains("replay/stale rejected"));

    let stale = ModerationFrame { sent_at_ms: 9, ..first.clone() };
    let stale_err = validate_moderation_sender_clock(&mut room, 1, &stale).expect_err("stale must fail");
    assert!(stale_err.contains("must increase"));

    let next = ModerationFrame { sent_at_ms: 11, ..first };
    validate_moderation_sender_clock(&mut room, 1, &next).expect("newer moderation should pass");
}

#[test]
fn moderation_sender_clock_rejects_zero_sent_at_ms() {
    let mut room = test_room_state(false);
    room.participants.insert(1, test_joined_participant("host"));
    room.host_conn_id = Some(1);

    let moderation = ModerationFrame {
        sent_at_ms: 0,
        target: ModerationTarget::All,
        action: ModerationAction::DisableMic,
    };
    let err = validate_moderation_sender_clock(&mut room, 1, &moderation).expect_err("zero sent_at");
    assert!(err.contains("sent_at_ms must be >= 1"));
}

#[test]
fn moderation_signed_signature_validation_rejects_tampering() {
    let mut signed = ModerationSignedFrame {
        sent_at_ms: 1,
        target: ModerationTarget::All,
        action: ModerationAction::DisableMic,
        issued_by: "host@sora".to_string(),
        signature_hex: String::new(),
    };
    signed.signature_hex = deterministic_signature_hex("moderation", "host@sora|all|disable_mic|1");
    assert!(moderation_signed_signature_is_valid(&signed));

    signed.signature_hex = "ab".repeat(32);
    assert!(!moderation_signed_signature_is_valid(&signed));
}

#[test]
fn role_grant_promotes_cohost_and_revoke_drops_it() {
    let mut room = test_room_state(false);
    room.participants.insert(1, test_joined_participant("host"));
    room.participants.insert(2, test_joined_participant("alice"));
    room.host_conn_id = Some(1);

    let grant = RoleGrantFrame {
        issued_at_ms: 1,
        target_participant_id: "alice".to_string(),
        role: RoleKind::CoHost,
        granted_by: "host".to_string(),
        signature_hex: deterministic_signature_hex("role_grant", "host|alice|cohost|1"),
    };
    let outcome = apply_role_grant(&mut room, 1, &grant).expect("grant should pass");
    assert!(!outcome.host_changed);
    assert!(outcome.permissions_changed);
    assert!(room.co_host_conn_ids.contains(&2));

    let snapshot = permissions_snapshot_for_conn(&room, 2, 42).expect("snapshot");
    assert!(snapshot.co_host);
    assert!(snapshot.can_moderate);

    let revoke = RoleRevokeFrame {
        issued_at_ms: 2,
        target_participant_id: "alice".to_string(),
        role: RoleKind::CoHost,
        revoked_by: "host".to_string(),
        signature_hex: deterministic_signature_hex("role_revoke", "host|alice|cohost|2"),
    };
    let outcome = apply_role_revoke(&mut room, 1, &revoke).expect("revoke should pass");
    assert!(!outcome.host_changed);
    assert!(outcome.permissions_changed);
    assert!(!room.co_host_conn_ids.contains(&2));
}

#[test]
fn role_grant_rejects_non_host_sender() {
    let mut room = test_room_state(false);
    room.participants.insert(1, test_joined_participant("host"));
    room.participants.insert(2, test_joined_participant("alice"));
    room.host_conn_id = Some(1);

    let grant = RoleGrantFrame {
        issued_at_ms: 1,
        target_participant_id: "host".to_string(),
        role: RoleKind::CoHost,
        granted_by: "alice".to_string(),
        signature_hex: deterministic_signature_hex("role_grant", "alice|host|cohost|1"),
    };
    let err = apply_role_grant(&mut room, 2, &grant).expect_err("must reject");
    assert_eq!(err, "host only");
}

#[test]
fn role_grant_rejects_bad_signature() {
    let mut room = test_room_state(false);
    room.participants.insert(1, test_joined_participant("host"));
    room.participants.insert(2, test_joined_participant("alice"));
    room.host_conn_id = Some(1);

    let grant = RoleGrantFrame {
        issued_at_ms: 1,
        target_participant_id: "alice".to_string(),
        role: RoleKind::CoHost,
        granted_by: "host".to_string(),
        signature_hex: "ab".repeat(32),
    };
    let err = apply_role_grant(&mut room, 1, &grant).expect_err("must reject");
    assert_eq!(err, "signature_hex failed role_grant verification");
}

#[test]
fn role_grant_rejects_replay_and_stale_issued_at() {
    let mut room = test_room_state(false);
    room.participants.insert(1, test_joined_participant("host"));
    room.participants.insert(2, test_joined_participant("alice"));
    room.participants.insert(3, test_joined_participant("bob"));
    room.host_conn_id = Some(1);

    let first = RoleGrantFrame {
        issued_at_ms: 2,
        target_participant_id: "alice".to_string(),
        role: RoleKind::CoHost,
        granted_by: "host".to_string(),
        signature_hex: deterministic_signature_hex("role_grant", "host|alice|cohost|2"),
    };
    apply_role_grant(&mut room, 1, &first).expect("first grant should pass");

    let replay = apply_role_grant(&mut room, 1, &first).expect_err("replay must fail");
    assert!(replay.contains("replay/stale rejected"));

    let stale = RoleGrantFrame {
        issued_at_ms: 1,
        target_participant_id: "bob".to_string(),
        role: RoleKind::CoHost,
        granted_by: "host".to_string(),
        signature_hex: deterministic_signature_hex("role_grant", "host|bob|cohost|1"),
    };
    let stale_err = apply_role_grant(&mut room, 1, &stale).expect_err("stale must fail");
    assert!(stale_err.contains("must increase"));
}

#[test]
fn role_revoke_rejects_bad_signature() {
    let mut room = test_room_state(false);
    room.participants.insert(1, test_joined_participant("host"));
    room.participants.insert(2, test_joined_participant("alice"));
    room.host_conn_id = Some(1);
    room.co_host_conn_ids.insert(2);

    let revoke = RoleRevokeFrame {
        issued_at_ms: 2,
        target_participant_id: "alice".to_string(),
        role: RoleKind::CoHost,
        revoked_by: "host".to_string(),
        signature_hex: "00".repeat(32),
    };
    let err = apply_role_revoke(&mut room, 1, &revoke).expect_err("must reject");
    assert_eq!(err, "signature_hex failed role_revoke verification");
}

#[test]
fn role_revoke_rejects_replay_and_stale_issued_at() {
    let mut room = test_room_state(false);
    room.participants.insert(1, test_joined_participant("host"));
    room.participants.insert(2, test_joined_participant("alice"));
    room.participants.insert(3, test_joined_participant("bob"));
    room.host_conn_id = Some(1);
    room.co_host_conn_ids.insert(2);

    let first = RoleRevokeFrame {
        issued_at_ms: 2,
        target_participant_id: "alice".to_string(),
        role: RoleKind::CoHost,
        revoked_by: "host".to_string(),
        signature_hex: deterministic_signature_hex("role_revoke", "host|alice|cohost|2"),
    };
    apply_role_revoke(&mut room, 1, &first).expect("first revoke should pass");

    let replay = apply_role_revoke(&mut room, 1, &first).expect_err("replay must fail");
    assert!(replay.contains("replay/stale rejected"));

    let stale = RoleRevokeFrame {
        issued_at_ms: 1,
        target_participant_id: "bob".to_string(),
        role: RoleKind::CoHost,
        revoked_by: "host".to_string(),
        signature_hex: deterministic_signature_hex("role_revoke", "host|bob|cohost|1"),
    };
    let stale_err = apply_role_revoke(&mut room, 1, &stale).expect_err("stale must fail");
    assert!(stale_err.contains("must increase"));
}

#[test]
fn session_policy_update_requires_strict_epoch_increase() {
    let mut room = test_room_state(false);
    room.participants.insert(1, test_joined_participant("host"));
    room.host_conn_id = Some(1);
    room.policy_epoch = 2;

    let stale = SessionPolicyFrame {
        updated_at_ms: 10,
        room_lock: true,
        waiting_room_enabled: true,
        guest_join_allowed: false,
        local_recording_allowed: false,
        e2ee_required: true,
        max_participants: 250,
        policy_epoch: 2,
        updated_by: "host".to_string(),
        signature_hex: deterministic_signature_hex(
            "session_policy",
            "host|true|true|false|false|true|250|2|10",
        ),
    };
    let err = apply_session_policy_update(&mut room, 1, &stale).expect_err("stale");
    assert!(err.contains("policy_epoch must increase"));

    let next = SessionPolicyFrame {
        policy_epoch: 3,
        signature_hex: deterministic_signature_hex(
            "session_policy",
            "host|true|true|false|false|true|250|3|10",
        ),
        ..stale
    };
    apply_session_policy_update(&mut room, 1, &next).expect("epoch+1 should pass");
    assert!(room.room_lock);
    assert_eq!(room.policy_epoch, 3);
    assert_eq!(room.max_participants, 250);
}

#[test]
fn session_policy_update_rejects_bad_signature() {
    let mut room = test_room_state(false);
    room.participants.insert(1, test_joined_participant("host"));
    room.host_conn_id = Some(1);

    let update = SessionPolicyFrame {
        updated_at_ms: 10,
        room_lock: true,
        waiting_room_enabled: false,
        guest_join_allowed: true,
        local_recording_allowed: true,
        e2ee_required: true,
        max_participants: 200,
        policy_epoch: 1,
        updated_by: "host".to_string(),
        signature_hex: "aa".repeat(32),
    };
    let err = apply_session_policy_update(&mut room, 1, &update).expect_err("must reject");
    assert_eq!(err, "signature_hex failed session_policy verification");
}

#[test]
fn session_policy_update_rejects_replay_updated_at_ms() {
    let mut room = test_room_state(false);
    room.participants.insert(1, test_joined_participant("host"));
    room.host_conn_id = Some(1);

    let first = SessionPolicyFrame {
        updated_at_ms: 10,
        room_lock: false,
        waiting_room_enabled: false,
        guest_join_allowed: true,
        local_recording_allowed: true,
        e2ee_required: true,
        max_participants: 500,
        policy_epoch: 1,
        updated_by: "host".to_string(),
        signature_hex: deterministic_signature_hex(
            "session_policy",
            "host|false|false|true|true|true|500|1|10",
        ),
    };
    apply_session_policy_update(&mut room, 1, &first).expect("first update should pass");

    let replay = SessionPolicyFrame {
        updated_at_ms: 10,
        room_lock: true,
        waiting_room_enabled: true,
        guest_join_allowed: false,
        local_recording_allowed: false,
        e2ee_required: true,
        max_participants: 400,
        policy_epoch: 2,
        updated_by: "host".to_string(),
        signature_hex: deterministic_signature_hex(
            "session_policy",
            "host|true|true|false|false|true|400|2|10",
        ),
    };
    let err = apply_session_policy_update(&mut room, 1, &replay).expect_err("replay must fail");
    assert!(err.contains("replay/stale rejected"));
}

#[test]
fn join_policy_rejects_locked_or_full_room() {
    let mut room = test_room_state(false);
    room.participants.insert(1, test_joined_participant("host"));
    room.host_conn_id = Some(1);
    room.room_lock = true;
    room.max_participants = 2;

    room.participants.insert(2, test_pending_participant());
    assert_eq!(validate_join_allowed(&room, 2, "guest-2"), Some("room is locked".to_string()));

    room.room_lock = false;
    room.participants.insert(3, test_joined_participant("bob"));
    room.participants.insert(4, test_pending_participant());
    assert_eq!(
        validate_join_allowed(&room, 4, "guest-4"),
        Some("room is full: max_participants=2".to_string())
    );
}

#[test]
fn join_policy_rejects_guest_when_guest_policy_disabled() {
    let mut room = test_room_state(false);
    room.participants.insert(1, test_joined_participant("host@sora"));
    room.host_conn_id = Some(1);
    room.guest_join_allowed = false;
    room.participants.insert(2, test_pending_participant());

    assert_eq!(
        validate_join_allowed(&room, 2, "guest-user"),
        Some("guest participants are not allowed by room policy".to_string())
    );
    assert_eq!(validate_join_allowed(&room, 2, "alice@sora"), None);
}

#[test]
fn join_policy_rejects_duplicate_participant_id() {
    let mut room = test_room_state(false);
    room.participants.insert(1, test_joined_participant("host@sora"));
    room.participants.insert(2, test_joined_participant("alice@sora"));
    room.host_conn_id = Some(1);
    room.participants.insert(3, test_pending_participant());

    assert_eq!(
        validate_join_allowed(&room, 3, "alice@sora"),
        Some("participant_id already in use: alice@sora".to_string())
    );

    let mut waiting = test_pending_participant();
    waiting.participant_id = "guest-user".to_string();
    waiting.waiting_room_pending = true;
    room.participants.insert(4, waiting);
    room.participants.insert(5, test_pending_participant());
    assert_eq!(
        validate_join_allowed(&room, 5, "guest-user"),
        Some("participant_id already in use: guest-user".to_string())
    );
}

#[test]
fn join_policy_rehello_rejects_participant_id_change() {
    let mut room = test_room_state(false);
    room.participants.insert(1, test_joined_participant("host@sora"));
    room.participants.insert(2, test_joined_participant("alice@sora"));
    room.host_conn_id = Some(1);

    assert_eq!(
        validate_join_allowed(&room, 2, "bob@sora"),
        Some("participant_id cannot change after Hello".to_string())
    );
    assert_eq!(validate_join_allowed(&room, 2, "alice@sora"), None);
}

#[test]
fn admit_waiting_participant_transitions_to_joined_state() {
    let mut room = test_room_state(false);
    room.participants.insert(1, test_joined_participant("host@sora"));
    room.host_conn_id = Some(1);

    let mut pending = test_pending_participant();
    pending.participant_id = "guest-user".to_string();
    pending.waiting_room_pending = true;
    room.participants.insert(2, pending);

    let outcome = admit_waiting_participant(&mut room, 2, 1_000).expect("admit should succeed");
    assert_eq!(outcome.conn_id, 2);
    assert_eq!(outcome.snapshot.participant_id, "guest-user");
    assert_eq!(outcome.presence_delta.joined.len(), 1);
    assert_eq!(outcome.presence_delta.left.len(), 0);
    assert!(room.participants.get(&2).expect("participant should remain").hello_seen);
    assert!(!room.participants.get(&2).expect("participant should remain").waiting_room_pending);
    assert_eq!(room.e2ee_epochs.get(&2), Some(&0));
}

#[test]
fn deny_waiting_participant_removes_pending_participant() {
    let mut room = test_room_state(false);
    room.participants.insert(1, test_joined_participant("host@sora"));
    room.host_conn_id = Some(1);

    let mut pending = test_pending_participant();
    pending.participant_id = "guest-user".to_string();
    pending.waiting_room_pending = true;
    room.participants.insert(2, pending);

    let denied_id = deny_waiting_participant(&mut room, 2).expect("deny should succeed");
    assert_eq!(denied_id, "guest-user");
    assert!(!room.participants.contains_key(&2));
    assert_eq!(room.host_conn_id, Some(1));
}

#[test]
fn waiting_room_actions_reject_non_pending_targets() {
    let mut room = test_room_state(false);
    room.participants.insert(1, test_joined_participant("host@sora"));
    room.host_conn_id = Some(1);
    room.participants.insert(2, test_joined_participant("member@sora"));

    let admit_err =
        admit_waiting_participant(&mut room, 2, 1_000).expect_err("admit must reject non-pending");
    assert!(admit_err.contains("is not waiting"));

    let deny_err = deny_waiting_participant(&mut room, 2).expect_err("deny must reject non-pending");
    assert!(deny_err.contains("is not waiting"));
}

#[test]
fn anon_hello_does_not_count_as_escrow_proof() {
    let mut state = test_pending_participant();
    let hello = AnonHelloFrame {
        protocol_version: PROTOCOL_VERSION,
        participant_handle: "anon-a".to_string(),
        x25519_pubkey_hex: "11".repeat(32),
    };
    apply_anon_hello_state(&mut state, &hello, 10).expect("anon hello should apply");
    assert_eq!(state.last_billed_at_ms, 10);
    assert_eq!(state.last_escrow_proof_at_ms, None);
}

#[test]
fn anon_rehello_preserves_escrow_timing_cursor() {
    let mut state = test_participant_with_handle(Some("anon-a"), true);
    state.x25519_pubkey_hex = Some("11".repeat(32));
    state.x25519_epoch = 2;
    state.last_billed_at_ms = 50;
    state.last_escrow_proof_at_ms = Some(70);

    let hello = AnonHelloFrame {
        protocol_version: PROTOCOL_VERSION,
        participant_handle: "anon-a".to_string(),
        x25519_pubkey_hex: "11".repeat(32),
    };
    apply_anon_hello_state(&mut state, &hello, 999).expect("rehello should apply");
    assert_eq!(state.last_billed_at_ms, 50);
    assert_eq!(state.last_escrow_proof_at_ms, Some(70));
}

#[test]
fn encrypted_control_room_recipients_reject_unknown_handle() {
    let mut room = test_room_state(true);
    room.participants.insert(1, test_participant_with_handle(Some("anon-a"), true));
    room.participants.insert(2, test_participant_with_handle(Some("anon-b"), true));

    let mut frame = test_encrypted_control("anon-a");
    frame.payloads[0].recipient_handle = "anon-c".to_string();
    assert_eq!(
        validate_encrypted_control_room_recipients(&frame, &room),
        Some("encrypted recipient handle is not in anonymous roster: anon-c".to_string())
    );
}

#[test]
fn encrypted_control_room_recipients_accept_known_handles() {
    let mut room = test_room_state(true);
    room.participants.insert(1, test_participant_with_handle(Some("anon-a"), true));
    room.participants.insert(2, test_participant_with_handle(Some("anon-b"), true));

    let frame = test_encrypted_control("anon-a");
    assert_eq!(validate_encrypted_control_room_recipients(&frame, &room), None);
}

#[test]
fn tx_hash_hex_validation_accepts_32_byte_hex() {
    let valid = "ab".repeat(32);
    assert!(is_valid_tx_hash_hex(&valid));
    let prefixed = format!("0x{valid}");
    assert!(is_valid_tx_hash_hex(&prefixed));
    let prefixed_upper = format!("0X{valid}");
    assert!(is_valid_tx_hash_hex(&prefixed_upper));
}

#[test]
fn tx_hash_hex_validation_rejects_bad_values() {
    assert!(!is_valid_tx_hash_hex("abc"));
    assert!(!is_valid_tx_hash_hex(&"zz".repeat(32)));
}

#[test]
fn hex_len_validation_works_for_x25519_key() {
    assert!(is_valid_hex_len(&"11".repeat(32), 32));
    assert!(is_valid_hex_len(&format!("0X{}", "11".repeat(32)), 32));
    assert!(!is_valid_hex_len("11", 32));
    assert!(!is_valid_hex_len(&"zz".repeat(32), 32));
}
