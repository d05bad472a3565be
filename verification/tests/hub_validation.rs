use kaigi::hub::frames::{
    DeviceCapabilityFrame, E2EEKeyEpochFrame, MediaProfileKind, MediaProfileNegotiationFrame,
    ModerationAction, RecordingNoticeFrame, RecordingState,
};
use kaigi::hub::limits::{
    MAX_ENCRYPTED_CIPHERTEXT_HEX_LEN, MAX_ENCRYPTED_RECIPIENTS_PER_FRAME,
    MIN_ENCRYPTED_CIPHERTEXT_HEX_LEN, WARN_ANON_ESCROW_PROOF_STALE_SECS_THRESHOLD,
    WARN_ANON_MAX_PARTICIPANTS_THRESHOLD,
};
use kaigi::hub::anon::apply_anon_hello_state;
use kaigi::hub::room::ParticipantState;
use kaigi::hub::validate::{
    anonymous_hello_timed_out, apply_anonymous_zk_surcharge, enforce_join_media_defaults,
    escrow_proof_stale, include_sender_in_all_target, is_anon_escrow_stale_enforcement_disabled,
    normalize_anon_max_participants, normalize_initial_rate, normalize_rate_for_policy,
    participant_id_is_guest, should_apply_group_key_update, should_warn_high_anon_capacity,
    should_warn_high_anon_escrow_stale_secs, validate_device_capability_frame,
    validate_e2ee_key_epoch_frame, validate_encrypted_control_epoch,
    validate_encrypted_control_frame, validate_escrow_id_consistency, validate_escrow_proof_frame,
    validate_group_key_update_frame, validate_media_profile_negotiation_frame,
    validate_recording_notice_frame,
};
use kaigi::codec::deterministic_signature_hex;
use kaigi::wire::{
    AnonHelloFrame, EncryptedControlFrame, EncryptedControlKind, EncryptedRecipientPayload,
    EscrowProofFrame, GroupKeyUpdateFrame, HelloFrame,
    MAX_ANON_PARTICIPANT_HANDLE_LEN, MAX_ESCROW_ID_LEN, MAX_ESCROW_PROOF_HEX_LEN, PROTOCOL_VERSION,
};

fn test_encrypted_payload(recipient_handle: &str) -> EncryptedRecipientPayload {
    EncryptedRecipientPayload {
        recipient_handle: recipient_handle.to_string(),
        nonce_hex: "11".repeat(24),
        ciphertext_hex: "aa".repeat(16),
    }
}

fn test_encrypted_control(sender_handle: &str) -> EncryptedControlFrame {
    EncryptedControlFrame {
        sent_at_ms: 1,
        sender_handle: sender_handle.to_string(),
        epoch: 1,
        kind: EncryptedControlKind::Chat,
        payloads: vec![test_encrypted_payload("anon-b")],
    }
}

fn test_group_key_update(participant_handle: &str, x25519_pubkey_hex: &str, epoch: u64) -> GroupKeyUpdateFrame {
    GroupKeyUpdateFrame {
        sent_at_ms: 1,
        participant_handle: participant_handle.to_string(),
        x25519_pubkey_hex: x25519_pubkey_hex.to_string(),
        epoch,
    }
}

fn test_escrow_proof(escrow_id: &str, proof_hex: &str) -> EscrowProofFrame {
    EscrowProofFrame {
        sent_at_ms: 1,
        payer_handle: "anon-a".to_string(),
        escrow_id: escrow_id.to_string(),
        proof_hex: proof_hex.to_string(),
    }
}

#[test]
fn guest_classification_matches_account_id_heuristic() {
    assert!(participant_id_is_guest("alice"));
    assert!(!participant_id_is_guest("alice@sora"));
}

#[test]
fn device_capability_validation_requires_codecs_and_streams() {
    let mut cap = DeviceCapabilityFrame {
        reported_at_ms: 1,
        participant_id: "alice".to_string(),
        codecs: vec!["av1".to_string()],
        hdr_capture: true,
        hdr_render: true,
        max_video_streams: 2,
    };
    assert_eq!(validate_device_capability_frame(&cap), None);

    cap.codecs.clear();
    assert_eq!(
        validate_device_capability_frame(&cap),
        Some("device capability codecs must be non-empty".to_string())
    );

    cap.codecs = vec!["av1".to_string()];
    cap.max_video_streams = 0;
    assert_eq!(
        validate_device_capability_frame(&cap),
        Some("device capability max_video_streams must be >= 1".to_string())
    );
}

#[test]
fn media_profile_validation_requires_epoch_and_codec() {
    let mut profile = MediaProfileNegotiationFrame {
        at_ms: 1,
        participant_id: "alice".to_string(),
        requested_profile: MediaProfileKind::Hdr,
        negotiated_profile: MediaProfileKind::Sdr,
        codec: "av1".to_string(),
        epoch: 1,
    };
    assert_eq!(validate_media_profile_negotiation_frame(&profile), None);

    profile.codec = String::new();
    assert_eq!(
        validate_media_profile_negotiation_frame(&profile),
        Some("media profile codec must be non-empty".to_string())
    );

    profile.codec = "av1".to_string();
    profile.epoch = 0;
    assert_eq!(
        validate_media_profile_negotiation_frame(&profile),
        Some("media profile epoch must be >= 1".to_string())
    );
}

#[test]
fn recording_notice_validation_requires_identity_fields() {
    let mut notice = RecordingNoticeFrame {
        at_ms: 1,
        participant_id: "alice".to_string(),
        state: RecordingState::Started,
        local_recording: true,
        policy_basis: Some("host-allowed".to_string()),
        issued_by: "alice".to_string(),
    };
    assert_eq!(validate_recording_notice_frame(&notice), None);
    notice.participant_id = String::new();
    assert_eq!(
        validate_recording_notice_frame(&notice),
        Some("recording notice participant_id must be non-empty".to_string())
    );
}

#[test]
fn e2ee_key_epoch_validation_checks_hex_and_epoch() {
    let mut key_epoch = E2EEKeyEpochFrame {
        sent_at_ms: 1,
        participant_id: "alice".to_string(),
        epoch: 1,
        public_key_hex: deterministic_signature_hex("e2ee_public_key", "alice|1"),
        signature_hex: deterministic_signature_hex("e2ee_key_epoch", "alice|1|1"),
    };
    assert_eq!(validate_e2ee_key_epoch_frame(&key_epoch), None);

    key_epoch.epoch = 0;
    assert_eq!(
        validate_e2ee_key_epoch_frame(&key_epoch),
        Some("e2ee key epoch must be >= 1".to_string())
    );

    key_epoch.epoch = 1;
    key_epoch.signature_hex = "zz".to_string();
    assert_eq!(
        validate_e2ee_key_epoch_frame(&key_epoch),
        Some("e2ee key epoch signature_hex must be 32-byte hex".to_string())
    );

    key_epoch.signature_hex = deterministic_signature_hex("e2ee_key_epoch", "alice|1|1");
    key_epoch.public_key_hex = "11".repeat(32);
    assert_eq!(
        validate_e2ee_key_epoch_frame(&key_epoch),
        Some("e2ee key epoch public_key_hex failed verification".to_string())
    );
}

#[test]
fn anon_capacity_normalization_clamps_minimum() {
    assert_eq!(normalize_anon_max_participants(0), 1);
    assert_eq!(normalize_anon_max_participants(42), 42);
}

#[test]
fn anon_capacity_warn_threshold_only_warns_above_limit() {
    assert!(!should_warn_high_anon_capacity(WARN_ANON_MAX_PARTICIPANTS_THRESHOLD));
    assert!(should_warn_high_anon_capacity(WARN_ANON_MAX_PARTICIPANTS_THRESHOLD + 1));
}

#[test]
fn escrow_stale_warn_threshold_only_warns_above_limit() {
    assert!(!should_warn_high_anon_escrow_stale_secs(
        WARN_ANON_ESCROW_PROOF_STALE_SECS_THRESHOLD
    ));
    assert!(should_warn_high_anon_escrow_stale_secs(
        WARN_ANON_ESCROW_PROOF_STALE_SECS_THRESHOLD + 1
    ));
}

#[test]
fn escrow_stale_disabled_only_for_zero() {
    assert!(is_anon_escrow_stale_enforcement_disabled(0));
    assert!(!is_anon_escrow_stale_enforcement_disabled(1));
}

fn anon_state(handle: Option<&str>) -> ParticipantState {
    ParticipantState {
        participant_id: "p".to_string(),
        display_name: None,
        participant_handle: handle.map(|h| h.to_string()),
        x25519_pubkey_hex: None,
        x25519_epoch: 0,
        mic_enabled: false,
        video_enabled: false,
        screen_share_enabled: false,
        anonymous_mode: true,
        waiting_room_pending: false,
        hello_seen: true,
        last_billed_at_ms: 0,
        billed_nano_xor: 0,
        billing_remainder_mod_60k: 0,
        paid_nano_xor: 0,
        last_payment_at_ms: None,
        last_escrow_proof_at_ms: None,
        escrow_id: None,
    }
}

#[test]
fn anon_hello_key_rotation_requires_group_key_update() {
    let mut state = anon_state(Some("anon-a"));
    state.x25519_pubkey_hex = Some("11".repeat(32));
    state.x25519_epoch = 3;

    let hello = AnonHelloFrame {
        protocol_version: PROTOCOL_VERSION,
        participant_handle: "anon-a".to_string(),
        x25519_pubkey_hex: "22".repeat(32),
    };
    let err = apply_anon_hello_state(&mut state, &hello, 10).expect_err("must reject");
    assert!(err.contains("GroupKeyUpdate"));
}

#[test]
fn group_key_update_policy_rejects_stale_and_same_epoch_rotation() {
    let stale = should_apply_group_key_update(5, Some(&"11".repeat(32)), 4, &"22".repeat(32))
        .expect_err("stale epoch should be rejected");
    assert!(stale.contains("stale"));

    let same_epoch_rotation =
        should_apply_group_key_update(5, Some(&"11".repeat(32)), 5, &"22".repeat(32))
            .expect_err("same epoch key change should be rejected");
    assert!(same_epoch_rotation.contains("strictly increasing"));
}

#[test]
fn group_key_update_policy_allows_idempotent_and_newer_updates() {
    assert!(
        !should_apply_group_key_update(5, Some(&"11".repeat(32)), 5, &"11".repeat(32))
            .expect("same epoch + same key should be noop")
    );
    assert!(
        should_apply_group_key_update(5, Some(&"11".repeat(32)), 6, &"22".repeat(32))
            .expect("newer epoch should apply")
    );
}

#[test]
fn group_key_update_validation_rejects_empty_handle() {
    let frame = test_group_key_update(" ", &"11".repeat(32), 1);
    assert_eq!(
        validate_group_key_update_frame(&frame),
        Some("group key participant_handle must be non-empty".to_string())
    );
}

#[test]
fn group_key_update_validation_rejects_whitespace_handle() {
    let frame = test_group_key_update("anon a", &"11".repeat(32), 1);
    assert_eq!(
        validate_group_key_update_frame(&frame),
        Some("group key participant_handle must not contain whitespace/control chars".to_string())
    );
}

#[test]
fn group_key_update_validation_rejects_non_ascii_handle() {
    let frame = test_group_key_update("匿名", &"11".repeat(32), 1);
    assert_eq!(
        validate_group_key_update_frame(&frame),
        Some("group key participant_handle must be ASCII".to_string())
    );
}

#[test]
fn group_key_update_validation_rejects_account_like_handle() {
    let frame = test_group_key_update("alice@sora", &"11".repeat(32), 1);
    assert_eq!(
        validate_group_key_update_frame(&frame),
        Some("group key participant_handle must not contain '@'".to_string())
    );
}

#[test]
fn group_key_update_validation_rejects_oversized_handle() {
    let frame = test_group_key_update(
        &"a".repeat(MAX_ANON_PARTICIPANT_HANDLE_LEN + 1),
        &"11".repeat(32),
        1,
    );
    assert_eq!(
        validate_group_key_update_frame(&frame),
        Some(format!(
            "group key participant_handle too long: max {MAX_ANON_PARTICIPANT_HANDLE_LEN} chars"
        ))
    );
}

#[test]
fn group_key_update_validation_rejects_invalid_pubkey() {
    let frame = test_group_key_update("anon-a", "zz", 1);
    assert_eq!(
        validate_group_key_update_frame(&frame),
        Some("x25519_pubkey_hex must be 32-byte hex".to_string())
    );
}

#[test]
fn group_key_update_validation_rejects_zero_epoch() {
    let frame = test_group_key_update("anon-a", &"11".repeat(32), 0);
    assert_eq!(
        validate_group_key_update_frame(&frame),
        Some("group key epoch must be >= 1".to_string())
    );
}

#[test]
fn group_key_update_validation_accepts_well_formed_frame() {
    let frame = test_group_key_update("anon-a", &"11".repeat(32), 1);
    assert_eq!(validate_group_key_update_frame(&frame), None);
}

#[test]
fn encrypted_control_validation_rejects_empty_sender() {
    let frame = test_encrypted_control(" ");
    assert_eq!(
        validate_encrypted_control_frame(&frame),
        Some("encrypted sender handle must be non-empty".to_string())
    );
}

#[test]
fn encrypted_control_validation_rejects_whitespace_sender() {
    let frame = test_encrypted_control("anon a");
    assert_eq!(
        validate_encrypted_control_frame(&frame),
        Some("encrypted sender handle must not contain whitespace/control chars".to_string())
    );
}

#[test]
fn encrypted_control_validation_rejects_non_ascii_sender() {
    let frame = test_encrypted_control("匿名");
    assert_eq!(
        validate_encrypted_control_frame(&frame),
        Some("encrypted sender handle must be ASCII".to_string())
    );
}

#[test]
fn encrypted_control_validation_rejects_account_like_sender() {
    let frame = test_encrypted_control("alice@sora");
    assert_eq!(
        validate_encrypted_control_frame(&frame),
        Some("encrypted sender handle must not contain '@'".to_string())
    );
}

#[test]
fn encrypted_control_validation_rejects_oversized_sender() {
    let frame = test_encrypted_control(&"a".repeat(MAX_ANON_PARTICIPANT_HANDLE_LEN + 1));
    assert_eq!(
        validate_encrypted_control_frame(&frame),
        Some(format!(
            "encrypted sender handle too long: max {MAX_ANON_PARTICIPANT_HANDLE_LEN} chars"
        ))
    );
}

#[test]
fn encrypted_control_validation_rejects_zero_epoch() {
    let mut frame = test_encrypted_control("anon-a");
    frame.epoch = 0;
    assert_eq!(
        validate_encrypted_control_frame(&frame),
        Some("encrypted control epoch must be >= 1".to_string())
    );
}

#[test]
fn encrypted_control_validation_rejects_oversized_recipient() {
    let mut frame = test_encrypted_control("anon-a");
    frame.payloads[0].recipient_handle = "a".repeat(MAX_ANON_PARTICIPANT_HANDLE_LEN + 1);
    assert_eq!(
        validate_encrypted_control_frame(&frame),
        Some(format!(
            "encrypted recipient handle too long: max {MAX_ANON_PARTICIPANT_HANDLE_LEN} chars"
        ))
    );
}

#[test]
fn encrypted_control_validation_rejects_whitespace_recipient() {
    let mut frame = test_encrypted_control("anon-a");
    frame.payloads[0].recipient_handle = "anon b".to_string();
    assert_eq!(
        validate_encrypted_control_frame(&frame),
        Some("encrypted recipient handle must not contain whitespace/control chars".to_string())
    );
}

#[test]
fn encrypted_control_validation_rejects_non_ascii_recipient() {
    let mut frame = test_encrypted_control("anon-a");
    frame.payloads[0].recipient_handle = "匿名".to_string();
    assert_eq!(
        validate_encrypted_control_frame(&frame),
        Some("encrypted recipient handle must be ASCII".to_string())
    );
}

#[test]
fn encrypted_control_validation_rejects_account_like_recipient() {
    let mut frame = test_encrypted_control("anon-a");
    frame.payloads[0].recipient_handle = "alice@sora".to_string();
    assert_eq!(
        validate_encrypted_control_frame(&frame),
        Some("encrypted recipient handle must not contain '@'".to_string())
    );
}

#[test]
fn encrypted_control_validation_rejects_duplicate_recipients() {
    let mut frame = test_encrypted_control("anon-a");
    frame.payloads.push(test_encrypted_payload("anon-b"));
    assert_eq!(
        validate_encrypted_control_frame(&frame),
        Some("encrypted payload recipients must be unique".to_string())
    );
}

#[test]
fn encrypted_control_validation_rejects_non_hex_ciphertext() {
    let mut frame = test_encrypted_control("anon-a");
    frame.payloads[0].ciphertext_hex = "zz".to_string();
    assert_eq!(
        validate_encrypted_control_frame(&frame),
        Some("encrypted ciphertext must be valid hex".to_string())
    );
}

#[test]
fn encrypted_control_validation_rejects_too_short_ciphertext() {
    let mut frame = test_encrypted_control("anon-a");
    frame.payloads[0].ciphertext_hex = "aa".repeat((MIN_ENCRYPTED_CIPHERTEXT_HEX_LEN / 2) - 1);
    assert_eq!(
        validate_encrypted_control_frame(&frame),
        Some(format!(
            "encrypted ciphertext too short: min {MIN_ENCRYPTED_CIPHERTEXT_HEX_LEN} hex chars"
        ))
    );
}

#[test]
fn encrypted_control_validation_rejects_oversized_ciphertext() {
    let mut frame = test_encrypted_control("anon-a");
    frame.payloads[0].ciphertext_hex =
        "aa".repeat((MAX_ENCRYPTED_CIPHERTEXT_HEX_LEN / 2).saturating_add(1));
    assert_eq!(
        validate_encrypted_control_frame(&frame),
        Some(format!(
            "encrypted ciphertext too long: max {MAX_ENCRYPTED_CIPHERTEXT_HEX_LEN} hex chars"
        ))
    );
}

#[test]
fn encrypted_control_validation_rejects_too_many_recipients() {
    let mut frame = test_encrypted_control("anon-a");
    frame.payloads = (0..(MAX_ENCRYPTED_RECIPIENTS_PER_FRAME + 1))
        .map(|i| test_encrypted_payload(&format!("anon-{i:03}")))
        .collect();
    assert_eq!(
        validate_encrypted_control_frame(&frame),
        Some(format!(
            "encrypted payload fanout too large: max {MAX_ENCRYPTED_RECIPIENTS_PER_FRAME} recipients"
        ))
    );
}

#[test]
fn encrypted_control_validation_accepts_max_recipient_cap() {
    let mut frame = test_encrypted_control("anon-a");
    frame.payloads = (0..MAX_ENCRYPTED_RECIPIENTS_PER_FRAME)
        .map(|i| test_encrypted_payload(&format!("anon-{i:03}")))
        .collect();
    assert_eq!(validate_encrypted_control_frame(&frame), None);
}

#[test]
fn encrypted_control_epoch_validation_rejects_mismatch() {
    assert_eq!(
        validate_encrypted_control_epoch(2, 3),
        Some("encrypted control epoch mismatch: expected 3 got 2".to_string())
    );
}

#[test]
fn encrypted_control_epoch_validation_rejects_uninitialized_sender() {
    assert_eq!(
        validate_encrypted_control_epoch(1, 0),
        Some("sender key epoch is not initialized".to_string())
    );
}

#[test]
fn encrypted_control_epoch_validation_accepts_matching_epoch() {
    assert_eq!(validate_encrypted_control_epoch(3, 3), None);
}

#[test]
fn encrypted_control_validation_accepts_well_formed_frame() {
    let frame = test_encrypted_control("anon-a");
    assert_eq!(validate_encrypted_control_frame(&frame), None);
}

#[test]
fn escrow_proof_validation_rejects_empty_id() {
    let proof = test_escrow_proof(" ", "");
    assert_eq!(
        validate_escrow_proof_frame(&proof),
        Some("escrow_id must be non-empty".to_string())
    );
}

#[test]
fn escrow_proof_validation_rejects_invalid_payer_handle() {
    let mut proof = test_escrow_proof("escrow-1", &"ab".repeat(16));
    proof.payer_handle = " ".to_string();
    assert_eq!(
        validate_escrow_proof_frame(&proof),
        Some("payer_handle must be non-empty".to_string())
    );

    proof.payer_handle = "alice@sora".to_string();
    assert_eq!(
        validate_escrow_proof_frame(&proof),
        Some("payer_handle must not contain '@'".to_string())
    );

    proof.payer_handle = "anon a".to_string();
    assert_eq!(
        validate_escrow_proof_frame(&proof),
        Some("payer_handle must not contain whitespace/control chars".to_string())
    );

    proof.payer_handle = "匿名".to_string();
    assert_eq!(
        validate_escrow_proof_frame(&proof),
        Some("payer_handle must be ASCII".to_string())
    );

    proof.payer_handle = "a".repeat(MAX_ANON_PARTICIPANT_HANDLE_LEN + 1);
    assert_eq!(
        validate_escrow_proof_frame(&proof),
        Some(format!(
            "payer_handle too long: max {MAX_ANON_PARTICIPANT_HANDLE_LEN} chars"
        ))
    );
}

#[test]
fn escrow_proof_validation_rejects_whitespace_id() {
    let proof = test_escrow_proof("escrow id", &"ab".repeat(16));
    assert_eq!(
        validate_escrow_proof_frame(&proof),
        Some("escrow_id must not contain whitespace/control chars".to_string())
    );
}

#[test]
fn escrow_proof_validation_rejects_non_ascii_id() {
    let proof = test_escrow_proof("匿名", &"ab".repeat(16));
    assert_eq!(
        validate_escrow_proof_frame(&proof),
        Some("escrow_id must be ASCII".to_string())
    );
}

#[test]
fn escrow_proof_validation_rejects_account_like_id() {
    let proof = test_escrow_proof("escrow@sora", &"ab".repeat(16));
    assert_eq!(
        validate_escrow_proof_frame(&proof),
        Some("escrow_id must not contain '@'".to_string())
    );
}

#[test]
fn escrow_proof_validation_rejects_oversized_id() {
    let proof = test_escrow_proof(&"x".repeat(MAX_ESCROW_ID_LEN + 1), "");
    assert_eq!(
        validate_escrow_proof_frame(&proof),
        Some(format!("escrow_id too long: max {MAX_ESCROW_ID_LEN} chars"))
    );
}

#[test]
fn escrow_proof_validation_rejects_empty_proof_hex() {
    let proof = test_escrow_proof("escrow-1", "");
    assert_eq!(
        validate_escrow_proof_frame(&proof),
        Some("proof_hex must be valid hex".to_string())
    );
}

#[test]
fn escrow_proof_validation_rejects_oversized_proof_hex() {
    let proof = test_escrow_proof(
        "escrow-1",
        &"ab".repeat((MAX_ESCROW_PROOF_HEX_LEN / 2).saturating_add(1)),
    );
    assert_eq!(
        validate_escrow_proof_frame(&proof),
        Some(format!("proof_hex too long: max {MAX_ESCROW_PROOF_HEX_LEN} hex chars"))
    );
}

#[test]
fn escrow_proof_validation_rejects_invalid_hex_and_accepts_valid() {
    let bad = test_escrow_proof("escrow-1", "zz");
    assert_eq!(
        validate_escrow_proof_frame(&bad),
        Some("proof_hex must be valid hex".to_string())
    );

    let good = test_escrow_proof("escrow-2", &"ab".repeat(16));
    assert_eq!(validate_escrow_proof_frame(&good), None);
}

#[test]
fn escrow_proof_validation_accepts_uppercase_prefixed_hex() {
    let proof = test_escrow_proof("escrow-2", "0XAB");
    assert_eq!(validate_escrow_proof_frame(&proof), None);
}

#[test]
fn escrow_id_consistency_rejects_session_mismatch() {
    assert_eq!(
        validate_escrow_id_consistency(Some("escrow-a"), "escrow-b"),
        Some("escrow_id must remain stable for a participant session".to_string())
    );
}

#[test]
fn escrow_id_consistency_accepts_first_and_same_id() {
    assert_eq!(validate_escrow_id_consistency(None, "escrow-a"), None);
    assert_eq!(validate_escrow_id_consistency(Some("escrow-a"), "escrow-a"), None);
}

#[test]
fn escrow_stale_detection_respects_threshold() {
    assert!(!escrow_proof_stale(1_000, 1_999, 1));
    assert!(!escrow_proof_stale(1_000, 2_000, 1));
    assert!(escrow_proof_stale(1_000, 2_001, 1));
}

#[test]
fn anonymous_hello_timeout_respects_threshold() {
    assert!(!anonymous_hello_timed_out(1_000, 1_999, 1));
    assert!(!anonymous_hello_timed_out(1_000, 2_000, 1));
    assert!(anonymous_hello_timed_out(1_000, 2_001, 1));
}

#[test]
fn all_target_includes_sender_only_for_kick() {
    assert!(include_sender_in_all_target(&ModerationAction::Kick));
    assert!(!include_sender_in_all_target(&ModerationAction::DisableMic));
    assert!(!include_sender_in_all_target(&ModerationAction::DisableVideo));
    assert!(!include_sender_in_all_target(&ModerationAction::DisableScreenShare));
}

#[test]
fn rate_policy_clamps_zero_without_free_override() {
    assert_eq!(normalize_rate_for_policy(0, false), 1);
    assert_eq!(normalize_rate_for_policy(10, false), 10);
}

#[test]
fn initial_rate_rejects_zero_without_free_override() {
    let err = normalize_initial_rate(0, false).expect_err("zero rate rejected");
    assert!(err.to_string().contains("--allow-free-calls"));
}

#[test]
fn initial_rate_allows_zero_with_free_override() {
    assert_eq!(normalize_initial_rate(0, true).expect("zero rate allowed"), 0);
}

#[test]
fn anonymous_zk_surcharge_keeps_rate_when_zero() {
    assert_eq!(
        apply_anonymous_zk_surcharge(1_000, 0).expect("zero surcharge should be no-op"),
        1_000
    );
}

#[test]
fn anonymous_zk_surcharge_adds_extra_fee() {
    assert_eq!(apply_anonymous_zk_surcharge(1_000, 250).expect("surcharge should apply"), 1_250);
}

#[test]
fn anonymous_zk_surcharge_rejects_overflow() {
    let err = apply_anonymous_zk_surcharge(u64::MAX, 1).expect_err("overflow must fail");
    assert!(err.contains("overflow"));
}

#[test]
fn join_media_defaults_force_all_media_off() {
    let mut hello = HelloFrame {
        protocol_version: PROTOCOL_VERSION,
        participant_id: "p".to_string(),
        display_name: Some("n".to_string()),
        mic_enabled: true,
        video_enabled: true,
        screen_share_enabled: true,
        hdr_display: true,
        hdr_capture: false,
    };

    let forced = enforce_join_media_defaults(&mut hello);
    assert!(forced);
    assert!(!hello.mic_enabled);
    assert!(!hello.video_enabled);
    assert!(!hello.screen_share_enabled);
    assert!(hello.hdr_display);
}

#[test]
fn join_media_defaults_noop_when_already_off() {
    let mut hello = HelloFrame {
        protocol_version: PROTOCOL_VERSION,
        participant_id: "p".to_string(),
        display_name: None,
        mic_enabled: false,
        video_enabled: false,
        screen_share_enabled: false,
        hdr_display: false,
        hdr_capture: true,
    };

    let forced = enforce_join_media_defaults(&mut hello);
    assert!(!forced);
    assert!(!hello.mic_enabled);
    assert!(!hello.video_enabled);
    assert!(!hello.screen_share_enabled);
    assert!(hello.hdr_capture);
}
