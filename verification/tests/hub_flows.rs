use kaigi::hub::notices::{
    admission_denied_reason, forced_off_notice, hub_managed_refusal, kick_reason,
    mode_conflict_message, zero_rate_notice, HubManagedFrame,
};
use kaigi::wire::ModerationTarget;
use kaigi::hub::anon_join::{apply_anon_hello, AnonHelloOutcome};
use kaigi::hub::billing::advance_billing;
use kaigi::hub::frames::{RoleGrantFrame, RoleKind};
use kaigi::hub::media::check_chat;
use kaigi::hub::membership::joined_count;
use kaigi::hub::roles::{apply_role_grant, plaintext_control_refusal, PlaintextControl};
use kaigi::hub::session::{
    apply_participant_state_update, receive_hello, remove_connection, HelloOutcome, StateUpdateOutcome,
};
use kaigi::hub::room::{ParticipantState, RoomState};
use kaigi::hub::roster::{record_fanout_drops, roster_frame_for, sort_by_key};
use kaigi::text::{parse_i64_text, text_lt};
use kaigi::wire::{AnonHelloFrame, HelloFrame, ParticipantStateFrame, PROTOCOL_VERSION};

fn joined(participant_id: &str) -> ParticipantState {
    let mut state = ParticipantState::connected(0, 0);
    state.participant_id = participant_id.to_string();
    state.display_name = Some(participant_id.to_string());
    state.hello_seen = true;
    state
}

fn anon_hello(handle: &str) -> AnonHelloFrame {
    AnonHelloFrame {
        protocol_version: PROTOCOL_VERSION,
        participant_handle: handle.to_string(),
        x25519_pubkey_hex: "11".repeat(32),
    }
}

#[test]
fn sort_by_key_orders_texts_and_keeps_duplicates() {
    let sorted = sort_by_key(vec!["b".to_string(), "a".to_string(), "c".to_string(), "a".to_string()]);
    assert_eq!(sorted, vec!["a", "a", "b", "c"]);
    assert_eq!(sort_by_key(Vec::<String>::new()), Vec::<String>::new());
}

#[test]
fn text_order_is_lexicographic_by_character() {
    assert!(text_lt("a", "b"));
    assert!(text_lt("ab", "b"));
    assert!(text_lt("a", "ab"));
    assert!(!text_lt("b", "a"));
    assert!(!text_lt("a", "a"));
    assert!(text_lt("", "a"));
}

#[test]
fn roster_lists_joined_participants_by_id() {
    let mut room = RoomState::new(1);
    room.participants.insert(1, joined("zoe"));
    room.participants.insert(2, ParticipantState::connected(2, 0));
    room.participants.insert(3, joined("adam"));
    let roster = roster_frame_for(&room, 77);
    assert_eq!(roster.at_ms, 77);
    let ids: Vec<&str> = roster.participants.iter().map(|e| e.participant_id.as_str()).collect();
    assert_eq!(ids, vec!["adam", "zoe"]);
}

#[test]
fn anon_hello_joins_and_applies_surcharge_once() {
    let mut room = RoomState::new(10);
    room.participants.insert(1, ParticipantState::connected(1, 0));
    match apply_anon_hello(&mut room, 1, &anon_hello("anon-a"), 256, 5, 100) {
        AnonHelloOutcome::Joined { roster, update, surcharge, .. } => {
            assert_eq!(surcharge, Some((10, 15)));
            assert_eq!(roster.participants.len(), 1);
            assert_eq!(roster.participants[0].participant_handle, "anon-a");
            assert_eq!(update.participant_handle, "anon-a");
            assert_eq!(update.sent_at_ms, 100);
        }
        _ => panic!("expected join"),
    }
    assert!(room.anonymous_mode);
    assert_eq!(room.rate_per_minute_nano, 15);
    let state = room.participants.get(&1).expect("joined");
    assert!(state.hello_seen && state.anonymous_mode);
    assert_eq!(state.participant_handle.as_deref(), Some("anon-a"));

    room.participants.insert(2, ParticipantState::connected(2, 0));
    match apply_anon_hello(&mut room, 2, &anon_hello("anon-b"), 256, 5, 200) {
        AnonHelloOutcome::Joined { surcharge, roster, .. } => {
            assert_eq!(surcharge, None);
            let handles: Vec<&str> =
                roster.participants.iter().map(|e| e.participant_handle.as_str()).collect();
            assert_eq!(handles, vec!["anon-a", "anon-b"]);
        }
        _ => panic!("expected join"),
    }
    assert_eq!(room.rate_per_minute_nano, 15);
}

#[test]
fn anon_hello_refusals_leave_the_room_alone() {
    let mut room = RoomState::new(10);
    room.participants.insert(1, ParticipantState::connected(1, 0));
    let mut old_version = anon_hello("anon-a");
    old_version.protocol_version = PROTOCOL_VERSION - 1;
    match apply_anon_hello(&mut room, 1, &old_version, 256, 0, 1) {
        AnonHelloOutcome::Refused(m) => {
            assert_eq!(m, format!("unsupported protocol_version {}", PROTOCOL_VERSION - 1))
        }
        _ => panic!("expected refusal"),
    }
    let mut bad_key = anon_hello("anon-a");
    bad_key.x25519_pubkey_hex = "11".to_string();
    match apply_anon_hello(&mut room, 1, &bad_key, 256, 0, 1) {
        AnonHelloOutcome::Refused(m) => assert_eq!(m, "x25519_pubkey_hex must be 32-byte hex"),
        _ => panic!("expected refusal"),
    }
    assert!(!room.anonymous_mode);
    assert_eq!(room.rate_per_minute_nano, 10);

    room.participants.insert(2, joined("alice"));
    match apply_anon_hello(&mut room, 1, &anon_hello("anon-a"), 256, 0, 1) {
        AnonHelloOutcome::Refused(m) => assert_eq!(m, "room is already in transparent mode"),
        _ => panic!("expected refusal"),
    }
}

#[test]
fn anon_hello_counts_refusals_at_capacity() {
    let mut room = RoomState::new(10);
    room.participants.insert(1, ParticipantState::connected(1, 0));
    match apply_anon_hello(&mut room, 1, &anon_hello("anon-a"), 0, 0, 1) {
        AnonHelloOutcome::RefusedAtCapacity { message, rejections } => {
            assert_eq!(message, "anonymous room participant cap reached: max 0");
            assert_eq!(rejections, 1);
        }
        _ => panic!("expected capacity refusal"),
    }
    assert_eq!(room.anon_admission_rejections, 1);
}

#[test]
fn anon_hello_from_unknown_connection_is_ignored() {
    let mut room = RoomState::new(10);
    assert!(matches!(
        apply_anon_hello(&mut room, 9, &anon_hello("anon-a"), 256, 0, 1),
        AnonHelloOutcome::Ignored
    ));
    assert!(!room.anonymous_mode);
}

#[test]
fn chat_needs_hello_and_e2ee_key_in_transparent_rooms() {
    let mut room = RoomState::new(1);
    room.participants.insert(1, ParticipantState::connected(1, 0));
    assert_eq!(check_chat(&room, 1), Err("send Hello first".to_string()));

    room.participants.insert(2, joined("alice"));
    assert_eq!(
        check_chat(&room, 2),
        Err("e2ee required: publish E2EEKeyEpoch before plaintext control".to_string())
    );

    room.e2ee_required = false;
    assert_eq!(check_chat(&room, 2), Ok(("alice".to_string(), Some("alice".to_string()))));

    room.anonymous_mode = true;
    assert_eq!(
        check_chat(&room, 2),
        Err("anonymous mode requires EncryptedControl frames".to_string())
    );
}

#[test]
fn fanout_drop_notices_are_rate_limited() {
    let mut room = RoomState::new(1);
    assert_eq!(
        record_fanout_drops(&mut room, 2, 10_000),
        Some("backpressure: dropped fanout to 2 participant(s); total_dropped=2".to_string())
    );
    assert_eq!(record_fanout_drops(&mut room, 3, 12_000), None);
    assert_eq!(room.backpressure_dropped_messages, 5);
    assert_eq!(room.backpressure_last_notice_at_ms, 10_000);
    assert_eq!(record_fanout_drops(&mut room, 0, 20_000), None);
    assert_eq!(
        record_fanout_drops(&mut room, 1, 15_000),
        Some("backpressure: dropped fanout to 1 participant(s); total_dropped=6".to_string())
    );
}

#[test]
fn billing_in_steps_matches_billing_at_once() {
    let mut once = ParticipantState::connected(1, 0);
    advance_billing(&mut once, 90_001, 2_500);
    let mut steps = ParticipantState::connected(1, 0);
    advance_billing(&mut steps, 90_001, 700);
    advance_billing(&mut steps, 90_001, 2_500);
    assert_eq!(once.billed_nano_xor, 3_750);
    assert_eq!(once.billing_remainder_mod_60k, 2_500);
    assert_eq!(steps.billed_nano_xor, once.billed_nano_xor);
    assert_eq!(steps.billing_remainder_mod_60k, once.billing_remainder_mod_60k);
    assert_eq!(steps.last_billed_at_ms, 2_500);
}

#[test]
fn parse_i64_text_reads_signed_decimals() {
    assert_eq!(parse_i64_text("42"), Some(42));
    assert_eq!(parse_i64_text("-7"), Some(-7));
    assert_eq!(parse_i64_text("+3"), Some(3));
    assert_eq!(parse_i64_text("-9223372036854775808"), Some(i64::MIN));
    assert_eq!(parse_i64_text("9223372036854775807"), Some(i64::MAX));
    assert_eq!(parse_i64_text("9223372036854775808"), None);
    assert_eq!(parse_i64_text(""), None);
    assert_eq!(parse_i64_text("-"), None);
    assert_eq!(parse_i64_text("1a"), None);
    assert_eq!(parse_i64_text(" 1"), None);
}

fn hello(participant_id: &str, media_on: bool) -> HelloFrame {
    HelloFrame {
        protocol_version: PROTOCOL_VERSION,
        participant_id: participant_id.to_string(),
        display_name: Some("Alice".to_string()),
        mic_enabled: media_on,
        video_enabled: media_on,
        screen_share_enabled: false,
        hdr_display: false,
        hdr_capture: false,
    }
}

#[test]
fn hello_of_another_version_is_refused() {
    let mut room = RoomState::new(1);
    room.participants.insert(1, ParticipantState::connected(1, 0));
    let mut old = hello("alice@sora", false);
    old.protocol_version = PROTOCOL_VERSION + 1;
    assert_eq!(
        receive_hello(&mut room, 1, old, 5).err(),
        Some(format!("unsupported protocol_version {}", PROTOCOL_VERSION + 1))
    );
    assert!(!room.participants.get(&1).unwrap().hello_seen);
    assert_eq!(room.host_conn_id, None);
}

#[test]
fn hello_joins_with_media_forced_off_and_claims_host() {
    let mut room = RoomState::new(1);
    room.participants.insert(1, ParticipantState::connected(1, 0));
    let (outcome, forced) = receive_hello(&mut room, 1, hello("alice@sora", true), 5).expect("taken");
    assert!(forced);
    match outcome {
        HelloOutcome::Joined(snapshot, delta) => {
            assert_eq!(snapshot.participant_id, "alice@sora");
            assert!(!snapshot.mic_enabled && !snapshot.video_enabled && !snapshot.screen_share_enabled);
            assert_eq!(delta.sequence, 1);
            assert_eq!(delta.joined.len(), 1);
        }
        _ => panic!("expected join"),
    }
    let state = room.participants.get(&1).unwrap();
    assert!(state.hello_seen && !state.mic_enabled && !state.video_enabled);
    assert_eq!(room.host_conn_id, Some(1));

    room.participants.insert(2, ParticipantState::connected(2, 0));
    let (_, forced) = receive_hello(&mut room, 2, hello("bob@sora", false), 6).expect("taken");
    assert!(!forced);
    assert_eq!(room.host_conn_id, Some(1));
}

#[test]
fn plaintext_control_is_refused_in_anonymous_rooms_before_its_rules() {
    let mut room = RoomState::new(1);
    assert_eq!(plaintext_control_refusal(&room, PlaintextControl::RoleGrant), None);
    room.anonymous_mode = true;
    assert_eq!(
        plaintext_control_refusal(&room, PlaintextControl::RoleGrant),
        Some("anonymous mode rejects plaintext role grants".to_string())
    );
    assert_eq!(
        plaintext_control_refusal(&room, PlaintextControl::RoleRevoke),
        Some("anonymous mode rejects plaintext role revokes".to_string())
    );
    assert_eq!(
        plaintext_control_refusal(&room, PlaintextControl::SessionPolicy),
        Some("anonymous mode rejects plaintext policy updates".to_string())
    );

    room.participants.insert(1, joined("host"));
    room.participants.insert(2, joined("alice"));
    room.host_conn_id = Some(1);
    let grant = RoleGrantFrame {
        issued_at_ms: 1,
        target_participant_id: "host".to_string(),
        role: RoleKind::CoHost,
        granted_by: "alice".to_string(),
        signature_hex: String::new(),
    };
    assert_eq!(apply_role_grant(&mut room, 2, &grant).err(), Some("host only".to_string()));
}

#[test]
fn hub_notices_name_what_was_decided() {
    assert_eq!(hub_managed_refusal(HubManagedFrame::PermissionsSnapshot), "permissions snapshots are hub-managed");
    assert_eq!(hub_managed_refusal(HubManagedFrame::ParticipantPresenceDelta), "presence deltas are hub-managed");
    assert_eq!(
        hub_managed_refusal(HubManagedFrame::AnonGroupKeyRotate),
        "anonymous group-key rotation frames are hub-managed"
    );
    assert_eq!(mode_conflict_message(), "room is already in anonymous mode");
    assert_eq!(
        forced_off_notice(true).as_deref(),
        Some("mic/video/screen share must start disabled; forced off")
    );
    assert_eq!(forced_off_notice(false), None);
    assert!(zero_rate_notice(true).unwrap().starts_with("rate_per_minute_nano=0 rejected"));
    assert_eq!(zero_rate_notice(false), None);
    assert_eq!(kick_reason(&ModerationTarget::All), "meeting ended by host");
    assert_eq!(kick_reason(&ModerationTarget::Participant("bob".to_string())), "removed by host: bob");
    assert_eq!(admission_denied_reason("guest-user"), "waiting room admission denied: guest-user");
}

fn share_request() -> ParticipantStateFrame {
    ParticipantStateFrame {
        updated_at_ms: 1,
        mic_enabled: None,
        video_enabled: None,
        screen_share_enabled: Some(true),
    }
}

#[test]
fn screen_share_is_denied_once_the_cap_is_in_use() {
    let mut room = RoomState::new(1);
    room.e2ee_required = false;
    let mut alice = joined("alice");
    alice.screen_share_enabled = true;
    room.participants.insert(1, alice);
    room.participants.insert(2, joined("bob"));
    match apply_participant_state_update(&mut room, 2, &share_request(), 5) {
        StateUpdateOutcome::Updated(notice, snapshot) => {
            assert_eq!(notice.as_deref(), Some("screen share denied: max_screen_shares=1 already in use"));
            assert!(!snapshot.screen_share_enabled);
        }
        _ => panic!("expected update"),
    }
    assert!(!room.participants.get(&2).unwrap().screen_share_enabled);

    room.max_screen_shares = 2;
    match apply_participant_state_update(&mut room, 2, &share_request(), 6) {
        StateUpdateOutcome::Updated(notice, snapshot) => {
            assert_eq!(notice, None);
            assert!(snapshot.screen_share_enabled);
        }
        _ => panic!("expected update"),
    }
}

#[test]
fn closing_the_host_moves_host_to_smallest_connection_and_announces_it() {
    let mut room = RoomState::new(1);
    room.participants.insert(5, joined("host"));
    room.participants.insert(9, joined("carol"));
    room.participants.insert(7, joined("bob"));
    room.host_conn_id = Some(5);
    let out = remove_connection(&mut room, 5, 40);
    assert!(!out.room_empty && out.host_changed);
    assert_eq!(room.host_conn_id, Some(7));
    assert_eq!(room.permissions_epoch, 1);
    assert_eq!(room.presence_sequence, 1);
    assert!(!room.participants.contains_key(&5));
    assert_eq!(out.left_participant_id.as_deref(), Some("host"));
    let delta = out.presence_delta.expect("announced");
    assert_eq!(delta.sequence, 1);
    assert_eq!(delta.left.len(), 1);
    assert_eq!(delta.left[0].participant_id, "host");
    assert!(delta.joined.is_empty());
}

#[test]
fn joined_count_counts_only_connections_that_sent_hello() {
    let mut room = RoomState::new(1);
    assert_eq!(joined_count(&room), 0);
    room.participants.insert(4, joined("dana"));
    room.participants.insert(2, ParticipantState::connected(2, 0));
    room.participants.insert(7, joined("eve"));
    assert_eq!(joined_count(&room), 2);
    room.participants.remove(&4);
    assert_eq!(joined_count(&room), 1);
}

#[test]
fn screen_share_cap_counts_sharers_whatever_their_order() {
    let mut room = RoomState::new(1);
    room.e2ee_required = false;
    room.max_screen_shares = 2;
    room.participants.insert(9, joined("zed"));
    let mut sharer = joined("amy");
    sharer.screen_share_enabled = true;
    room.participants.insert(3, sharer.clone());
    room.participants.insert(1, sharer);
    match apply_participant_state_update(&mut room, 9, &share_request(), 5) {
        StateUpdateOutcome::Updated(notice, snapshot) => {
            assert_eq!(notice.as_deref(), Some("screen share denied: max_screen_shares=2 already in use"));
            assert!(!snapshot.screen_share_enabled);
        }
        _ => panic!("expected update"),
    }
}
