use kaigi::client::decode::{canonical_kind, decode_frame_value, parse_participant_role};
use kaigi::client::encode::encode_frame_value;
use kaigi::client::jsontext::decode_frame;
use kaigi::client::json::{JsonNumber, JsonValue};
use kaigi::client::protocol::{CodecError, ProtocolFrame};
use kaigi::client::types::{
    GuestPolicy, MediaProfile, ModerationAction, Participant, ParticipantRole,
    PaymentSettlementStatus, RecordingState, RoleChange, SessionErrorCategory,
};

#[test]
fn decode_handles_snake_case_kind_alias() {
    let frame = decode_frame(
        r#"{"kind":"handshake_ack","session_id":"s1","resume_token":"r1","accepted_at_ms":10}"#,
    )
    .expect("decode frame");

    match frame {
        ProtocolFrame::HandshakeAck { session_id, resume_token, .. } => {
            assert_eq!(session_id, "s1");
            assert_eq!(resume_token, "r1");
        }
        _ => panic!("expected handshake ack"),
    }
}

#[test]
fn decode_rejects_legacy_raw_join_frame() {
    let err = decode_frame("JOIN room=daily participant=alice").expect_err("legacy frame must fail");
    assert!(matches!(err, CodecError::InvalidJson(_)));
}

#[test]
fn decode_handles_nested_payload_aliases() {
    let frame = decode_frame(
        r#"{"kind":"session_policy","session_policy":{"room_lock":true,"waiting_room_enabled":true,"recording_policy":"started","guest_policy":"inviteOnly","e2ee_required":true,"max_participants":250,"policy_epoch":7,"updated_by":"system","signature":"sig-7"}}"#,
    )
    .expect("decode frame");

    match frame {
        ProtocolFrame::SessionPolicy {
            room_lock,
            waiting_room_enabled,
            recording_policy,
            guest_policy,
            policy_epoch,
            updated_by,
            ..
        } => {
            assert!(room_lock);
            assert!(waiting_room_enabled);
            assert_eq!(recording_policy, RecordingState::Started);
            assert_eq!(guest_policy, GuestPolicy::InviteOnly);
            assert_eq!(policy_epoch, 7);
            assert_eq!(updated_by, "system");
        }
        _ => panic!("expected session policy"),
    }
}

#[test]
fn decode_device_capability_and_pong_from_nested_payload() {
    let capability_frame = decode_frame(
        r#"{"kind":"device_capability","device_capability":{"participant_id":"linux-1","codecs":["h264","vp9"],"hdr_capture":true,"hdr_render":false,"max_streams":3,"updated_at_ms":11}}"#,
    )
    .expect("decode capability frame");

    match capability_frame {
        ProtocolFrame::DeviceCapability {
            participant_id,
            codecs,
            hdr_capture,
            hdr_render,
            max_streams,
            updated_at_ms,
        } => {
            assert_eq!(participant_id, "linux-1");
            assert_eq!(codecs, vec!["h264".to_string(), "vp9".to_string()]);
            assert!(hdr_capture);
            assert!(!hdr_render);
            assert_eq!(max_streams, 3);
            assert_eq!(updated_at_ms, 11);
        }
        _ => panic!("expected device capability"),
    }

    let pong_frame =
        decode_frame(r#"{"kind":"pong","pong":{"sent_at_ms":12}}"#).expect("decode pong frame");
    match pong_frame {
        ProtocolFrame::Pong { sent_at_ms } => assert_eq!(sent_at_ms, 12),
        _ => panic!("expected pong"),
    }
}

#[test]
fn decode_refuses_non_objects_missing_kinds_and_unknown_kinds() {
    assert_eq!(
        decode_frame("[1,2]").expect_err("array"),
        CodecError::InvalidShape("frame must be an object".to_string())
    );
    assert_eq!(
        decode_frame(r#"{"kind":7}"#).expect_err("numeric kind"),
        CodecError::InvalidShape("frame.kind missing".to_string())
    );
    assert_eq!(
        decode_frame(r#"{"kind":"teleport"}"#).expect_err("unknown kind"),
        CodecError::InvalidShape("unsupported frame kind: teleport".to_string())
    );
}

#[test]
fn decode_reports_the_first_missing_required_field() {
    assert_eq!(
        decode_frame(r#"{"kind":"handshake","participantId":"p","participantName":"n"}"#)
            .expect_err("room id missing"),
        CodecError::InvalidShape("missing required field: handshake.room_id".to_string())
    );
    assert_eq!(
        decode_frame(r#"{"kind":"handshake","roomID":"r","participantName":"n"}"#)
            .expect_err("participant id missing"),
        CodecError::InvalidShape("missing required field: handshake.participant_id".to_string())
    );
    assert_eq!(
        decode_frame(r#"{"kind":"key_rotation_ack","ack_epoch":2}"#).expect_err("id missing"),
        CodecError::InvalidShape("missing required field: keyRotationAck.participant_id".to_string())
    );
}

#[test]
fn decode_applies_defaults_and_lenient_numbers() {
    let frame = decode_frame(
        r#"{"kind":"roleGrant","targetParticipantID":"bob","role":"co_host","issuedAtMs":"-42"}"#,
    )
    .expect("decode grant");
    assert_eq!(
        frame,
        ProtocolFrame::RoleGrant {
            target_participant_id: "bob".to_string(),
            role: ParticipantRole::CoHost,
            granted_by: "unknown".to_string(),
            signature: None,
            issued_at_ms: -42,
        }
    );

    let policy = decode_frame(r#"{"kind":"sessionPolicy","roomLock":1,"maxParticipants":"3000000000"}"#)
        .expect("decode policy");
    match policy {
        ProtocolFrame::SessionPolicy { room_lock, max_participants, e2ee_required, updated_by, .. } => {
            assert!(room_lock);
            assert_eq!(max_participants, 300);
            assert!(e2ee_required);
            assert_eq!(updated_by, "system");
        }
        _ => panic!("expected session policy"),
    }
}

#[test]
fn decode_reads_presence_delta_lists() {
    let frame = decode_frame(
        r#"{"kind":"participant_presence_delta","presenceDelta":{"joined":[{"id":"a"},{"name":"no-id"},{"id":"b","displayName":"Bee","role":"host","muted":"true","videoEnabled":false}],"left":["x",3,"y"],"roleChanges":[{"participantId":"a","role":"guest"},{"role":"host"}],"sequence":9}}"#,
    )
    .expect("decode delta");
    match frame {
        ProtocolFrame::ParticipantPresenceDelta { joined, left, role_changes, sequence } => {
            assert_eq!(joined.len(), 2);
            assert_eq!(joined[0].id, "a");
            assert_eq!(joined[0].display_name, "a");
            assert_eq!(joined[0].role, ParticipantRole::Participant);
            assert!(joined[0].video_enabled);
            assert_eq!(joined[1].display_name, "Bee");
            assert_eq!(joined[1].role, ParticipantRole::Host);
            assert!(joined[1].muted);
            assert!(!joined[1].video_enabled);
            assert_eq!(left, vec!["x".to_string(), "y".to_string()]);
            assert_eq!(role_changes.len(), 1);
            assert_eq!(role_changes[0].participant_id, "a");
            assert_eq!(role_changes[0].role, ParticipantRole::Guest);
            assert_eq!(sequence, 9);
        }
        _ => panic!("expected presence delta"),
    }
}

#[test]
fn canonical_kind_maps_snake_case_names_only() {
    assert_eq!(canonical_kind("handshake_ack"), "handshakeAck");
    assert_eq!(canonical_kind("e2ee_key_epoch"), "e2eeKeyEpoch");
    assert_eq!(canonical_kind("ping"), "ping");
    assert_eq!(canonical_kind("whatever"), "whatever");
}

#[test]
fn participant_role_defaults_to_participant() {
    assert_eq!(parse_participant_role(None), ParticipantRole::Participant);
    assert_eq!(parse_participant_role(Some("coHost")), ParticipantRole::CoHost);
    assert_eq!(parse_participant_role(Some("boss")), ParticipantRole::Participant);
}

fn member<'a>(v: &'a JsonValue, key: &str) -> &'a JsonValue {
    match v {
        JsonValue::Object(members) => {
            &members.iter().find(|(k, _)| k == key).expect("member present").1
        }
        _ => panic!("expected object"),
    }
}

fn names(v: &JsonValue) -> Vec<String> {
    match v {
        JsonValue::Object(members) => members.iter().map(|(k, _)| k.clone()).collect(),
        _ => panic!("expected object"),
    }
}

#[test]
fn encode_writes_kind_first_then_fields_in_order() {
    let frame = ProtocolFrame::Handshake {
        room_id: "room".to_string(),
        participant_id: "p1".to_string(),
        participant_name: "P One".to_string(),
        wallet_identity: None,
        resume_token: Some("tok".to_string()),
        preferred_profile: MediaProfile::Hdr,
        hdr_capture: true,
        hdr_render: false,
        sent_at_ms: -5,
    };
    let value = encode_frame_value(&frame);
    assert_eq!(
        names(&value),
        vec![
            "kind", "room_id", "participant_id", "participant_name", "wallet_identity",
            "resume_token", "preferred_profile", "hdr_capture", "hdr_render", "sent_at_ms"
        ]
    );
    assert!(matches!(member(&value, "kind"), JsonValue::String(s) if s == "handshake"));
    assert!(matches!(member(&value, "wallet_identity"), JsonValue::Null));
    assert!(matches!(member(&value, "preferred_profile"), JsonValue::String(s) if s == "hdr"));
    assert!(matches!(
        member(&value, "sent_at_ms"),
        JsonValue::Number(JsonNumber { as_i64: Some(-5), as_u64: None })
    ));
}

#[test]
fn encode_names_enumerations_in_snake_case() {
    let value = encode_frame_value(&ProtocolFrame::SessionPolicy {
        room_lock: false,
        waiting_room_enabled: true,
        recording_policy: RecordingState::Started,
        guest_policy: GuestPolicy::InviteOnly,
        e2ee_required: true,
        max_participants: 42,
        policy_epoch: 3,
        updated_by: "host".to_string(),
        signature: Some("sig".to_string()),
        updated_at_ms: 7,
    });
    assert!(matches!(member(&value, "kind"), JsonValue::String(s) if s == "sessionPolicy"));
    assert!(matches!(member(&value, "guest_policy"), JsonValue::String(s) if s == "invite_only"));
    assert!(matches!(member(&value, "recording_policy"), JsonValue::String(s) if s == "started"));
    assert!(matches!(
        member(&value, "max_participants"),
        JsonValue::Number(JsonNumber { as_i64: Some(42), as_u64: Some(42) })
    ));
}

fn sample_frames() -> Vec<ProtocolFrame> {
    vec![
        ProtocolFrame::Handshake {
            room_id: "r".to_string(),
            participant_id: "p".to_string(),
            participant_name: "Pat".to_string(),
            wallet_identity: Some("w".to_string()),
            resume_token: None,
            preferred_profile: MediaProfile::Sdr,
            hdr_capture: false,
            hdr_render: true,
            sent_at_ms: 12,
        },
        ProtocolFrame::HandshakeAck {
            session_id: "s".to_string(),
            resume_token: "t".to_string(),
            accepted_at_ms: 13,
        },
        ProtocolFrame::ParticipantPresenceDelta {
            joined: vec![Participant {
                id: "a".to_string(),
                display_name: "Ann".to_string(),
                role: ParticipantRole::CoHost,
                muted: true,
                video_enabled: false,
                share_enabled: true,
                waiting_room: true,
            }],
            left: vec!["b".to_string(), "c".to_string()],
            role_changes: vec![RoleChange { participant_id: "d".to_string(), role: ParticipantRole::Guest }],
            sequence: 4,
        },
        ProtocolFrame::RoleGrant {
            target_participant_id: "x".to_string(),
            role: ParticipantRole::Host,
            granted_by: "h".to_string(),
            signature: Some("sig".to_string()),
            issued_at_ms: 1,
        },
        ProtocolFrame::RoleRevoke {
            target_participant_id: "x".to_string(),
            role: ParticipantRole::Participant,
            revoked_by: "h".to_string(),
            signature: None,
            issued_at_ms: 2,
        },
        ProtocolFrame::PermissionsSnapshot {
            participant_id: "p".to_string(),
            effective_permissions: vec!["chat".to_string()],
            epoch: -1,
        },
        ProtocolFrame::ModerationSigned {
            target_participant_id: "x".to_string(),
            action: ModerationAction::DenyFromWaiting,
            issued_by: "h".to_string(),
            signature: None,
            sent_at_ms: 3,
        },
        ProtocolFrame::SessionPolicy {
            room_lock: true,
            waiting_room_enabled: false,
            recording_policy: RecordingState::Started,
            guest_policy: GuestPolicy::Blocked,
            e2ee_required: false,
            max_participants: 12,
            policy_epoch: 2,
            updated_by: "system".to_string(),
            signature: None,
            updated_at_ms: 9,
        },
        ProtocolFrame::DeviceCapability {
            participant_id: "p".to_string(),
            codecs: vec!["h264".to_string(), "vp9".to_string()],
            hdr_capture: true,
            hdr_render: true,
            max_streams: 2,
            updated_at_ms: 5,
        },
        ProtocolFrame::MediaProfileNegotiation {
            preferred_profile: MediaProfile::Hdr,
            negotiated_profile: MediaProfile::Sdr,
            color_primaries: "bt709".to_string(),
            transfer_function: "gamma".to_string(),
            codec: "h264".to_string(),
        },
        ProtocolFrame::RecordingNotice { state: RecordingState::Stopped, issued_at_ms: 6 },
        ProtocolFrame::E2eeKeyEpoch {
            epoch: 9,
            issued_by: "h".to_string(),
            signature: Some("s".to_string()),
            sent_at_ms: 7,
        },
        ProtocolFrame::KeyRotationAck { ack_epoch: 9, participant_id: "p".to_string(), sent_at_ms: 8 },
        ProtocolFrame::PaymentPolicy { required: true, destination_account: None },
        ProtocolFrame::PaymentSettlement { status: PaymentSettlementStatus::Blocked },
        ProtocolFrame::Error {
            category: SessionErrorCategory::TransportFailure,
            code: "c".to_string(),
            message: "m".to_string(),
        },
        ProtocolFrame::Ping { sent_at_ms: 10 },
        ProtocolFrame::Pong { sent_at_ms: 11 },
    ]
}

#[test]
fn decoding_an_encoded_frame_gives_it_back() {
    for frame in sample_frames() {
        let decoded = decode_frame_value(&encode_frame_value(&frame)).expect("decode encoded frame");
        assert_eq!(decoded, frame);
    }
}

#[test]
fn encoded_text_decodes_through_serde_json() {
    let frame = ProtocolFrame::Pong { sent_at_ms: 12 };
    let value = encode_frame_value(&frame);
    let text = format!("{}", to_serde(&value));
    assert_eq!(text, r#"{"kind":"pong","sent_at_ms":12}"#);
    assert_eq!(decode_frame(&text).expect("decode"), frame);
}

fn to_serde(v: &JsonValue) -> serde_json::Value {
    match v {
        JsonValue::Null => serde_json::Value::Null,
        JsonValue::Bool(b) => serde_json::Value::Bool(*b),
        JsonValue::Number(n) => match (n.as_u64, n.as_i64) {
            (Some(u), _) => serde_json::Value::from(u),
            (None, Some(i)) => serde_json::Value::from(i),
            (None, None) => serde_json::Value::Null,
        },
        JsonValue::String(s) => serde_json::Value::String(s.clone()),
        JsonValue::Array(items) => serde_json::Value::Array(items.iter().map(to_serde).collect()),
        JsonValue::Object(members) => serde_json::Value::Object(
            members.iter().map(|(k, v)| (k.clone(), to_serde(v))).collect(),
        ),
    }
}

#[test]
fn decode_reports_serde_json_error_text_for_broken_json() {
    let expected = serde_json::from_str::<serde_json::Value>(r#"{"kind":"pong""#)
        .expect_err("broken json")
        .to_string();
    match decode_frame(r#"{"kind":"pong""#) {
        Err(CodecError::InvalidJson(message)) => {
            assert!(!message.is_empty());
            assert_eq!(message, expected);
        }
        other => panic!("expected invalid json, got {other:?}"),
    }
}

#[test]
fn decode_reads_text_with_surrounding_whitespace() {
    let frame = decode_frame(" {\n \"kind\" : \"ping\", \"sent_at_ms\" : 5 }\n").expect("decode ping");
    assert_eq!(frame, ProtocolFrame::Ping { sent_at_ms: 5 });
}
