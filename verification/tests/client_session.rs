use kaigi::client::protocol::{CodecError, ProtocolEvent, ProtocolFrame, RuntimeDirective};
use kaigi::client::reducer::reduce;
use kaigi::client::runtime::{
    MeetingTelemetryCategory, MeetingTelemetryEvent, MeetingTelemetrySink, SessionRuntime,
};
use std::cell::RefCell;
use std::rc::Rc;
use kaigi::client::types::{
    ConnectionPhase, GuestPolicy, MediaProfile, MeetingConfig, ModerationAction, Participant,
    ParticipantRole, PaymentSettlementStatus, ProtocolSessionState, RecordingState,
};

fn host(id: &str, name: &str, role: ParticipantRole) -> Participant {
    Participant {
        id: id.to_string(),
        display_name: name.to_string(),
        role,
        muted: false,
        video_enabled: true,
        share_enabled: true,
        waiting_room: false,
    }
}

fn ack_frame() -> ProtocolFrame {
    ProtocolFrame::HandshakeAck {
        session_id: "s1".to_string(),
        resume_token: "resume-1".to_string(),
        accepted_at_ms: 1,
    }
}

#[test]
fn handshake_ack_marks_connected() {
    let state = ProtocolSessionState::initial(MeetingConfig::default());
    let next = reduce(
        state,
        ProtocolEvent::FrameReceived {
            frame: ProtocolFrame::HandshakeAck {
                session_id: "session".to_string(),
                resume_token: "token".to_string(),
                accepted_at_ms: 10,
            },
        },
        10,
    );

    assert_eq!(next.connection_phase, ConnectionPhase::Connected);
    assert!(next.handshake_complete);
    assert_eq!(next.resume_token.as_deref(), Some("token"));
}

#[test]
fn presence_delta_sequence_remains_monotonic() {
    let state = ProtocolSessionState::initial(MeetingConfig::default());
    let joined = Participant {
        id: "p2".to_string(),
        display_name: "Beta".to_string(),
        role: ParticipantRole::Participant,
        muted: false,
        video_enabled: true,
        share_enabled: true,
        waiting_room: false,
    };

    let next = reduce(
        state,
        ProtocolEvent::FrameReceived {
            frame: ProtocolFrame::ParticipantPresenceDelta {
                joined: vec![joined],
                left: vec![],
                role_changes: vec![],
                sequence: 4,
            },
        },
        1,
    );

    let stale = reduce(
        next.clone(),
        ProtocolEvent::FrameReceived {
            frame: ProtocolFrame::ParticipantPresenceDelta {
                joined: vec![],
                left: vec!["p2".to_string()],
                role_changes: vec![],
                sequence: 3,
            },
        },
        2,
    );

    assert_eq!(stale.presence_sequence, 4);
    assert!(stale.participants.contains_key("p2"));
}

#[test]
fn unsigned_role_grant_is_rejected() {
    let mut config = MeetingConfig::default();
    config.prefer_web_fallback_on_policy_failure = false;
    let mut state = ProtocolSessionState::initial(config);
    state
        .participants
        .insert("host".to_string(), host("host", "Host", ParticipantRole::Host));
    let next = reduce(
        state,
        ProtocolEvent::FrameReceived {
            frame: ProtocolFrame::RoleGrant {
                target_participant_id: "host".to_string(),
                role: ParticipantRole::CoHost,
                granted_by: "host".to_string(),
                signature: None,
                issued_at_ms: 9,
            },
        },
        9,
    );

    assert_eq!(next.connection_phase, ConnectionPhase::Error);
    assert_eq!(
        next.last_error.as_ref().map(|e| e.code.as_str()),
        Some("role_grant_signature_missing")
    );
}

#[test]
fn payment_policy_error_clears_when_settlement_not_required() {
    let state = ProtocolSessionState::initial(MeetingConfig {
        require_payment_settlement: true,
        ..MeetingConfig::default()
    });
    let rejected = reduce(
        state,
        ProtocolEvent::FrameReceived {
            frame: ProtocolFrame::PaymentPolicy {
                required: true,
                destination_account: Some("wallet:dest".to_string()),
            },
        },
        10,
    );

    assert_eq!(
        rejected.last_error.as_ref().map(|e| e.code.as_str()),
        Some("payment_settlement_required")
    );

    let cleared = reduce(
        rejected,
        ProtocolEvent::ConfigUpdated {
            config: MeetingConfig {
                require_payment_settlement: false,
                ..MeetingConfig::default()
            },
        },
        11,
    );

    assert!(cleared.last_error.is_none());
}

#[test]
fn payment_policy_uses_blocked_code_when_settlement_blocked() {
    let connected = reduce(
        ProtocolSessionState::initial(MeetingConfig {
            require_payment_settlement: true,
            prefer_web_fallback_on_policy_failure: false,
            ..MeetingConfig::default()
        }),
        ProtocolEvent::FrameReceived {
            frame: ProtocolFrame::HandshakeAck {
                session_id: "s-blocked".to_string(),
                resume_token: "r-blocked".to_string(),
                accepted_at_ms: 1,
            },
        },
        1,
    );

    let pending = reduce(
        connected,
        ProtocolEvent::FrameReceived {
            frame: ProtocolFrame::PaymentPolicy {
                required: true,
                destination_account: Some("wallet:dest".to_string()),
            },
        },
        2,
    );

    let blocked = reduce(
        pending,
        ProtocolEvent::FrameReceived {
            frame: ProtocolFrame::PaymentSettlement { status: PaymentSettlementStatus::Blocked },
        },
        3,
    );

    assert_eq!(blocked.connection_phase, ConnectionPhase::Error);
    assert_eq!(
        blocked.last_error.as_ref().map(|e| e.code.as_str()),
        Some("payment_settlement_blocked")
    );
}

#[test]
fn payment_policy_error_clears_when_settlement_frame_becomes_not_required() {
    let state = ProtocolSessionState::initial(MeetingConfig {
        require_payment_settlement: true,
        prefer_web_fallback_on_policy_failure: false,
        ..MeetingConfig::default()
    });
    let pending = reduce(
        state,
        ProtocolEvent::FrameReceived {
            frame: ProtocolFrame::PaymentPolicy {
                required: true,
                destination_account: Some("wallet:dest".to_string()),
            },
        },
        10,
    );

    assert_eq!(
        pending.last_error.as_ref().map(|e| e.code.as_str()),
        Some("payment_settlement_required")
    );

    let cleared = reduce(
        pending,
        ProtocolEvent::FrameReceived {
            frame: ProtocolFrame::PaymentSettlement { status: PaymentSettlementStatus::NotRequired },
        },
        11,
    );

    assert_eq!(cleared.connection_phase, ConnectionPhase::Connecting);
    assert!(cleared.last_error.is_none());
}

#[test]
fn moderation_requires_host_role_when_signatures_optional() {
    let mut config = MeetingConfig::default();
    config.require_signed_moderation = false;
    config.prefer_web_fallback_on_policy_failure = false;
    let mut state = ProtocolSessionState::initial(config);
    state
        .participants
        .insert("host".to_string(), host("host", "Host", ParticipantRole::Host));
    state.participants.insert(
        "participant-1".to_string(),
        host("participant-1", "Participant 1", ParticipantRole::Participant),
    );
    let next = reduce(
        state,
        ProtocolEvent::FrameReceived {
            frame: ProtocolFrame::ModerationSigned {
                target_participant_id: "host".to_string(),
                action: ModerationAction::Mute,
                issued_by: "participant-1".to_string(),
                signature: None,
                sent_at_ms: 9,
            },
        },
        9,
    );

    assert_eq!(next.connection_phase, ConnectionPhase::Error);
    assert_eq!(
        next.last_error.as_ref().map(|e| e.code.as_str()),
        Some("moderation_not_authorized")
    );
}

#[test]
fn session_policy_signed_by_system_is_accepted() {
    let state = ProtocolSessionState::initial(MeetingConfig::default());
    let connected = reduce(
        state,
        ProtocolEvent::FrameReceived {
            frame: ProtocolFrame::HandshakeAck {
                session_id: "s1".to_string(),
                resume_token: "r1".to_string(),
                accepted_at_ms: 1,
            },
        },
        1,
    );

    let next = reduce(
        connected,
        ProtocolEvent::FrameReceived {
            frame: ProtocolFrame::SessionPolicy {
                room_lock: true,
                waiting_room_enabled: true,
                recording_policy: RecordingState::Started,
                guest_policy: GuestPolicy::InviteOnly,
                e2ee_required: false,
                max_participants: 500,
                policy_epoch: 5,
                updated_by: "system".to_string(),
                signature: Some("sig-system".to_string()),
                updated_at_ms: 2,
            },
        },
        2,
    );

    assert_eq!(next.connection_phase, ConnectionPhase::Connected);
    assert!(next.room_locked);
    assert!(next.waiting_room_enabled);
    assert_eq!(next.guest_policy, GuestPolicy::InviteOnly);
    assert!(next.last_error.is_none());
}

#[test]
fn fallback_rto_is_recorded_on_recovery() {
    let state = ProtocolSessionState::initial(MeetingConfig::default());
    let active = reduce(
        state,
        ProtocolEvent::FallbackActivated { reason: "manual-drill".to_string() },
        1_000,
    );

    let recovered = reduce(active, ProtocolEvent::FallbackRecovered, 1_900);
    assert_eq!(recovered.fallback.last_rto_ms, Some(900));
}

#[test]
fn runtime_schedules_reconnect_with_deterministic_backoff() {
    let mut runtime = SessionRuntime::with_backoff(MeetingConfig::default(), vec![1_000, 2_000]);
    runtime.connect_requested(100);

    let directive = runtime.on_transport_failure("network_unavailable".to_string(), 200);
    assert_eq!(
        directive,
        RuntimeDirective::ReconnectScheduled { attempt: 1, due_at_ms: 1_200 }
    );
    assert_eq!(runtime.reconnect_due_at_ms(), Some(1_200));
    assert!(!runtime.take_reconnect_if_due(1_199));
    assert!(runtime.take_reconnect_if_due(1_200));
    assert_eq!(runtime.state().connection_phase, ConnectionPhase::Connecting);
}

#[test]
fn runtime_background_defers_reconnect_until_foregrounded() {
    let mut runtime = SessionRuntime::with_backoff(MeetingConfig::default(), vec![1_000, 2_000]);
    runtime.connect_requested(0);

    let directive = runtime.on_transport_failure("network_unavailable".to_string(), 200);
    assert_eq!(
        directive,
        RuntimeDirective::ReconnectScheduled { attempt: 1, due_at_ms: 1_200 }
    );
    assert_eq!(runtime.reconnect_due_at_ms(), Some(1_200));

    runtime.on_app_backgrounded(300);
    assert_eq!(runtime.reconnect_due_at_ms(), None);
    assert!(!runtime.take_reconnect_if_due(1_200));

    runtime.on_app_foregrounded(1_300);
    assert_eq!(runtime.state().connection_phase, ConnectionPhase::Connecting);
}

#[test]
fn runtime_connectivity_restore_defers_while_backgrounded() {
    let mut runtime = SessionRuntime::with_backoff(MeetingConfig::default(), vec![1_000]);
    runtime.connect_requested(0);
    runtime.on_app_backgrounded(1);

    runtime.on_connectivity_changed(true, 2);
    assert_ne!(runtime.state().connection_phase, ConnectionPhase::Connecting);

    runtime.on_app_foregrounded(3);
    assert_eq!(runtime.state().connection_phase, ConnectionPhase::Connecting);
}

fn attribute<'a>(event: &'a MeetingTelemetryEvent, key: &str) -> Option<&'a str> {
    event.attributes.get(key).map(|v| v.as_str())
}

#[test]
fn runtime_audio_interruption_hooks_emit_telemetry_and_reconnect() {
    let mut runtime = SessionRuntime::with_backoff(MeetingConfig::default(), vec![1_000]);
    runtime.connect_requested(0);

    runtime.on_audio_interruption_began(10);
    runtime.on_audio_interruption_ended(true, 20);

    assert_eq!(runtime.state().connection_phase, ConnectionPhase::Connecting);

    let events = runtime.take_telemetry();
    assert!(events.iter().any(|event| {
        event.category == MeetingTelemetryCategory::ConnectionLifecycle
            && event.name == "audio_interruption_began"
    }));
    assert!(events.iter().any(|event| {
        event.category == MeetingTelemetryCategory::ConnectionLifecycle
            && event.name == "audio_interruption_ended"
            && attribute(event, "should_reconnect") == Some("true")
    }));
}

#[test]
fn runtime_audio_route_change_emits_telemetry() {
    let mut runtime = SessionRuntime::with_backoff(MeetingConfig::default(), vec![1_000]);

    runtime.on_audio_route_changed("becoming_noisy".to_string(), 10);

    let events = runtime.take_telemetry();
    assert!(events.iter().any(|event| {
        event.category == MeetingTelemetryCategory::ConnectionLifecycle
            && event.name == "audio_route_changed"
            && attribute(event, "reason") == Some("becoming_noisy")
    }));
}

#[test]
fn runtime_activates_fallback_after_backoff_exhaustion() {
    let mut runtime = SessionRuntime::with_backoff(MeetingConfig::default(), vec![50]);
    runtime.connect_requested(0);

    let first = runtime.on_transport_failure("socket_closed".to_string(), 10);
    assert_eq!(first, RuntimeDirective::ReconnectScheduled { attempt: 1, due_at_ms: 60 });
    assert!(runtime.take_reconnect_if_due(60));

    let second = runtime.on_transport_failure("socket_closed".to_string(), 70);
    match second {
        RuntimeDirective::FallbackActivated { reason } => {
            assert!(reason.contains("Reconnect exhausted"));
        }
        _ => panic!("expected fallback activation"),
    }
    assert!(runtime.state().fallback.active);
    assert_eq!(runtime.state().connection_phase, ConnectionPhase::FallbackActive);
}

#[test]
fn runtime_builds_handshake_capability_and_payment_frames() {
    let config = MeetingConfig {
        room_id: "ga-room".to_string(),
        participant_id: "linux-guest-1".to_string(),
        participant_name: "Linux Guest".to_string(),
        require_payment_settlement: true,
        ..MeetingConfig::default()
    };
    let mut runtime = SessionRuntime::new(config);
    runtime.connect_requested(0);

    runtime.on_frame(ack_frame(), 1);

    let frames = runtime.on_transport_connected(2);
    assert_eq!(frames.len(), 3);
    match &frames[0] {
        ProtocolFrame::Handshake {
            room_id,
            participant_id,
            participant_name,
            resume_token,
            preferred_profile,
            hdr_capture,
            hdr_render,
            ..
        } => {
            assert_eq!(room_id, "ga-room");
            assert_eq!(participant_id, "linux-guest-1");
            assert_eq!(participant_name, "Linux Guest");
            assert_eq!(resume_token.as_deref(), Some("resume-1"));
            assert_eq!(*preferred_profile, MediaProfile::Hdr);
            assert!(*hdr_capture);
            assert!(*hdr_render);
        }
        _ => panic!("expected handshake"),
    }
    match &frames[1] {
        ProtocolFrame::DeviceCapability { participant_id, hdr_capture, hdr_render, .. } => {
            assert_eq!(participant_id, "linux-guest-1");
            assert!(*hdr_capture);
            assert!(*hdr_render);
        }
        _ => panic!("expected device capability"),
    }
    assert!(matches!(frames[2], ProtocolFrame::PaymentPolicy { required: true, .. }));
}

#[test]
fn runtime_builds_sdr_handshake_when_hdr_capabilities_disabled() {
    let config = MeetingConfig {
        participant_id: "linux-sdr-guest".to_string(),
        supports_hdr_capture: false,
        supports_hdr_render: false,
        ..MeetingConfig::default()
    };
    let mut runtime = SessionRuntime::new(config);
    runtime.connect_requested(0);
    runtime.on_frame(ack_frame(), 1);

    let frames = runtime.on_transport_connected(2);
    assert_eq!(frames.len(), 2);

    match &frames[0] {
        ProtocolFrame::Handshake { participant_id, preferred_profile, hdr_capture, hdr_render, .. } => {
            assert_eq!(participant_id, "linux-sdr-guest");
            assert_eq!(*preferred_profile, MediaProfile::Sdr);
            assert!(!*hdr_capture);
            assert!(!*hdr_render);
        }
        _ => panic!("expected handshake"),
    }

    match &frames[1] {
        ProtocolFrame::DeviceCapability { participant_id, hdr_capture, hdr_render, .. } => {
            assert_eq!(participant_id, "linux-sdr-guest");
            assert!(!*hdr_capture);
            assert!(!*hdr_render);
        }
        _ => panic!("expected device capability"),
    }
}

#[test]
fn runtime_resolves_participant_id_from_name_when_missing() {
    let config = MeetingConfig {
        participant_id: "   ".to_string(),
        participant_name: "Linux QA 42".to_string(),
        ..MeetingConfig::default()
    };
    let mut runtime = SessionRuntime::new(config);
    runtime.connect_requested(0);
    runtime.on_frame(ack_frame(), 1);

    let frames = runtime.on_transport_connected(2);
    assert_eq!(frames.len(), 2);
    match &frames[0] {
        ProtocolFrame::Handshake { participant_id, .. } => {
            assert_eq!(participant_id, "linux-qa-42");
        }
        _ => panic!("expected handshake"),
    }
    match &frames[1] {
        ProtocolFrame::DeviceCapability { participant_id, .. } => {
            assert_eq!(participant_id, "linux-qa-42");
        }
        _ => panic!("expected device capability"),
    }
}

#[test]
fn runtime_falls_back_to_participant_when_explicit_id_normalizes_empty() {
    let config = MeetingConfig {
        participant_id: "###@@@".to_string(),
        participant_name: "Linux QA 42".to_string(),
        ..MeetingConfig::default()
    };
    let mut runtime = SessionRuntime::new(config);
    runtime.connect_requested(0);
    runtime.on_frame(ack_frame(), 1);

    let frames = runtime.on_transport_connected(2);
    assert_eq!(frames.len(), 2);
    match &frames[0] {
        ProtocolFrame::Handshake { participant_id, .. } => {
            assert_eq!(participant_id, "participant");
        }
        _ => panic!("expected handshake"),
    }
    match &frames[1] {
        ProtocolFrame::DeviceCapability { participant_id, .. } => {
            assert_eq!(participant_id, "participant");
        }
        _ => panic!("expected device capability"),
    }

    let ack = runtime.on_frame(
        ProtocolFrame::E2eeKeyEpoch {
            epoch: 5,
            issued_by: "host".to_string(),
            signature: Some("sig-5".to_string()),
            sent_at_ms: 500,
        },
        501,
    );
    match &ack[0] {
        ProtocolFrame::KeyRotationAck { participant_id, ack_epoch, .. } => {
            assert_eq!(participant_id, "participant");
            assert_eq!(*ack_epoch, 5);
        }
        _ => panic!("expected key rotation ack"),
    }
}

#[test]
fn runtime_replies_to_ping_with_pong() {
    let mut runtime = SessionRuntime::new(MeetingConfig::default());
    let outbound = runtime.on_frame(ProtocolFrame::Ping { sent_at_ms: 10 }, 20);
    assert_eq!(outbound, vec![ProtocolFrame::Pong { sent_at_ms: 20 }]);
}

#[test]
fn runtime_acknowledges_e2ee_key_epoch() {
    let config = MeetingConfig { participant_id: "guest".to_string(), ..MeetingConfig::default() };
    let mut runtime = SessionRuntime::new(config);
    let outbound = runtime.on_frame(
        ProtocolFrame::E2eeKeyEpoch {
            epoch: 3,
            issued_by: "host".to_string(),
            signature: Some("sig-3".to_string()),
            sent_at_ms: 10,
        },
        20,
    );

    assert_eq!(
        outbound,
        vec![ProtocolFrame::KeyRotationAck {
            ack_epoch: 3,
            participant_id: "guest".to_string(),
            sent_at_ms: 20,
        }]
    );
    assert_eq!(runtime.state().e2ee_state.current_epoch, 3);
    assert_eq!(runtime.state().e2ee_state.last_ack_epoch, 3);
}

#[test]
fn runtime_does_not_acknowledge_unsigned_e2ee_key_epoch_when_signatures_required() {
    let config = MeetingConfig {
        participant_id: "guest".to_string(),
        require_signed_moderation: true,
        ..MeetingConfig::default()
    };
    let mut runtime = SessionRuntime::new(config);
    let first = runtime.on_frame(
        ProtocolFrame::E2eeKeyEpoch {
            epoch: 3,
            issued_by: "host".to_string(),
            signature: Some("sig-3".to_string()),
            sent_at_ms: 10,
        },
        20,
    );
    assert_eq!(first.len(), 1);
    assert_eq!(runtime.state().e2ee_state.last_ack_epoch, 3);

    let second = runtime.on_frame(
        ProtocolFrame::E2eeKeyEpoch {
            epoch: 2,
            issued_by: "host".to_string(),
            signature: None,
            sent_at_ms: 30,
        },
        40,
    );

    assert!(second.is_empty());
    assert_eq!(runtime.state().e2ee_state.last_ack_epoch, 3);
    assert_eq!(
        runtime.state().last_error.as_ref().map(|e| e.code.as_str()),
        Some("e2ee_signature_missing")
    );
}

#[test]
fn runtime_acknowledges_e2ee_key_epoch_with_resolved_participant_id_when_missing() {
    let config = MeetingConfig {
        participant_id: "".to_string(),
        participant_name: "Linux Ops Guest".to_string(),
        ..MeetingConfig::default()
    };
    let mut runtime = SessionRuntime::new(config);
    let outbound = runtime.on_frame(
        ProtocolFrame::E2eeKeyEpoch {
            epoch: 4,
            issued_by: "host".to_string(),
            signature: Some("sig-4".to_string()),
            sent_at_ms: 10,
        },
        20,
    );

    assert_eq!(
        outbound,
        vec![ProtocolFrame::KeyRotationAck {
            ack_epoch: 4,
            participant_id: "linux-ops-guest".to_string(),
            sent_at_ms: 20,
        }]
    );
}

#[test]
fn runtime_manual_disconnect_suppresses_reconnect_schedule() {
    let mut runtime = SessionRuntime::new(MeetingConfig::default());
    runtime.connect_requested(0);
    runtime.on_manual_disconnect(1);

    let directive = runtime.on_transport_failure("network".to_string(), 2);
    assert_eq!(directive, RuntimeDirective::NoAction);
    assert_eq!(runtime.reconnect_due_at_ms(), None);
}

#[test]
fn recover_from_fallback_resets_reconnect_backoff_attempt() {
    let mut runtime = SessionRuntime::with_backoff(MeetingConfig::default(), vec![50]);
    runtime.connect_requested(0);

    let first = runtime.on_transport_failure("socket_closed".to_string(), 10);
    assert_eq!(first, RuntimeDirective::ReconnectScheduled { attempt: 1, due_at_ms: 60 });
    assert!(runtime.take_reconnect_if_due(60));

    let exhausted = runtime.on_transport_failure("socket_closed".to_string(), 70);
    assert!(matches!(exhausted, RuntimeDirective::FallbackActivated { .. }));
    assert!(runtime.state().fallback.active);

    runtime.recover_from_fallback(100);
    assert!(!runtime.state().fallback.active);
    assert_eq!(runtime.state().connection_phase, ConnectionPhase::Connecting);

    let after_recovery = runtime.on_transport_failure("socket_closed".to_string(), 110);
    assert_eq!(
        after_recovery,
        RuntimeDirective::ReconnectScheduled { attempt: 1, due_at_ms: 160 }
    );
}

#[test]
fn runtime_emits_policy_failure_and_fallback_telemetry_events() {
    let mut runtime = SessionRuntime::with_backoff(
        MeetingConfig {
            require_payment_settlement: true,
            prefer_web_fallback_on_policy_failure: true,
            ..MeetingConfig::default()
        },
        vec![1_000],
    );

    runtime.connect_requested(0);
    runtime.on_frame(
        ProtocolFrame::PaymentPolicy {
            required: true,
            destination_account: Some("nexus://dest".to_string()),
        },
        10,
    );

    let events = runtime.take_telemetry();
    let policy_event = events
        .iter()
        .find(|event| {
            event.category == MeetingTelemetryCategory::PolicyFailure
                && event.name == "payment_settlement_required"
        })
        .expect("policy failure telemetry event should be recorded");
    assert_eq!(attribute(policy_event, "code"), Some("payment_settlement_required"));

    let fallback_event = events
        .iter()
        .find(|event| {
            event.category == MeetingTelemetryCategory::FallbackLifecycle
                && event.name == "fallback_activated"
        })
        .expect("fallback activation telemetry event should be recorded");
    assert_eq!(
        attribute(fallback_event, "reason"),
        Some("policy:payment_settlement_required")
    );
}

#[test]
fn runtime_emits_fallback_recovered_rto_telemetry_event() {
    let mut runtime = SessionRuntime::with_backoff(MeetingConfig::default(), Vec::new());

    runtime.connect_requested(0);
    let directive = runtime.on_transport_failure("socket_closed".to_string(), 10);
    assert!(matches!(directive, RuntimeDirective::FallbackActivated { .. }));
    runtime.recover_from_fallback(120);

    let events = runtime.take_telemetry();
    let recovered_event = events
        .iter()
        .find(|event| {
            event.category == MeetingTelemetryCategory::FallbackLifecycle
                && event.name == "fallback_recovered"
        })
        .expect("fallback recovery telemetry event should be recorded");
    assert_eq!(attribute(recovered_event, "rto_ms"), Some("110"));
}

#[test]
fn codec_error_messages_name_their_kind() {
    assert_eq!(
        CodecError::InvalidShape("frame.kind missing".to_string()).message(),
        "invalid frame shape: frame.kind missing"
    );
    assert_eq!(CodecError::InvalidJson("eof".to_string()).message(), "invalid frame json: eof");
}

#[derive(Clone, Default)]
struct InMemoryMeetingTelemetrySink {
    events: Rc<RefCell<Vec<MeetingTelemetryEvent>>>,
}

impl MeetingTelemetrySink for InMemoryMeetingTelemetrySink {
    fn record(&self, event: MeetingTelemetryEvent) {
        self.events.borrow_mut().push(event);
    }
}

#[test]
fn telemetry_sink_receives_each_event_as_it_happens() {
    let sink = InMemoryMeetingTelemetrySink::default();
    let mut runtime = SessionRuntime::with_backoff_and_telemetry(
        MeetingConfig::default(),
        vec![50],
        sink.clone(),
    );
    runtime.connect_requested(0);
    let seen_after_connect = sink.events.borrow().len();
    assert!(seen_after_connect >= 1);
    runtime.on_transport_failure("socket_closed".to_string(), 10);
    assert!(sink.events.borrow().len() > seen_after_connect);
    let buffered = runtime.take_telemetry();
    let delivered = sink.events.borrow();
    assert_eq!(buffered.len(), delivered.len());
    for (a, b) in buffered.iter().zip(delivered.iter()) {
        assert_eq!(a.name, b.name);
        assert_eq!(a.category, b.category);
        assert_eq!(a.at_ms, b.at_ms);
    }
}
