//! The session runtime: it feeds transport and app lifecycle events to the
//! reducer, schedules reconnects with backoff, activates the web fallback
//! when reconnects run out, answers pings and key epochs, and records
//! telemetry about what happened.
use vstd::prelude::*;
use crate::client::identity::{resolved_participant_id, spec_resolved_participant_id};
use crate::client::protocol::{ProtocolEvent, ProtocolFrame, RuntimeDirective};
use crate::client::reducer::{
    copy_session_error, reduce, spec_event_applied, spec_has_required_signature, spec_rto_fits,
};
use crate::client::types::{
    spec_initial_state, ConnectionPhase, MediaProfile, MeetingConfig, ProtocolSessionState,
    SessionError, SessionErrorCategory,
};
use crate::hub::room::copy_opt_text;
use crate::hub::table::TextTable;
use crate::text::{
    concat3, decimal_string, is_blank, same_text, signed_decimal_string, spec_decimal, spec_is_blank,
    spec_signed_decimal,
};

verus! {

broadcast use vstd::string::group_string_axioms;

/// The kind of a telemetry event.
#[derive(Debug, Clone, Copy, PartialEq, Eq, Structural)]
pub enum MeetingTelemetryCategory {
    ConnectionLifecycle,
    FallbackLifecycle,
    PolicyFailure,
}

/// One telemetry event: its kind, name, attributes and time.
#[derive(Debug, Clone)]
pub struct MeetingTelemetryEvent {
    pub category: MeetingTelemetryCategory,
    pub name: String,
    pub attributes: TextTable<String>,
    pub at_ms: i64,
}

/// A telemetry event as plain values.
pub open spec fn spec_event_view(e: MeetingTelemetryEvent) -> (
    MeetingTelemetryCategory,
    Seq<char>,
    Map<Seq<char>, Seq<char>>,
    i64,
) {
    (e.category, e.name@, e.attributes@.map_values(|v: String| v@), e.at_ms)
}

/// Where telemetry events go.
pub trait MeetingTelemetrySink {
    /// Takes one event.
    fn record(&self, event: MeetingTelemetryEvent);
}

/// A sink that drops every event.
#[derive(Debug, Clone, Copy, Default)]
pub struct NoOpMeetingTelemetrySink;

impl MeetingTelemetrySink for NoOpMeetingTelemetrySink {
    fn record(&self, event: MeetingTelemetryEvent) {
    }
}

/// Attributes from key and value pairs; a later pair replaces an earlier
/// one with the same key.
pub open spec fn spec_attributes(pairs: Seq<(&str, String)>) -> Map<Seq<char>, Seq<char>>
    decreases pairs.len(),
{
    if pairs.len() == 0 {
        Map::empty()
    } else {
        spec_attributes(pairs.drop_last()).insert(pairs.last().0@, pairs.last().1@)
    }
}

proof fn lemma_attributes_one(pairs: Seq<(&str, String)>)
    requires
        pairs.len() == 1,
    ensures
        spec_attributes(pairs) == map![pairs[0].0@ => pairs[0].1@],
{
    assert(pairs.drop_last() =~= Seq::<(&str, String)>::empty());
    reveal_with_fuel(spec_attributes, 2);
    assert(spec_attributes(pairs) =~= map![pairs[0].0@ => pairs[0].1@]);
}

proof fn lemma_attributes_two(pairs: Seq<(&str, String)>)
    requires
        pairs.len() == 2,
    ensures
        spec_attributes(pairs) == map![pairs[0].0@ => pairs[0].1@].insert(pairs[1].0@, pairs[1].1@),
{
    lemma_attributes_one(pairs.drop_last());
}

/// Collects attributes from key and value pairs.
pub fn map_attributes(attributes: Vec<(&str, String)>) -> (r: TextTable<String>)
    ensures
        r@.map_values(|v: String| v@) == spec_attributes(attributes@),
{
    let mut map: TextTable<String> = TextTable::new();
    let mut i: usize = 0;
    while i < attributes.len()
        invariant
            i <= attributes@.len(),
            map@.map_values(|v: String| v@) == spec_attributes(attributes@.subrange(0, i as int)),
        decreases attributes@.len() - i,
    {
        let (key, value) = (attributes[i].0, attributes[i].1.clone());
        let ghost before = map@;
        proof {
            assert(attributes@.subrange(0, i + 1).drop_last() =~= attributes@.subrange(0, i as int));
        }
        map.insert(key.to_owned(), value);
        proof {
            assert(map@.map_values(|v: String| v@) =~= before.map_values(|v: String| v@).insert(
                key@,
                attributes@[i as int].1@,
            ));
        }
        i = i + 1;
    }
    proof {
        assert(attributes@.subrange(0, attributes@.len() as int) =~= attributes@);
    }
    map
}

/// The name of a connection phase, as its `Debug` form writes it.
pub open spec fn spec_phase_name(p: ConnectionPhase) -> Seq<char> {
    match p {
        ConnectionPhase::Disconnected => "Disconnected"@,
        ConnectionPhase::Connecting => "Connecting"@,
        ConnectionPhase::Connected => "Connected"@,
        ConnectionPhase::Degraded => "Degraded"@,
        ConnectionPhase::FallbackActive => "FallbackActive"@,
        ConnectionPhase::Error => "Error"@,
    }
}

fn phase_name(p: ConnectionPhase) -> (r: &'static str)
    ensures
        r@ == spec_phase_name(p),
{
    match p {
        ConnectionPhase::Disconnected => "Disconnected",
        ConnectionPhase::Connecting => "Connecting",
        ConnectionPhase::Connected => "Connected",
        ConnectionPhase::Degraded => "Degraded",
        ConnectionPhase::FallbackActive => "FallbackActive",
        ConnectionPhase::Error => "Error",
    }
}

/// Two errors say the same.
pub open spec fn spec_same_error(a: Option<SessionError>, b: Option<SessionError>) -> bool {
    match (a, b) {
        (None, None) => true,
        (Some(x), Some(y)) => x.category == y.category && x.code@ == y.code@ && x.message@
            == y.message@ && x.at_ms == y.at_ms,
        _ => false,
    }
}

fn same_error(a: &Option<SessionError>, b: &Option<SessionError>) -> (r: bool)
    ensures
        r == spec_same_error(*a, *b),
{
    match (a, b) {
        (None, None) => true,
        (Some(x), Some(y)) => x.category == y.category && same_text(
            x.code.as_str(),
            y.code.as_str(),
        ) && same_text(x.message.as_str(), y.message.as_str()) && x.at_ms == y.at_ms,
        _ => false,
    }
}

/// A telemetry event as plain values, from its parts.
pub open spec fn spec_ev(
    category: MeetingTelemetryCategory,
    name: Seq<char>,
    attributes: Map<Seq<char>, Seq<char>>,
    at_ms: i64,
) -> (MeetingTelemetryCategory, Seq<char>, Map<Seq<char>, Seq<char>>, i64) {
    (category, name, attributes, at_ms)
}

/// The telemetry a state change produces: a phase change, a fallback
/// activation or recovery, and a new policy failure, in that order.
pub open spec fn spec_transition_events(
    prev_phase: ConnectionPhase,
    prev_fallback_active: bool,
    prev_error: Option<SessionError>,
    next: ProtocolSessionState,
    now_ms: i64,
) -> Seq<(MeetingTelemetryCategory, Seq<char>, Map<Seq<char>, Seq<char>>, i64)> {
    let phase = if prev_phase != next.connection_phase {
        seq![
            spec_ev(
                MeetingTelemetryCategory::ConnectionLifecycle,
                "phase_changed"@,
                map![
                    "from"@ => spec_phase_name(prev_phase),
                    "to"@ => spec_phase_name(next.connection_phase),
                ],
                now_ms,
            ),
        ]
    } else {
        Seq::empty()
    };
    let activated = if !prev_fallback_active && next.fallback.active {
        seq![
            spec_ev(
                MeetingTelemetryCategory::FallbackLifecycle,
                "fallback_activated"@,
                map![
                    "reason"@ => match next.fallback.reason {
                        Some(r) => r@,
                        None => "unknown"@,
                    },
                ],
                now_ms,
            ),
        ]
    } else {
        Seq::empty()
    };
    let recovered = if prev_fallback_active && !next.fallback.active {
        seq![
            spec_ev(
                MeetingTelemetryCategory::FallbackLifecycle,
                "fallback_recovered"@,
                match next.fallback.last_rto_ms {
                    Some(t) => map!["rto_ms"@ => spec_signed_decimal(t as int)],
                    None => Map::empty(),
                },
                now_ms,
            ),
        ]
    } else {
        Seq::empty()
    };
    let policy = match next.last_error {
        Some(e) => if !spec_same_error(prev_error, next.last_error) && e.category
            == SessionErrorCategory::PolicyFailure {
            seq![
                spec_ev(
                    MeetingTelemetryCategory::PolicyFailure,
                    e.code@,
                    map!["code"@ => e.code@, "message"@ => e.message@],
                    now_ms,
                ),
            ]
        } else {
            Seq::empty()
        },
        None => Seq::empty(),
    };
    phase + activated + recovered + policy
}

/// A telemetry event as plain values: kind, name, attributes and time.
pub type EventView = (MeetingTelemetryCategory, Seq<char>, Map<Seq<char>, Seq<char>>, i64);

/// A session runtime as plain values.
pub struct RuntimeView {
    pub state: ProtocolSessionState,
    pub backoff: Seq<i64>,
    pub attempt: usize,
    pub due: Option<i64>,
    pub manual: bool,
    pub background: bool,
    pub events: Seq<EventView>,
}

/// `pre` with one connection-lifecycle event recorded.
pub open spec fn spec_logged(
    pre: RuntimeView,
    name: Seq<char>,
    attributes: Map<Seq<char>, Seq<char>>,
    now_ms: i64,
) -> RuntimeView {
    RuntimeView {
        events: pre.events.push(
            spec_ev(MeetingTelemetryCategory::ConnectionLifecycle, name, attributes, now_ms),
        ),
        ..pre
    }
}

/// `post` is `pre` once the reducer has applied `event` at `now_ms`, with
/// the telemetry of the change recorded.
pub open spec fn spec_applied(
    pre: RuntimeView,
    event: ProtocolEvent,
    now_ms: i64,
    post: RuntimeView,
) -> bool {
    &&& spec_event_applied(pre.state, event, now_ms, post.state)
    &&& post == RuntimeView {
        state: post.state,
        events: pre.events + spec_transition_events(
            pre.state.connection_phase,
            pre.state.fallback.active,
            pre.state.last_error,
            post.state,
            now_ms,
        ),
        ..pre
    }
}

/// `post` is `pre` after a transport disconnect for the given reason.
pub open spec fn spec_disconnected_by(
    pre: RuntimeView,
    reason: Seq<char>,
    now_ms: i64,
    post: RuntimeView,
) -> bool {
    exists|r: String|
        r@ == reason && #[trigger] spec_applied(
            pre,
            ProtocolEvent::TransportDisconnected { reason: r },
            now_ms,
            post,
        )
}

/// `post` is `pre` after a transport failure with the given message.
pub open spec fn spec_failed_by(
    pre: RuntimeView,
    message: Seq<char>,
    now_ms: i64,
    post: RuntimeView,
) -> bool {
    exists|m: String|
        m@ == message && #[trigger] spec_applied(
            pre,
            ProtocolEvent::TransportFailure { message: m },
            now_ms,
            post,
        )
}

/// What asking to connect does: in the background it only records that the
/// request waits; otherwise it clears the manual-disconnect flag and the
/// scheduled reconnect, resets the attempts if asked, records the request
/// and moves the session to connecting.
pub open spec fn spec_request_connect(
    pre: RuntimeView,
    reset_backoff: bool,
    source: Seq<char>,
    now_ms: i64,
    post: RuntimeView,
) -> bool {
    if pre.background {
        post == spec_logged(pre, "connect_deferred_backgrounded"@, map!["source"@ => source], now_ms)
    } else {
        spec_applied(
            spec_logged(
                RuntimeView {
                    manual: false,
                    due: None,
                    attempt: if reset_backoff {
                        0
                    } else {
                        pre.attempt
                    },
                    ..pre
                },
                "connect_requested"@,
                map!["source"@ => source],
                now_ms,
            ),
            ProtocolEvent::ConnectRequested,
            now_ms,
            post,
        )
    }
}

/// The reason given when the reconnect attempts have run out.
pub open spec fn spec_exhausted_reason(attempt: usize, trigger: Seq<char>) -> Seq<char> {
    "Reconnect exhausted after "@ + spec_decimal(attempt as nat) + " attempts: "@ + trigger
}

/// `now_ms + delay_ms` for a delay of zero or more, held at `i64::MAX`.
pub open spec fn spec_due_at(now_ms: i64, delay_ms: i64) -> i64 {
    if now_ms + delay_ms > i64::MAX {
        i64::MAX
    } else {
        (now_ms + delay_ms) as i64
    }
}

/// What a lost connection leads to. Nothing, when the user disconnected,
/// the fallback is active, the app is in the background or a reconnect is
/// already scheduled. The fallback, when every delay has been used; no
/// telemetry is recorded for it. Otherwise the next reconnect, due after
/// the next delay (a negative delay counts as none).
pub open spec fn spec_schedule(
    pre: RuntimeView,
    trigger: Seq<char>,
    now_ms: i64,
    post: RuntimeView,
    d: RuntimeDirective,
) -> bool {
    if pre.manual || pre.state.fallback.active || pre.background || pre.due is Some {
        post == pre && d is NoAction
    } else if pre.attempt >= pre.backoff.len() {
        &&& d matches RuntimeDirective::FallbackActivated { reason } && reason@
            == spec_exhausted_reason(pre.attempt, trigger) && spec_event_applied(
            pre.state,
            ProtocolEvent::FallbackActivated { reason },
            now_ms,
            post.state,
        )
        &&& post == RuntimeView { state: post.state, ..pre }
    } else {
        let delay = if pre.backoff[pre.attempt as int] < 0 {
            0i64
        } else {
            pre.backoff[pre.attempt as int]
        };
        let due = spec_due_at(now_ms, delay);
        let attempt = (pre.attempt + 1) as usize;
        &&& d == RuntimeDirective::ReconnectScheduled { attempt, due_at_ms: due }
        &&& post == spec_logged(
            RuntimeView { attempt, due: Some(due), ..pre },
            "reconnect_scheduled"@,
            map![
                "attempt"@ => spec_decimal(attempt as nat),
                "due_at_ms"@ => spec_signed_decimal(due as int),
                "trigger"@ => trigger,
            ],
            now_ms,
        )
    }
}

/// What a transport problem leads to after the reducer has seen it: in the
/// background a note that the reconnect waits, otherwise a reconnect or the
/// fallback.
pub open spec fn spec_after_problem(
    pre: RuntimeView,
    trigger: Seq<char>,
    now_ms: i64,
    post: RuntimeView,
    d: RuntimeDirective,
) -> bool {
    if pre.background {
        &&& post == spec_logged(
            pre,
            "reconnect_deferred_backgrounded"@,
            map!["trigger"@ => trigger],
            now_ms,
        )
        &&& d is NoAction
    } else {
        spec_schedule(pre, trigger, now_ms, post, d)
    }
}

/// The first frames of a session: the handshake, the device capabilities,
/// and the payment policy when the meeting requires settlement.
pub open spec fn spec_handshake_frames(s: ProtocolSessionState, now_ms: i64, r: Seq<ProtocolFrame>) -> bool {
    let config = s.config;
    let pid = spec_resolved_participant_id(config);
    &&& r.len() == if config.require_payment_settlement {
        3int
    } else {
        2int
    }
    &&& r[0] matches ProtocolFrame::Handshake {
        room_id,
        participant_id,
        participant_name,
        wallet_identity,
        resume_token,
        preferred_profile,
        hdr_capture,
        hdr_render,
        sent_at_ms,
    } && room_id == config.room_id && participant_id@ == pid && participant_name
        == config.participant_name && wallet_identity == config.wallet_identity && resume_token
        == s.resume_token && preferred_profile == (if config.supports_hdr_capture
        && config.supports_hdr_render {
        MediaProfile::Hdr
    } else {
        MediaProfile::Sdr
    }) && hdr_capture == config.supports_hdr_capture && hdr_render == config.supports_hdr_render
        && sent_at_ms == now_ms
    &&& r[1] matches ProtocolFrame::DeviceCapability {
        participant_id,
        codecs,
        hdr_capture,
        hdr_render,
        max_streams,
        updated_at_ms,
    } && participant_id@ == pid && codecs@.map_values(|c: String| c@) == seq!["h264"@, "vp9"@]
        && hdr_capture == config.supports_hdr_capture && hdr_render == config.supports_hdr_render
        && max_streams == 4 && updated_at_ms == now_ms
    &&& config.require_payment_settlement ==> (r[2] matches ProtocolFrame::PaymentPolicy {
        required,
        destination_account,
    } && required && (destination_account matches Some(a) && a@ == "nexus://payment-policy"@))
}

/// The signature of a key epoch is good enough: present and not blank, when
/// the meeting requires signed moderation.
pub open spec fn spec_epoch_signature_ok(config: MeetingConfig, signature: Option<String>) -> bool {
    config.require_signed_moderation ==> (signature matches Some(v) && !spec_is_blank(v@))
}

/// What a received frame does: the reducer applies it; a ping is answered
/// with a pong; a key epoch that is signed well enough and not ahead of the
/// session's epoch is acknowledged, and the acknowledgement is applied too.
pub open spec fn spec_on_frame(
    pre: RuntimeView,
    frame: ProtocolFrame,
    now_ms: i64,
    post: RuntimeView,
    out: Seq<ProtocolFrame>,
) -> bool {
    exists|mid: RuntimeView|
        #[trigger] spec_applied(pre, ProtocolEvent::FrameReceived { frame }, now_ms, mid) && match frame {
            ProtocolFrame::Ping { .. } => post == mid && out == seq![
                ProtocolFrame::Pong { sent_at_ms: now_ms },
            ],
            ProtocolFrame::E2eeKeyEpoch { epoch, signature, .. } => if spec_epoch_signature_ok(
                mid.state.config,
                signature,
            ) && mid.state.e2ee_state.current_epoch >= epoch {
                &&& out.len() == 1
                &&& out[0] matches ProtocolFrame::KeyRotationAck {
                    ack_epoch,
                    participant_id,
                    sent_at_ms,
                } && ack_epoch == epoch && participant_id@ == spec_resolved_participant_id(
                    pre.state.config,
                ) && sent_at_ms == now_ms
                &&& spec_applied(mid, ProtocolEvent::FrameReceived { frame: out[0] }, now_ms, post)
            } else {
                post == mid && out.len() == 0
            },
            _ => post == mid && out.len() == 0,
        }
}

/// A session runtime: the session state, the reconnect backoff and its
/// progress, the app's lifecycle flags, and the telemetry not yet taken.
pub struct SessionRuntime<S> {
    state: ProtocolSessionState,
    reconnect_backoff_ms: Vec<i64>,
    reconnect_attempt: usize,
    reconnect_due_at_ms: Option<i64>,
    user_initiated_disconnect: bool,
    app_in_background: bool,
    telemetry: Vec<MeetingTelemetryEvent>,
    sink: S,
}

impl<S> View for SessionRuntime<S> {
    type V = RuntimeView;

    closed spec fn view(&self) -> RuntimeView {
        RuntimeView {
            state: self.state,
            backoff: self.reconnect_backoff_ms@,
            attempt: self.reconnect_attempt,
            due: self.reconnect_due_at_ms,
            manual: self.user_initiated_disconnect,
            background: self.app_in_background,
            events: self.telemetry@.map_values(|e: MeetingTelemetryEvent| spec_event_view(e)),
        }
    }
}

impl SessionRuntime<NoOpMeetingTelemetrySink> {
    /// A runtime with the default backoff of one, two, four and eight
    /// seconds.
    pub fn new(config: MeetingConfig) -> (r: Self)
        ensures
            spec_initial_state(r@.state, config),
            r@.backoff == seq![1_000i64, 2_000, 4_000, 8_000],
            r@.attempt == 0,
            r@.due is None,
            !r@.manual,
            !r@.background,
            r@.events.len() == 0,
    {
        let mut backoff: Vec<i64> = Vec::new();
        backoff.push(1_000);
        backoff.push(2_000);
        backoff.push(4_000);
        backoff.push(8_000);
        let r = Self::with_backoff(config, backoff);
        assert(r@.backoff =~= seq![1_000i64, 2_000, 4_000, 8_000]);
        r
    }

    /// A runtime with the given reconnect delays, whose telemetry goes to
    /// no sink.
    pub fn with_backoff(config: MeetingConfig, reconnect_backoff_ms: Vec<i64>) -> (r: Self)
        ensures
            spec_initial_state(r@.state, config),
            r@.backoff == reconnect_backoff_ms@,
            r@.attempt == 0,
            r@.due is None,
            !r@.manual,
            !r@.background,
            r@.events.len() == 0,
    {
        SessionRuntime::with_backoff_and_telemetry(
            config,
            reconnect_backoff_ms,
            NoOpMeetingTelemetrySink,
        )
    }
}

impl<S: MeetingTelemetrySink> SessionRuntime<S> {
    /// A runtime with the given reconnect delays whose telemetry events go
    /// to `sink` as they happen (and are also kept until taken).
    pub fn with_backoff_and_telemetry(
        config: MeetingConfig,
        reconnect_backoff_ms: Vec<i64>,
        sink: S,
    ) -> (r: Self)
        ensures
            spec_initial_state(r@.state, config),
            r@.backoff == reconnect_backoff_ms@,
            r@.attempt == 0,
            r@.due is None,
            !r@.manual,
            !r@.background,
            r@.events.len() == 0,
    {
        let r = SessionRuntime {
            state: ProtocolSessionState::initial(config),
            reconnect_backoff_ms,
            reconnect_attempt: 0,
            reconnect_due_at_ms: None,
            user_initiated_disconnect: false,
            app_in_background: false,
            telemetry: Vec::new(),
            sink,
        };
        assert(r@.events =~= Seq::empty());
        r
    }

    /// The session state.
    pub fn state(&self) -> (r: &ProtocolSessionState)
        ensures
            *r == self@.state,
    {
        &self.state
    }

    /// When the scheduled reconnect is due, if one is.
    pub fn reconnect_due_at_ms(&self) -> (r: Option<i64>)
        ensures
            r == self@.due,
    {
        self.reconnect_due_at_ms
    }

    /// Takes the telemetry recorded so far, oldest first.
    pub fn take_telemetry(&mut self) -> (r: Vec<MeetingTelemetryEvent>)
        ensures
            r@.map_values(|e: MeetingTelemetryEvent| spec_event_view(e)) == old(self)@.events,
            final(self)@ == (RuntimeView { events: Seq::empty(), ..old(self)@ }),
    {
        let mut taken: Vec<MeetingTelemetryEvent> = Vec::new();
        std::mem::swap(&mut taken, &mut self.telemetry);
        assert(self@.events =~= Seq::empty());
        taken
    }

    /// Hands the telemetry recorded so far to a sink, oldest first.
    pub fn flush_telemetry<T: MeetingTelemetrySink>(&mut self, sink: &T)
        ensures
            final(self)@ == (RuntimeView { events: Seq::empty(), ..old(self)@ }),
    {
        let mut taken = self.take_telemetry();
        let mut i: usize = 0;
        while taken.len() > 0
            invariant
                self@ == (RuntimeView { events: Seq::empty(), ..old(self)@ }),
            decreases taken@.len(),
        {
            let event = taken.remove(0);
            sink.record(event);
        }
    }

    fn push_event(
        &mut self,
        category: MeetingTelemetryCategory,
        name: &str,
        attributes: Vec<(&str, String)>,
        now_ms: i64,
    )
        ensures
            final(self)@ == (RuntimeView {
                events: old(self)@.events.push(
                    spec_ev(category, name@, spec_attributes(attributes@), now_ms),
                ),
                ..old(self)@
            }),
    {
        let event = MeetingTelemetryEvent {
            category,
            name: name.to_owned(),
            attributes: map_attributes(attributes),
            at_ms: now_ms,
        };
        self.sink.record(event.clone());
        self.telemetry.push(event);
        assert(self@.events =~= old(self)@.events.push(
            spec_ev(category, name@, spec_attributes(attributes@), now_ms),
        ));
    }

    fn log_plain(&mut self, name: &str, now_ms: i64)
        ensures
            final(self)@ == spec_logged(old(self)@, name@, Map::empty(), now_ms),
    {
        self.push_event(MeetingTelemetryCategory::ConnectionLifecycle, name, Vec::new(), now_ms);
        assert(spec_attributes(Seq::<(&str, String)>::empty()) =~= Map::empty());
    }

    fn log_with(&mut self, name: &str, key: &str, value: String, now_ms: i64)
        ensures
            final(self)@ == spec_logged(old(self)@, name@, map![key@ => value@], now_ms),
    {
        let mut attrs: Vec<(&str, String)> = Vec::new();
        attrs.push((key, value));
        proof {
            lemma_attributes_one(attrs@);
        }
        self.push_event(MeetingTelemetryCategory::ConnectionLifecycle, name, attrs, now_ms);
    }

    fn emit_transition(
        &mut self,
        prev_phase: ConnectionPhase,
        prev_fallback_active: bool,
        prev_error: &Option<SessionError>,
        now_ms: i64,
    )
        ensures
            final(self)@ == (RuntimeView {
                events: old(self)@.events + spec_transition_events(
                    prev_phase,
                    prev_fallback_active,
                    *prev_error,
                    old(self)@.state,
                    now_ms,
                ),
                ..old(self)@
            }),
    {
        let ghost e0 = self@.events;
        let ghost next = self.state;
        if prev_phase != self.state.connection_phase {
            let mut attrs: Vec<(&str, String)> = Vec::new();
            attrs.push(("from", phase_name(prev_phase).to_owned()));
            attrs.push(("to", phase_name(self.state.connection_phase).to_owned()));
            proof {
                lemma_attributes_two(attrs@);
                assert(spec_attributes(attrs@) =~= map![
                    "from"@ => spec_phase_name(prev_phase),
                    "to"@ => spec_phase_name(next.connection_phase),
                ]);
            }
            self.push_event(
                MeetingTelemetryCategory::ConnectionLifecycle,
                "phase_changed",
                attrs,
                now_ms,
            );
        }
        if !prev_fallback_active && self.state.fallback.active {
            let reason = match &self.state.fallback.reason {
                Some(r) => r.clone(),
                None => "unknown".to_owned(),
            };
            let mut attrs: Vec<(&str, String)> = Vec::new();
            attrs.push(("reason", reason));
            proof {
                lemma_attributes_one(attrs@);
            }
            self.push_event(
                MeetingTelemetryCategory::FallbackLifecycle,
                "fallback_activated",
                attrs,
                now_ms,
            );
        }
        if prev_fallback_active && !self.state.fallback.active {
            let mut attrs: Vec<(&str, String)> = Vec::new();
            match self.state.fallback.last_rto_ms {
                Some(rto) => {
                    attrs.push(("rto_ms", signed_decimal_string(rto)));
                },
                None => {},
            }
            proof {
                if attrs@.len() == 1 {
                    lemma_attributes_one(attrs@);
                }
                assert(spec_attributes(attrs@) =~= match next.fallback.last_rto_ms {
                    Some(t) => map!["rto_ms"@ => spec_signed_decimal(t as int)],
                    None => Map::<Seq<char>, Seq<char>>::empty(),
                });
            }
            self.push_event(
                MeetingTelemetryCategory::FallbackLifecycle,
                "fallback_recovered",
                attrs,
                now_ms,
            );
        }
        let changed = !same_error(prev_error, &self.state.last_error);
        let policy_error = match &self.state.last_error {
            Some(e) => match e.category {
                SessionErrorCategory::PolicyFailure => Some(copy_session_error(e)),
                _ => None,
            },
            None => None,
        };
        if changed {
            match policy_error {
                Some(e) => {
                    let mut attrs: Vec<(&str, String)> = Vec::new();
                    attrs.push(("code", e.code.clone()));
                    attrs.push(("message", e.message.clone()));
                    proof {
                        lemma_attributes_two(attrs@);
                        assert(spec_attributes(attrs@) =~= map![
                            "code"@ => e.code@,
                            "message"@ => e.message@,
                        ]);
                    }
                    self.push_event(
                        MeetingTelemetryCategory::PolicyFailure,
                        e.code.as_str(),
                        attrs,
                        now_ms,
                    );
                },
                None => {},
            }
        }
        proof {
            assert(self@.events =~= e0 + spec_transition_events(
                prev_phase,
                prev_fallback_active,
                *prev_error,
                next,
                now_ms,
            ));
        }
    }

    /// Applies an event to the session and records the telemetry of the
    /// change.
    fn apply_event(&mut self, event: ProtocolEvent, now_ms: i64)
        requires
            event is FallbackRecovered ==> spec_rto_fits(old(self)@.state, now_ms),
        ensures
            spec_applied(old(self)@, event, now_ms, final(self)@),
    {
        let prev_phase = self.state.connection_phase;
        let prev_active = self.state.fallback.active;
        let prev_error = match &self.state.last_error {
            Some(e) => Some(copy_session_error(e)),
            None => None,
        };
        let mut state = ProtocolSessionState::initial(MeetingConfig::default());
        std::mem::swap(&mut state, &mut self.state);
        self.state = reduce(state, event, now_ms);
        self.emit_transition(prev_phase, prev_active, &prev_error, now_ms);
    }

    fn request_connect(&mut self, reset_backoff: bool, source: &str, now_ms: i64)
        ensures
            spec_request_connect(old(self)@, reset_backoff, source@, now_ms, final(self)@),
    {
        if self.app_in_background {
            self.log_with("connect_deferred_backgrounded", "source", source.to_owned(), now_ms);
            return;
        }
        self.user_initiated_disconnect = false;
        self.reconnect_due_at_ms = None;
        if reset_backoff {
            self.reconnect_attempt = 0;
        }
        self.log_with("connect_requested", "source", source.to_owned(), now_ms);
        self.apply_event(ProtocolEvent::ConnectRequested, now_ms);
    }

    fn schedule_reconnect_or_fallback(&mut self, trigger: &str, now_ms: i64) -> (d:
        RuntimeDirective)
        ensures
            spec_schedule(old(self)@, trigger@, now_ms, final(self)@, d),
    {
        if self.user_initiated_disconnect || self.state.fallback.active || self.app_in_background {
            return RuntimeDirective::NoAction;
        }
        if self.reconnect_due_at_ms.is_some() {
            return RuntimeDirective::NoAction;
        }
        if self.reconnect_attempt >= self.reconnect_backoff_ms.len() {
            let count = decimal_string(self.reconnect_attempt as u64);
            let mut reason = concat3("Reconnect exhausted after ", count.as_str(), " attempts: ");
            reason.append(trigger);
            let mut state = ProtocolSessionState::initial(MeetingConfig::default());
            std::mem::swap(&mut state, &mut self.state);
            self.state = reduce(
                state,
                ProtocolEvent::FallbackActivated { reason: reason.clone() },
                now_ms,
            );
            return RuntimeDirective::FallbackActivated { reason };
        }
        let configured = self.reconnect_backoff_ms[self.reconnect_attempt];
        let delay_ms: i64 = if configured < 0 {
            0
        } else {
            configured
        };
        self.reconnect_attempt = self.reconnect_attempt + 1;
        let due_at_ms: i64 = if now_ms > i64::MAX - delay_ms {
            i64::MAX
        } else {
            now_ms + delay_ms
        };
        self.reconnect_due_at_ms = Some(due_at_ms);
        let mut attrs: Vec<(&str, String)> = Vec::new();
        attrs.push(("attempt", decimal_string(self.reconnect_attempt as u64)));
        attrs.push(("due_at_ms", signed_decimal_string(due_at_ms)));
        attrs.push(("trigger", trigger.to_owned()));
        proof {
            lemma_attributes_two(attrs@.drop_last());
            reveal_with_fuel(spec_attributes, 1);
            assert(attrs@.drop_last().drop_last() =~= seq![attrs@[0]]);
            assert(spec_attributes(attrs@) =~= map![
                "attempt"@ => spec_decimal(self.reconnect_attempt as nat),
                "due_at_ms"@ => spec_signed_decimal(due_at_ms as int),
                "trigger"@ => trigger@,
            ]);
        }
        self.push_event(
            MeetingTelemetryCategory::ConnectionLifecycle,
            "reconnect_scheduled",
            attrs,
            now_ms,
        );
        RuntimeDirective::ReconnectScheduled { attempt: self.reconnect_attempt, due_at_ms }
    }

    /// The user asks to connect: the reconnect attempts start over.
    pub fn connect_requested(&mut self, now_ms: i64)
        ensures
            spec_request_connect(old(self)@, true, "manual"@, now_ms, final(self)@),
    {
        self.request_connect(true, "manual", now_ms);
    }

    /// The app came to the foreground. Unless the user disconnected, this is
    /// recorded, and a session that is disconnected, degraded or failed asks
    /// to connect again.
    pub fn on_app_foregrounded(&mut self, now_ms: i64)
        ensures
            ({
                let pre = old(self)@;
                let a = spec_logged(
                    RuntimeView { background: false, ..pre },
                    "app_foregrounded"@,
                    Map::empty(),
                    now_ms,
                );
                if pre.manual {
                    final(self)@ == pre
                } else if a.state.connection_phase == ConnectionPhase::Disconnected
                    || a.state.connection_phase == ConnectionPhase::Degraded
                    || a.state.connection_phase == ConnectionPhase::Error {
                    spec_request_connect(a, false, "foreground"@, now_ms, final(self)@)
                } else {
                    final(self)@ == a
                }
            }),
    {
        if self.user_initiated_disconnect {
            return;
        }
        self.app_in_background = false;
        self.log_plain("app_foregrounded", now_ms);
        let phase = self.state.connection_phase;
        match phase {
            ConnectionPhase::Disconnected | ConnectionPhase::Degraded | ConnectionPhase::Error => {
                self.request_connect(false, "foreground", now_ms);
            },
            _ => {},
        }
    }

    /// The app went to the background: any scheduled reconnect is dropped,
    /// this is recorded, and unless the user disconnected, a live or
    /// starting connection is taken down.
    pub fn on_app_backgrounded(&mut self, now_ms: i64)
        ensures
            ({
                let pre = old(self)@;
                let a = spec_logged(
                    RuntimeView { background: true, due: None, ..pre },
                    "app_backgrounded"@,
                    Map::empty(),
                    now_ms,
                );
                if !pre.manual && (a.state.connection_phase == ConnectionPhase::Connected
                    || a.state.connection_phase == ConnectionPhase::Connecting
                    || a.state.connection_phase == ConnectionPhase::Degraded) {
                    spec_disconnected_by(a, "app_backgrounded"@, now_ms, final(self)@)
                } else {
                    final(self)@ == a
                }
            }),
    {
        self.app_in_background = true;
        self.reconnect_due_at_ms = None;
        self.log_plain("app_backgrounded", now_ms);
        if self.user_initiated_disconnect {
            return;
        }
        let phase = self.state.connection_phase;
        match phase {
            ConnectionPhase::Connected | ConnectionPhase::Connecting | ConnectionPhase::Degraded => {
                let reason = "app_backgrounded".to_owned();
                let ghost a = self@;
                self.apply_event(ProtocolEvent::TransportDisconnected { reason }, now_ms);
                assert(spec_applied(
                    a,
                    ProtocolEvent::TransportDisconnected { reason },
                    now_ms,
                    self@,
                ));
            },
            _ => {},
        }
    }

    /// The network came or went. Nothing happens after a manual disconnect.
    /// When it comes back, this is recorded and, in the foreground, a
    /// session that is neither connected, connecting nor on the fallback
    /// asks to connect. When it goes, the transport has failed.
    pub fn on_connectivity_changed(&mut self, available: bool, now_ms: i64)
        ensures
            ({
                let pre = old(self)@;
                if pre.manual {
                    final(self)@ == pre
                } else if available {
                    let a = spec_logged(pre, "network_available"@, Map::empty(), now_ms);
                    if a.background {
                        final(self)@ == spec_logged(
                            a,
                            "connectivity_restore_deferred_backgrounded"@,
                            Map::empty(),
                            now_ms,
                        )
                    } else if a.state.connection_phase != ConnectionPhase::Connected
                        && a.state.connection_phase != ConnectionPhase::Connecting
                        && !a.state.fallback.active {
                        spec_request_connect(a, false, "connectivity_restore"@, now_ms, final(self)@)
                    } else {
                        final(self)@ == a
                    }
                } else {
                    exists|b: RuntimeView, d: RuntimeDirective|
                        spec_failed_by(
                            spec_logged(pre, "network_unavailable"@, Map::empty(), now_ms),
                            "network_unavailable"@,
                            now_ms,
                            b,
                        ) && #[trigger] spec_after_problem(b, "network_unavailable"@, now_ms, final(self)@, d)
                }
            }),
    {
        if self.user_initiated_disconnect {
            return;
        }
        if available {
            self.log_plain("network_available", now_ms);
            if self.app_in_background {
                self.log_plain("connectivity_restore_deferred_backgrounded", now_ms);
                return;
            }
            if self.state.connection_phase != ConnectionPhase::Connected
                && self.state.connection_phase != ConnectionPhase::Connecting
                && !self.state.fallback.active {
                self.request_connect(false, "connectivity_restore", now_ms);
            }
            return;
        }
        self.log_plain("network_unavailable", now_ms);
        let _ = self.fail_and_reschedule("network_unavailable", now_ms);
    }

    fn fail_and_reschedule(&mut self, trigger: &str, now_ms: i64) -> (d: RuntimeDirective)
        ensures
            exists|b: RuntimeView|
                spec_failed_by(old(self)@, trigger@, now_ms, b) && #[trigger] spec_after_problem(
                    b,
                    trigger@,
                    now_ms,
                    final(self)@,
                    d,
                ),
    {
        let message = trigger.to_owned();
        let ghost a = self@;
        self.apply_event(ProtocolEvent::TransportFailure { message }, now_ms);
        let ghost b = self@;
        assert(spec_applied(a, ProtocolEvent::TransportFailure { message }, now_ms, b));
        let d = self.after_problem(trigger, now_ms);
        assert(spec_after_problem(b, trigger@, now_ms, self@, d));
        d
    }

    fn after_problem(&mut self, trigger: &str, now_ms: i64) -> (d: RuntimeDirective)
        ensures
            spec_after_problem(old(self)@, trigger@, now_ms, final(self)@, d),
    {
        if self.app_in_background {
            self.log_with("reconnect_deferred_backgrounded", "trigger", trigger.to_owned(), now_ms);
            return RuntimeDirective::NoAction;
        }
        self.schedule_reconnect_or_fallback(trigger, now_ms)
    }

    /// Audio was interrupted: unless the user disconnected, this is
    /// recorded and the transport has failed.
    pub fn on_audio_interruption_began(&mut self, now_ms: i64)
        ensures
            ({
                let pre = old(self)@;
                if pre.manual {
                    final(self)@ == pre
                } else {
                    exists|b: RuntimeView, d: RuntimeDirective|
                        spec_failed_by(
                            spec_logged(pre, "audio_interruption_began"@, Map::empty(), now_ms),
                            "audio_interruption"@,
                            now_ms,
                            b,
                        ) && #[trigger] spec_after_problem(b, "audio_interruption"@, now_ms, final(self)@, d)
                }
            }),
    {
        if self.user_initiated_disconnect {
            return;
        }
        self.log_plain("audio_interruption_began", now_ms);
        let _ = self.fail_and_reschedule("audio_interruption", now_ms);
    }

    /// The audio interruption ended: unless the user disconnected, this is
    /// recorded, and when asked to, in the foreground and off the fallback,
    /// a session that is neither connected nor connecting asks to connect.
    pub fn on_audio_interruption_ended(&mut self, should_reconnect: bool, now_ms: i64)
        ensures
            ({
                let pre = old(self)@;
                let a = spec_logged(
                    pre,
                    "audio_interruption_ended"@,
                    map![
                        "should_reconnect"@ => if should_reconnect {
                            "true"@
                        } else {
                            "false"@
                        },
                    ],
                    now_ms,
                );
                if pre.manual {
                    final(self)@ == pre
                } else if should_reconnect && !a.background && !a.state.fallback.active
                    && a.state.connection_phase != ConnectionPhase::Connected
                    && a.state.connection_phase != ConnectionPhase::Connecting {
                    spec_request_connect(a, false, "audio_interruption_end"@, now_ms, final(self)@)
                } else {
                    final(self)@ == a
                }
            }),
    {
        if self.user_initiated_disconnect {
            return;
        }
        let flag = if should_reconnect {
            "true".to_owned()
        } else {
            "false".to_owned()
        };
        self.log_with("audio_interruption_ended", "should_reconnect", flag, now_ms);
        if !should_reconnect || self.app_in_background || self.state.fallback.active {
            return;
        }
        if self.state.connection_phase != ConnectionPhase::Connected
            && self.state.connection_phase != ConnectionPhase::Connecting {
            self.request_connect(false, "audio_interruption_end", now_ms);
        }
    }

    /// The audio route changed: this is recorded with its reason.
    pub fn on_audio_route_changed(&mut self, reason: String, now_ms: i64)
        ensures
            final(self)@ == spec_logged(
                old(self)@,
                "audio_route_changed"@,
                map!["reason"@ => reason@],
                now_ms,
            ),
    {
        self.log_with("audio_route_changed", "reason", reason, now_ms);
    }

    /// The transport connected. In the background the connection is taken
    /// down again before the handshake and nothing is sent. Otherwise the
    /// attempts start over, this is recorded, the session moves on, and the
    /// handshake frames are returned.
    pub fn on_transport_connected(&mut self, now_ms: i64) -> (r: Vec<ProtocolFrame>)
        ensures
            ({
                let pre = old(self)@;
                if pre.background {
                    &&& r@.len() == 0
                    &&& spec_disconnected_by(
                        spec_logged(
                            RuntimeView { due: None, ..pre },
                            "transport_connected_while_backgrounded"@,
                            Map::empty(),
                            now_ms,
                        ),
                        "backgrounded_before_handshake"@,
                        now_ms,
                        final(self)@,
                    )
                } else {
                    &&& spec_applied(
                        spec_logged(
                            RuntimeView { manual: false, attempt: 0, due: None, ..pre },
                            "transport_connected"@,
                            Map::empty(),
                            now_ms,
                        ),
                        ProtocolEvent::TransportConnected,
                        now_ms,
                        final(self)@,
                    )
                    &&& spec_handshake_frames(final(self)@.state, now_ms, r@)
                }
            }),
    {
        if self.app_in_background {
            self.reconnect_due_at_ms = None;
            self.log_plain("transport_connected_while_backgrounded", now_ms);
            let reason = "backgrounded_before_handshake".to_owned();
            let ghost a = self@;
            self.apply_event(ProtocolEvent::TransportDisconnected { reason }, now_ms);
            assert(spec_applied(a, ProtocolEvent::TransportDisconnected { reason }, now_ms, self@));
            return Vec::new();
        }
        self.user_initiated_disconnect = false;
        self.reconnect_attempt = 0;
        self.reconnect_due_at_ms = None;
        self.log_plain("transport_connected", now_ms);
        self.apply_event(ProtocolEvent::TransportConnected, now_ms);
        self.handshake_frames(now_ms)
    }

    /// The transport went down: this is recorded with its reason, the
    /// session takes it in, and in the background a note that the reconnect
    /// waits is recorded; otherwise a reconnect or the fallback follows.
    pub fn on_transport_disconnected(&mut self, reason: String, now_ms: i64) -> (d: RuntimeDirective)
        ensures
            exists|b: RuntimeView|
                spec_applied(
                    spec_logged(
                        old(self)@,
                        "transport_disconnected"@,
                        map!["reason"@ => reason@],
                        now_ms,
                    ),
                    ProtocolEvent::TransportDisconnected { reason },
                    now_ms,
                    b,
                ) && #[trigger] spec_after_problem(b, reason@, now_ms, final(self)@, d),
    {
        self.log_with("transport_disconnected", "reason", reason.clone(), now_ms);
        let ghost a = self@;
        self.apply_event(ProtocolEvent::TransportDisconnected { reason: reason.clone() }, now_ms);
        let ghost b = self@;
        let d = self.after_problem(reason.as_str(), now_ms);
        assert(spec_after_problem(b, reason@, now_ms, self@, d));
        d
    }

    /// The transport failed: as a disconnect, with the failure's message.
    pub fn on_transport_failure(&mut self, message: String, now_ms: i64) -> (d: RuntimeDirective)
        ensures
            exists|b: RuntimeView|
                spec_applied(
                    spec_logged(
                        old(self)@,
                        "transport_failure"@,
                        map!["message"@ => message@],
                        now_ms,
                    ),
                    ProtocolEvent::TransportFailure { message },
                    now_ms,
                    b,
                ) && #[trigger] spec_after_problem(b, message@, now_ms, final(self)@, d),
    {
        self.log_with("transport_failure", "message", message.clone(), now_ms);
        self.apply_event(ProtocolEvent::TransportFailure { message: message.clone() }, now_ms);
        let ghost b = self@;
        let d = self.after_problem(message.as_str(), now_ms);
        assert(spec_after_problem(b, message@, now_ms, self@, d));
        d
    }

    /// A frame could not be sent: this is recorded and the session takes it
    /// in.
    pub fn on_send_failure(&mut self, message: String, now_ms: i64)
        ensures
            spec_applied(
                spec_logged(old(self)@, "send_failure"@, map!["message"@ => message@], now_ms),
                ProtocolEvent::FrameSendFailed { message },
                now_ms,
                final(self)@,
            ),
    {
        self.log_with("send_failure", "message", message.clone(), now_ms);
        self.apply_event(ProtocolEvent::FrameSendFailed { message }, now_ms);
    }

    /// The user disconnected: no reconnect is scheduled until they connect
    /// again.
    pub fn on_manual_disconnect(&mut self, now_ms: i64)
        ensures
            spec_applied(
                spec_logged(
                    RuntimeView { manual: true, due: None, ..old(self)@ },
                    "manual_disconnect"@,
                    Map::empty(),
                    now_ms,
                ),
                ProtocolEvent::ManualDisconnected,
                now_ms,
                final(self)@,
            ),
    {
        self.user_initiated_disconnect = true;
        self.reconnect_due_at_ms = None;
        self.log_plain("manual_disconnect", now_ms);
        self.apply_event(ProtocolEvent::ManualDisconnected, now_ms);
    }

    /// A frame arrived: the session takes it in, and the frames to send
    /// back are returned.
    pub fn on_frame(&mut self, frame: ProtocolFrame, now_ms: i64) -> (r: Vec<ProtocolFrame>)
        ensures
            spec_on_frame(old(self)@, frame, now_ms, final(self)@, r@),
    {
        let should_pong = match &frame {
            ProtocolFrame::Ping { .. } => true,
            _ => false,
        };
        let epoch_info: Option<(i32, Option<String>)> = match &frame {
            ProtocolFrame::E2eeKeyEpoch { epoch, signature, .. } => Some(
                (*epoch, copy_opt_text(signature)),
            ),
            _ => None,
        };
        let participant_id = resolved_participant_id(&self.state.config);
        let ghost pre = self@;
        let ghost f = frame;
        self.apply_event(ProtocolEvent::FrameReceived { frame }, now_ms);
        let ghost mid = self@;
        let mut outbound: Vec<ProtocolFrame> = Vec::new();
        if should_pong {
            outbound.push(ProtocolFrame::Pong { sent_at_ms: now_ms });
        }
        match epoch_info {
            Some((epoch, signature)) => {
                let signature_ok = if self.state.config.require_signed_moderation {
                    match &signature {
                        Some(v) => !is_blank(v.as_str()),
                        None => false,
                    }
                } else {
                    true
                };
                if signature_ok && self.state.e2ee_state.current_epoch >= epoch {
                    outbound.push(
                        ProtocolFrame::KeyRotationAck {
                            ack_epoch: epoch,
                            participant_id: participant_id.clone(),
                            sent_at_ms: now_ms,
                        },
                    );
                    let ack = ProtocolFrame::KeyRotationAck {
                        ack_epoch: epoch,
                        participant_id,
                        sent_at_ms: now_ms,
                    };
                    self.apply_event(ProtocolEvent::FrameReceived { frame: ack }, now_ms);
                    assert(outbound@[0] == ack);
                }
            },
            None => {},
        }
        proof {
            assert(spec_applied(pre, ProtocolEvent::FrameReceived { frame: f }, now_ms, mid));
            if should_pong {
                assert(outbound@ =~= seq![ProtocolFrame::Pong { sent_at_ms: now_ms }]);
            }
        }
        outbound
    }

    /// The user leaves the fallback: the attempts start over, this is
    /// recorded, the session leaves the fallback, and it asks to connect.
    pub fn recover_from_fallback(&mut self, now_ms: i64)
        requires
            spec_rto_fits(old(self)@.state, now_ms),
        ensures
            exists|b: RuntimeView|
                spec_applied(
                    spec_logged(
                        RuntimeView { manual: false, attempt: 0, due: None, ..old(self)@ },
                        "fallback_recovery_requested"@,
                        Map::empty(),
                        now_ms,
                    ),
                    ProtocolEvent::FallbackRecovered,
                    now_ms,
                    b,
                ) && #[trigger] spec_request_connect(b, false, "fallback_recovery"@, now_ms, final(self)@),
    {
        self.user_initiated_disconnect = false;
        self.reconnect_attempt = 0;
        self.reconnect_due_at_ms = None;
        self.log_plain("fallback_recovery_requested", now_ms);
        self.apply_event(ProtocolEvent::FallbackRecovered, now_ms);
        let ghost b = self@;
        self.request_connect(false, "fallback_recovery", now_ms);
        assert(spec_request_connect(b, false, "fallback_recovery"@, now_ms, self@));
    }

    /// Starts the scheduled reconnect when it is due, unless the user
    /// disconnected, the fallback is active or the app is in the
    /// background; true when it started.
    pub fn take_reconnect_if_due(&mut self, now_ms: i64) -> (r: bool)
        ensures
            ({
                let pre = old(self)@;
                if pre.due matches Some(due) && now_ms >= due && !pre.manual
                    && !pre.state.fallback.active && !pre.background {
                    &&& r
                    &&& spec_request_connect(
                        spec_logged(
                            RuntimeView { due: None, ..pre },
                            "reconnect_attempt"@,
                            Map::empty(),
                            now_ms,
                        ),
                        false,
                        "reconnect"@,
                        now_ms,
                        final(self)@,
                    )
                } else {
                    !r && final(self)@ == pre
                }
            }),
    {
        let due_at_ms = match self.reconnect_due_at_ms {
            Some(d) => d,
            None => {
                return false;
            },
        };
        if now_ms < due_at_ms || self.user_initiated_disconnect || self.state.fallback.active
            || self.app_in_background {
            return false;
        }
        self.reconnect_due_at_ms = None;
        self.log_plain("reconnect_attempt", now_ms);
        self.request_connect(false, "reconnect", now_ms);
        true
    }

    fn handshake_frames(&self, now_ms: i64) -> (r: Vec<ProtocolFrame>)
        ensures
            spec_handshake_frames(self@.state, now_ms, r@),
    {
        let config = &self.state.config;
        let participant_id = resolved_participant_id(config);
        let preferred_profile = if config.supports_hdr_capture && config.supports_hdr_render {
            MediaProfile::Hdr
        } else {
            MediaProfile::Sdr
        };
        let mut frames: Vec<ProtocolFrame> = Vec::new();
        frames.push(
            ProtocolFrame::Handshake {
                room_id: config.room_id.clone(),
                participant_id: participant_id.clone(),
                participant_name: config.participant_name.clone(),
                wallet_identity: copy_opt_text(&config.wallet_identity),
                resume_token: copy_opt_text(&self.state.resume_token),
                preferred_profile,
                hdr_capture: config.supports_hdr_capture,
                hdr_render: config.supports_hdr_render,
                sent_at_ms: now_ms,
            },
        );
        let mut codecs: Vec<String> = Vec::new();
        codecs.push("h264".to_owned());
        codecs.push("vp9".to_owned());
        proof {
            assert(codecs@.map_values(|c: String| c@) =~= seq!["h264"@, "vp9"@]);
        }
        frames.push(
            ProtocolFrame::DeviceCapability {
                participant_id,
                codecs,
                hdr_capture: config.supports_hdr_capture,
                hdr_render: config.supports_hdr_render,
                max_streams: 4,
                updated_at_ms: now_ms,
            },
        );
        if config.require_payment_settlement {
            frames.push(
                ProtocolFrame::PaymentPolicy {
                    required: true,
                    destination_account: Some("nexus://payment-policy".to_owned()),
                },
            );
        }
        frames
    }
}

/// After the user disconnected, a lost connection schedules no reconnect
/// and does not touch the reconnect progress.
pub proof fn lemma_manual_disconnect_suppresses_reconnect(
    pre: RuntimeView,
    trigger: Seq<char>,
    now_ms: i64,
    post: RuntimeView,
    d: RuntimeDirective,
)
    requires
        pre.manual,
        spec_after_problem(pre, trigger, now_ms, post, d),
    ensures
        d is NoAction,
        post.due == pre.due,
        post.attempt == pre.attempt,
        post.state == pre.state,
{
}

/// In the background a lost connection schedules no reconnect, and a
/// reconnect is never started.
pub proof fn lemma_background_defers_reconnect(
    pre: RuntimeView,
    trigger: Seq<char>,
    now_ms: i64,
    post: RuntimeView,
    d: RuntimeDirective,
)
    requires
        pre.background,
        spec_after_problem(pre, trigger, now_ms, post, d),
    ensures
        d is NoAction,
        post == spec_logged(
            pre,
            "reconnect_deferred_backgrounded"@,
            map!["trigger"@ => trigger],
            now_ms,
        ),
{
}

/// A scheduled reconnect is never due before the time it was scheduled at,
/// and the attempts never go past the number of delays.
pub proof fn lemma_reconnect_schedule_bounds(
    pre: RuntimeView,
    trigger: Seq<char>,
    now_ms: i64,
    post: RuntimeView,
    d: RuntimeDirective,
)
    requires
        pre.attempt <= pre.backoff.len(),
        spec_schedule(pre, trigger, now_ms, post, d),
    ensures
        post.attempt <= post.backoff.len(),
        d matches RuntimeDirective::ReconnectScheduled { attempt, due_at_ms } ==> (due_at_ms
            >= now_ms && attempt == post.attempt && post.due == Some(due_at_ms)),
{
}

/// Once every delay has been used, a lost connection (with the user still
/// connected, in the foreground, off the fallback and with no reconnect
/// pending) activates the fallback.
pub proof fn lemma_exhausted_backoff_activates_fallback(
    pre: RuntimeView,
    trigger: Seq<char>,
    now_ms: i64,
    post: RuntimeView,
    d: RuntimeDirective,
)
    requires
        !pre.manual,
        !pre.background,
        !pre.state.fallback.active,
        pre.due is None,
        pre.attempt >= pre.backoff.len(),
        spec_schedule(pre, trigger, now_ms, post, d),
    ensures
        d is FallbackActivated,
        post.state.fallback.active,
        post.state.connection_phase == ConnectionPhase::FallbackActive,
        post.events == pre.events,
{
}

} // verus!
