//! Moderation requests from hosts and co-hosts: who they reach, what they
//! change in the room, and what the hub sends out afterwards.
use vstd::prelude::*;
use crate::hub::frames::{ModerationAction, ModerationFrame};
use crate::hub::membership::{
    admit_waiting_participant, deny_waiting_participant, spec_admit_outcome, spec_deny_outcome,
    WaitingRoomAdmitOutcome,
};
use crate::hub::roles::validate_moderation_sender_clock;
use crate::hub::room::{
    can_moderate_conn, participant_snapshot_from_state, spec_can_moderate, spec_snapshot,
    ParticipantState, RoomState,
};
use crate::hub::signing::spec_clock_key;
use crate::hub::table::table_layout;
use crate::hub::validate::include_sender_in_all_target;
use crate::text::same_text;
use crate::wire::{ModerationTarget, ParticipantSnapshot};

verus! {

broadcast use vstd::string::group_string_axioms;

/// The connections, in table order, that a room-wide action reaches: all of
/// them, less the sender unless `include_sender`.
pub open spec fn spec_all_targets(keys: Seq<u64>, sender: u64, include_sender: bool) -> Seq<u64>
    decreases keys.len(),
{
    if keys.len() == 0 {
        Seq::empty()
    } else {
        let rest = spec_all_targets(keys.drop_last(), sender, include_sender);
        if include_sender || keys.last() != sender {
            rest.push(keys.last())
        } else {
            rest
        }
    }
}

proof fn lemma_all_targets_in_keys(keys: Seq<u64>, sender: u64, include_sender: bool)
    ensures
        forall|j: int|
            0 <= j < spec_all_targets(keys, sender, include_sender).len() ==> keys.contains(
                #[trigger] spec_all_targets(keys, sender, include_sender)[j],
            ),
    decreases keys.len(),
{
    if keys.len() > 0 {
        let rest = keys.drop_last();
        lemma_all_targets_in_keys(rest, sender, include_sender);
        let t = spec_all_targets(keys, sender, include_sender);
        assert forall|j: int| 0 <= j < t.len() implies keys.contains(#[trigger] t[j]) by {
            let tr = spec_all_targets(rest, sender, include_sender);
            if j < tr.len() {
                assert(t[j] == tr[j]);
                let k = rest.index_of(tr[j]);
                assert(keys[k] == tr[j]);
            } else {
                assert(keys[keys.len() - 1] == t[j]);
            }
        }
    }
}

/// The first connection in table order, from index `i`, whose participant
/// id is `id`, joined or not.
pub open spec fn spec_first_with_id(
    keys: Seq<u64>,
    vals: Seq<ParticipantState>,
    id: Seq<char>,
    i: int,
) -> Option<u64>
    decreases keys.len() - i,
{
    if i < 0 || i >= keys.len() {
        None
    } else if vals[i].participant_id@ == id {
        Some(keys[i])
    } else {
        spec_first_with_id(keys, vals, id, i + 1)
    }
}

proof fn lemma_first_with_id(keys: Seq<u64>, vals: Seq<ParticipantState>, id: Seq<char>, i: int)
    requires
        0 <= i <= keys.len(),
        keys.len() == vals.len(),
    ensures
        spec_first_with_id(keys, vals, id, i) matches Some(c) ==> exists|j: int|
            i <= j < keys.len() && #[trigger] keys[j] == c,
    decreases keys.len() - i,
{
    if i < keys.len() {
        lemma_first_with_id(keys, vals, id, i + 1);
    }
}

/// The connections a moderation request reaches, or why it reaches none.
pub open spec fn spec_moderation_targets(
    room: RoomState,
    sender: u64,
    moderation: ModerationFrame,
) -> Result<Seq<u64>, Seq<char>> {
    match moderation.target {
        ModerationTarget::All => if moderation.action == ModerationAction::AdmitFromWaiting
            || moderation.action == ModerationAction::DenyFromWaiting {
            Err(
                "waiting room admit/deny requires /admit <participant_id> or /deny <participant_id>"@,
            )
        } else {
            Ok(
                spec_all_targets(
                    room.participants.key_seq(),
                    sender,
                    moderation.action == ModerationAction::Kick,
                ),
            )
        },
        ModerationTarget::Participant(id) => match spec_first_with_id(
            room.participants.key_seq(),
            room.participants.val_seq(),
            id@,
            0,
        ) {
            Some(c) => Ok(seq![c]),
            None => Err("unknown participant_id: "@ + id@),
        },
    }
}

fn moderation_targets(room: &RoomState, sender: u64, moderation: &ModerationFrame) -> (r: Result<
    Vec<u64>,
    String,
>)
    ensures
        match (r, spec_moderation_targets(*room, sender, *moderation)) {
            (Ok(v), Ok(s)) => v@ == s,
            (Err(e), Err(s)) => e@ == s,
            _ => false,
        },
        r matches Ok(v) ==> forall|j: int|
            0 <= j < v@.len() ==> room.participants@.contains_key(#[trigger] v@[j]),
{
    let n = room.participants.len();
    let ghost keys = room.participants.key_seq();
    let ghost vals = room.participants.val_seq();
    match &moderation.target {
        ModerationTarget::All => {
            match moderation.action {
                ModerationAction::AdmitFromWaiting | ModerationAction::DenyFromWaiting => {
                    return Err(
                        "waiting room admit/deny requires /admit <participant_id> or /deny <participant_id>".to_owned(),
                    );
                },
                _ => {},
            }
            let with_sender = include_sender_in_all_target(&moderation.action);
            let mut targets: Vec<u64> = Vec::new();
            let mut i: usize = 0;
            while i < n
                invariant
                    i <= n,
                    n == keys.len(),
                    keys == room.participants.key_seq(),
                    targets@ == spec_all_targets(keys.subrange(0, i as int), sender, with_sender),
                decreases n - i,
            {
                let c = room.participants.key_at(i);
                proof {
                    assert(keys.subrange(0, i + 1).drop_last() =~= keys.subrange(0, i as int));
                }
                if with_sender || c != sender {
                    targets.push(c);
                }
                i = i + 1;
            }
            proof {
                assert(keys.subrange(0, n as int) =~= keys);
                lemma_all_targets_in_keys(keys, sender, with_sender);
                assert forall|j: int| 0 <= j < targets@.len() implies room.participants@.contains_key(
                    #[trigger] targets@[j],
                ) by {
                    let k = keys.index_of(targets@[j]);
                    assert(room.participants@.contains_key(keys[k]));
                }
            }
            Ok(targets)
        },
        ModerationTarget::Participant(id) => {
            let mut i: usize = 0;
            while i < n
                invariant
                    i <= n,
                    n == keys.len(),
                    keys == room.participants.key_seq(),
                    vals == room.participants.val_seq(),
                    table_layout(room.participants),
                    moderation.target == ModerationTarget::Participant(*id),
                    spec_first_with_id(keys, vals, id@, 0) == spec_first_with_id(
                        keys,
                        vals,
                        id@,
                        i as int,
                    ),
                decreases n - i,
            {
                let p = room.participants.value_at(i);
                if same_text(p.participant_id.as_str(), id.as_str()) {
                    let c = room.participants.key_at(i);
                    assert(spec_first_with_id(keys, vals, id@, i as int) == Some(keys[i as int]));
                    assert(room.participants@.contains_key(keys[i as int]));
                    let mut v = Vec::new();
                    v.push(c);
                    proof {
                        assert(v@ =~= seq![c]);
                        assert(spec_moderation_targets(*room, sender, *moderation) == Ok::<
                            Seq<u64>,
                            Seq<char>,
                        >(seq![c]));
                    }
                    return Ok(v);
                }
                i = i + 1;
            }
            let mut m = "unknown participant_id: ".to_owned();
            m.append(id.as_str());
            Err(m)
        },
    }
}

/// What a moderation request produced: the error for its sender, the
/// connections to kick, the state snapshots to broadcast, and the
/// waiting-room admissions and denials to announce.
pub struct ModerationOutcome {
    pub error: Option<String>,
    pub kick_targets: Vec<u64>,
    pub snapshots: Vec<ParticipantSnapshot>,
    pub admitted: Vec<WaitingRoomAdmitOutcome>,
    pub denied: Vec<(u64, String)>,
}

/// A participant's state after a disable action: that flag off.
pub open spec fn spec_disabled(p: ParticipantState, action: ModerationAction) -> ParticipantState {
    match action {
        ModerationAction::DisableMic => ParticipantState { mic_enabled: false, ..p },
        ModerationAction::DisableVideo => ParticipantState { video_enabled: false, ..p },
        ModerationAction::DisableScreenShare => ParticipantState { screen_share_enabled: false, ..p },
        _ => p,
    }
}

/// A disable action turns off exactly the media flag it names (mic, video
/// or screen share) and changes nothing else about the participant; any
/// other action leaves the participant as it was.
pub proof fn lemma_disable_turns_off_only_its_flag(p: ParticipantState, action: ModerationAction)
    ensures
        spec_disabled(p, action).mic_enabled == (p.mic_enabled && action != ModerationAction::DisableMic),
        spec_disabled(p, action).video_enabled == (p.video_enabled && action
            != ModerationAction::DisableVideo),
        spec_disabled(p, action).screen_share_enabled == (p.screen_share_enabled && action
            != ModerationAction::DisableScreenShare),
        spec_disabled(p, action) == (ParticipantState {
            mic_enabled: spec_disabled(p, action).mic_enabled,
            video_enabled: spec_disabled(p, action).video_enabled,
            screen_share_enabled: spec_disabled(p, action).screen_share_enabled,
            ..p
        }),
{
}

/// Why a moderation request is refused before it reaches anyone: the room
/// is anonymous, the sender has not joined or does not moderate, or its
/// `moderation` clock refuses the request's time.
pub open spec fn spec_moderation_refusal(room: RoomState, sender: u64, moderation: ModerationFrame) -> Option<
    Seq<char>,
> {
    let ps = room.participants@;
    if room.anonymous_mode {
        Some("anonymous mode requires encrypted moderation payloads"@)
    } else if !ps.contains_key(sender) {
        None
    } else if !ps[sender].hello_seen {
        Some("send Hello first"@)
    } else if !spec_can_moderate(room, sender) {
        Some("host/co-host only"@)
    } else {
        None
    }
}

/// Only the host and the co-hosts moderate: in a transparent room, a
/// moderation request from a joined connection that is neither the room's
/// host nor one of its co-hosts is refused with "host/co-host only"; one
/// from the host or a co-host passes this check.
pub proof fn lemma_only_host_or_co_host_moderates(room: RoomState, sender: u64, moderation: ModerationFrame)
    requires
        !room.anonymous_mode,
        room.participants@.contains_key(sender),
        room.participants@[sender].hello_seen,
    ensures
        room.host_conn_id != Some(sender) && !room.co_host_conn_ids@.contains(sender) ==> spec_moderation_refusal(
            room,
            sender,
            moderation,
        ) == Some("host/co-host only"@),
        room.host_conn_id == Some(sender) || room.co_host_conn_ids@.contains(sender) ==> spec_moderation_refusal(
            room,
            sender,
            moderation,
        ) is None,
{
}

fn empty_outcome(error: Option<String>) -> (out: ModerationOutcome)
    ensures
        out.error == error,
        out.kick_targets@.len() == 0,
        out.snapshots@.len() == 0,
        out.admitted@.len() == 0,
        out.denied@.len() == 0,
{
    ModerationOutcome {
        error,
        kick_targets: Vec::new(),
        snapshots: Vec::new(),
        admitted: Vec::new(),
        denied: Vec::new(),
    }
}

fn disable_targets(
    room: &mut RoomState,
    targets: &Vec<u64>,
    action: ModerationAction,
    at_ms: u64,
) -> (snapshots: Vec<ParticipantSnapshot>)
    requires
        forall|j: int|
            0 <= j < targets@.len() ==> old(room).participants@.contains_key(#[trigger] targets@[j]),
    ensures
        final(room).participants@.dom() == old(room).participants@.dom(),
        forall|c: u64| #[trigger]
            final(room).participants@.contains_key(c) ==> final(room).participants@[c] == if targets@.contains(
                c,
            ) {
                spec_disabled(old(room).participants@[c], action)
            } else {
                old(room).participants@[c]
            },
        snapshots@.len() == targets@.len(),
        forall|j: int|
            0 <= j < targets@.len() ==> #[trigger] snapshots@[j] == spec_snapshot(
                final(room).participants@[targets@[j]],
                at_ms,
            ),
        *final(room) == (RoomState { participants: final(room).participants, ..*old(room) }),
{
    let ghost ps0 = room.participants@;
    let mut snapshots: Vec<ParticipantSnapshot> = Vec::new();
    let mut i: usize = 0;
    while i < targets.len()
        invariant
            i <= targets@.len(),
            forall|j: int| 0 <= j < targets@.len() ==> ps0.contains_key(#[trigger] targets@[j]),
            room.participants@.dom() == ps0.dom(),
            forall|c: u64| #[trigger]
                room.participants@.contains_key(c) ==> room.participants@[c] == if targets@.subrange(
                    0,
                    i as int,
                ).contains(c) {
                    spec_disabled(ps0[c], action)
                } else {
                    ps0[c]
                },
            snapshots@.len() == i,
            forall|j: int|
                0 <= j < i ==> #[trigger] snapshots@[j] == spec_snapshot(
                    spec_disabled(ps0[targets@[j]], action),
                    at_ms,
                ),
            *room == (RoomState { participants: room.participants, ..*old(room) }),
        decreases targets@.len() - i,
    {
        let c = targets[i];
        let ghost before = room.participants@;
        let mut st = match room.participants.get(&c) {
            Some(p) => p.copy(),
            None => {
                proof {
                    assert(ps0.contains_key(targets@[i as int]));
                }
                i = i + 1;
                continue;
            },
        };
        match action {
            ModerationAction::DisableMic => {
                st.mic_enabled = false;
            },
            ModerationAction::DisableVideo => {
                st.video_enabled = false;
            },
            ModerationAction::DisableScreenShare => {
                st.screen_share_enabled = false;
            },
            _ => {},
        }
        proof {
            if targets@.subrange(0, i as int).contains(c) {
                let k = targets@.subrange(0, i as int).index_of(c);
                assert(targets@.subrange(0, i as int)[k] == c);
            }
            assert(st == spec_disabled(ps0[c], action));
        }
        snapshots.push(participant_snapshot_from_state(&st, at_ms));
        room.participants.insert(c, st);
        proof {
            assert forall|x: u64|
                targets@.subrange(0, i + 1).contains(x) == (targets@.subrange(0, i as int).contains(
                    x,
                ) || x == c) by {
                if targets@.subrange(0, i + 1).contains(x) {
                    let k = targets@.subrange(0, i + 1).index_of(x);
                    if k < i {
                        assert(targets@.subrange(0, i as int)[k] == x);
                    }
                }
                if targets@.subrange(0, i as int).contains(x) {
                    let k = targets@.subrange(0, i as int).index_of(x);
                    assert(targets@.subrange(0, i + 1)[k] == x);
                }
                if x == c {
                    assert(targets@.subrange(0, i + 1)[i as int] == x);
                }
            }
            assert(room.participants@.dom() =~= ps0.dom());
        }
        i = i + 1;
    }
    proof {
        assert(targets@.subrange(0, targets@.len() as int) =~= targets@);
        assert forall|j: int| 0 <= j < targets@.len() implies #[trigger] snapshots@[j]
            == spec_snapshot(room.participants@[targets@[j]], at_ms) by {
            assert(targets@.contains(targets@[j]));
        }
    }
    snapshots
}

/// Applies a moderation request from `sender` at `at_ms`. Refused, with
/// the room unchanged, when the room is anonymous, the sender has not
/// joined or does not moderate, or the sender's `moderation` clock refuses
/// it; an unknown sender gets no answer. Once the clock accepts it, the
/// request reaches either every connection (less the sender, unless it is a
/// kick; waiting-room decisions cannot go to everyone) or the first
/// connection with the named participant id. Kicks only list their targets;
/// disable actions turn that flag off on each target and snapshot it;
/// admit and deny act as the waiting-room decisions do.
pub fn apply_moderation(
    room: &mut RoomState,
    sender: u64,
    moderation: &ModerationFrame,
    at_ms: u64,
) -> (out: ModerationOutcome)
    ensures
        spec_moderation_refusal(*old(room), sender, *moderation) matches Some(e) ==> (out.error
            matches Some(m) && m@ == e && *final(room) == *old(room)),
        !old(room).anonymous_mode && !old(room).participants@.contains_key(sender) ==> (out.error
            is None && out.kick_targets@.len() == 0 && out.snapshots@.len() == 0
            && out.admitted@.len() == 0 && out.denied@.len() == 0 && *final(room) == *old(room)),
        spec_moderation_refusal(*old(room), sender, *moderation) is None
            && old(room).participants@.contains_key(sender) ==> ({
            let signer = old(room).participants@[sender].participant_id@;
            let key = spec_clock_key("moderation"@, signer);
            let clock = old(room).signed_action_clock_by_signer@;
            let clocked = crate::hub::room::spec_clock_accepts(clock, key, moderation.sent_at_ms);
            &&& !clocked ==> (out.error matches Some(m) && m@ == crate::hub::room::spec_clock_error(
                clock,
                "moderation"@,
                signer,
                "sent_at_ms"@,
                moderation.sent_at_ms,
            ) && *final(room) == *old(room))
            &&& clocked ==> final(room).signed_action_clock_by_signer@ == clock.insert(
                key,
                moderation.sent_at_ms,
            )
            &&& clocked ==> match spec_moderation_targets(*old(room), sender, *moderation) {
                Err(e) => out.error matches Some(m) && m@ == e && *final(room) == (RoomState {
                    signed_action_clock_by_signer: final(room).signed_action_clock_by_signer,
                    ..*old(room)
                }),
                Ok(targets) => {
                    &&& moderation.action == ModerationAction::Kick ==> (out.error is None
                        && out.kick_targets@ == targets && out.snapshots@.len() == 0 && *final(room)
                        == (RoomState {
                        signed_action_clock_by_signer: final(room).signed_action_clock_by_signer,
                        ..*old(room)
                    }))
                    &&& (moderation.action == ModerationAction::DisableMic || moderation.action
                        == ModerationAction::DisableVideo || moderation.action
                        == ModerationAction::DisableScreenShare) ==> {
                        &&& out.error is None
                        &&& out.kick_targets@.len() == 0
                        &&& final(room).participants@.dom() == old(room).participants@.dom()
                        &&& forall|c: u64| #[trigger]
                            final(room).participants@.contains_key(c)
                                ==> final(room).participants@[c] == if targets.contains(c) {
                                spec_disabled(old(room).participants@[c], moderation.action)
                            } else {
                                old(room).participants@[c]
                            }
                        &&& out.snapshots@.len() == targets.len()
                        &&& forall|j: int|
                            0 <= j < targets.len() ==> #[trigger] out.snapshots@[j] == spec_snapshot(
                                final(room).participants@[targets[j]],
                                at_ms,
                            )
                        &&& *final(room) == (RoomState {
                            participants: final(room).participants,
                            signed_action_clock_by_signer: final(room).signed_action_clock_by_signer,
                            ..*old(room)
                        })
                    }
                    &&& moderation.action == ModerationAction::AdmitFromWaiting ==> {
                        let pre = RoomState {
                            signed_action_clock_by_signer: final(room).signed_action_clock_by_signer,
                            ..*old(room)
                        };
                        &&& targets.len() == 1
                        &&& out.kick_targets@.len() == 0 && out.snapshots@.len() == 0
                        &&& out.denied@.len() == 0
                        &&& (out.admitted@.len() == 1 && out.error is None && spec_admit_outcome(
                            pre,
                            targets[0],
                            at_ms,
                            *final(room),
                            Ok(out.admitted@[0]),
                        )) || (out.admitted@.len() == 0 && (out.error matches Some(e)
                            && spec_admit_outcome(pre, targets[0], at_ms, *final(room), Err(e))))
                    }
                    &&& moderation.action == ModerationAction::DenyFromWaiting ==> {
                        let pre = RoomState {
                            signed_action_clock_by_signer: final(room).signed_action_clock_by_signer,
                            ..*old(room)
                        };
                        &&& targets.len() == 1
                        &&& out.kick_targets@.len() == 0 && out.snapshots@.len() == 0
                        &&& out.admitted@.len() == 0
                        &&& (out.denied@.len() == 1 && out.error is None && out.denied@[0].0
                            == targets[0] && spec_deny_outcome(
                            pre,
                            targets[0],
                            *final(room),
                            Ok(out.denied@[0].1),
                        )) || (out.denied@.len() == 0 && (out.error matches Some(e)
                            && spec_deny_outcome(pre, targets[0], *final(room), Err(e))))
                    }
                },
            }
        }),
{
    if room.anonymous_mode {
        return empty_outcome(Some("anonymous mode requires encrypted moderation payloads".to_owned()));
    }
    let hello_seen = match room.participants.get(&sender) {
        Some(p) => p.hello_seen,
        None => {
            return empty_outcome(None);
        },
    };
    if !hello_seen {
        return empty_outcome(Some("send Hello first".to_owned()));
    }
    if !can_moderate_conn(room, sender) {
        return empty_outcome(Some("host/co-host only".to_owned()));
    }
    match validate_moderation_sender_clock(room, sender, moderation) {
        Ok(()) => {},
        Err(e) => {
            return empty_outcome(Some(e));
        },
    }
    let ghost clocked_room = *room;
    assert(clocked_room.participants@ == old(room).participants@);
    assert(clocked_room.participants.key_seq() == old(room).participants.key_seq());
    let targets = match moderation_targets(room, sender, moderation) {
        Ok(t) => t,
        Err(e) => {
            return empty_outcome(Some(e));
        },
    };
    assert(spec_moderation_targets(*room, sender, *moderation) == spec_moderation_targets(
        *old(room),
        sender,
        *moderation,
    ));
    match moderation.action {
        ModerationAction::Kick => {
            ModerationOutcome {
                error: None,
                kick_targets: targets,
                snapshots: Vec::new(),
                admitted: Vec::new(),
                denied: Vec::new(),
            }
        },
        ModerationAction::DisableMic | ModerationAction::DisableVideo
        | ModerationAction::DisableScreenShare => {
            let snapshots = disable_targets(room, &targets, moderation.action, at_ms);
            ModerationOutcome {
                error: None,
                kick_targets: Vec::new(),
                snapshots,
                admitted: Vec::new(),
                denied: Vec::new(),
            }
        },
        ModerationAction::AdmitFromWaiting => {
            let mut out = empty_outcome(None);
            match admit_waiting_participant(room, targets[0], at_ms) {
                Ok(o) => {
                    out.admitted.push(o);
                },
                Err(e) => {
                    out.error = Some(e);
                },
            }
            proof {
                if out.admitted@.len() == 1 {
                    assert(out.admitted@ =~= seq![out.admitted@[0]]);
                }
            }
            out
        },
        ModerationAction::DenyFromWaiting => {
            let mut out = empty_outcome(None);
            match deny_waiting_participant(room, targets[0]) {
                Ok(id) => {
                    out.denied.push((targets[0], id));
                },
                Err(e) => {
                    out.error = Some(e);
                },
            }
            out
        },
    }
}

} // verus!
