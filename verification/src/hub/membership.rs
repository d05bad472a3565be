//! Who may join a room, the waiting room's admit and deny decisions, and
//! what a closed connection leaves behind.
use vstd::prelude::*;
use crate::hub::frames::ParticipantPresenceDeltaFrame;
use crate::hub::room::{
    conn_or_participant_can_moderate, participant_snapshot_from_state,
    restore_reserved_roles_on_join, spec_active_co_hosts, spec_conn_or_participant_can_moderate,
    spec_restore_changed, spec_restored_host, spec_snapshot, sync_active_co_host_bindings,
    ParticipantState, RoomState,
};
use crate::hub::table::{count_entries, keys_where, lemma_count_entries_matches_map, table_layout, ConnTable};
use crate::hub::validate::participant_id_is_guest;
use crate::text::{push_decimal, same_text, spec_contains_char, spec_decimal};
use crate::wire::{ParticipantLeftFrame, ParticipantSnapshot};

verus! {

broadcast use vstd::string::group_string_axioms;

/// How many of the states have joined (seen a hello).
pub open spec fn spec_joined_count(s: Seq<ParticipantState>) -> nat
    decreases s.len(),
{
    if s.len() == 0 {
        0
    } else {
        spec_joined_count(s.drop_last()) + if s.last().hello_seen {
            1nat
        } else {
            0nat
        }
    }
}

/// An entry of a joined connection.
pub open spec fn joined_entry() -> spec_fn(u64, ParticipantState) -> bool {
    |c: u64, p: ParticipantState| p.hello_seen
}

proof fn lemma_joined_count_by_entries(keys: Seq<u64>, vals: Seq<ParticipantState>)
    requires
        keys.len() == vals.len(),
    ensures
        spec_joined_count(vals) == count_entries(keys, vals, joined_entry()),
    decreases vals.len(),
{
    if vals.len() > 0 {
        lemma_joined_count_by_entries(keys.drop_last(), vals.drop_last());
    }
}

/// A room's joined count, taken over its table in order, is the number of
/// connections in its participant map that have sent their hello.
pub proof fn lemma_joined_count_counts_joined_connections(room: RoomState)
    requires
        table_layout(room.participants),
    ensures
        spec_joined_count(room.participants.val_seq()) == room.participants@.dom().filter(
            |c: u64| room.participants@[c].hello_seen,
        ).len(),
{
    lemma_joined_count_by_entries(room.participants.key_seq(), room.participants.val_seq());
    lemma_count_entries_matches_map(room.participants, joined_entry());
    assert(keys_where(room.participants@, joined_entry()) =~= room.participants@.dom().filter(
        |c: u64| room.participants@[c].hello_seen,
    ));
}

/// The number of joined connections in a room.
pub fn joined_count(room: &RoomState) -> (r: usize)
    ensures
        r == spec_joined_count(room.participants.val_seq()),
{
    let n = room.participants.len();
    let mut count: usize = 0;
    let mut i: usize = 0;
    while i < n
        invariant
            i <= n,
            n == room.participants.val_seq().len(),
            n == room.participants.key_seq().len(),
            count <= i,
            count == spec_joined_count(room.participants.val_seq().subrange(0, i as int)),
        decreases n - i,
    {
        let p = room.participants.value_at(i);
        proof {
            let vals = room.participants.val_seq();
            assert(vals.subrange(0, i + 1).drop_last() =~= vals.subrange(0, i as int));
        }
        if p.hello_seen {
            count = count + 1;
        }
        i = i + 1;
    }
    proof {
        assert(room.participants.val_seq().subrange(0, n as int) =~= room.participants.val_seq());
    }
    count
}

/// Another connection that has joined or waits for admission already uses
/// the participant id.
pub open spec fn spec_id_taken_by_other(
    participants: Map<u64, ParticipantState>,
    conn_id: u64,
    participant_id: Seq<char>,
) -> bool {
    exists|c: u64|
        c != conn_id && #[trigger] participants.contains_key(c) && (participants[c].hello_seen
            || participants[c].waiting_room_pending) && participants[c].participant_id@
            == participant_id
}

fn id_taken_by_other(room: &RoomState, conn_id: u64, participant_id: &str) -> (r: bool)
    ensures
        r == spec_id_taken_by_other(room.participants@, conn_id, participant_id@),
{
    let n = room.participants.len();
    let mut i: usize = 0;
    while i < n
        invariant
            i <= n,
            n == room.participants.key_seq().len(),
            table_layout(room.participants),
            forall|j: int|
                0 <= j < i ==> !(room.participants.key_seq()[j] != conn_id && ((
                #[trigger] room.participants.val_seq()[j]).hello_seen
                    || room.participants.val_seq()[j].waiting_room_pending)
                    && room.participants.val_seq()[j].participant_id@ == participant_id@),
        decreases n - i,
    {
        let c = room.participants.key_at(i);
        let p = room.participants.value_at(i);
        if c != conn_id && (p.hello_seen || p.waiting_room_pending) && same_text(
            p.participant_id.as_str(),
            participant_id,
        ) {
            assert(room.participants@[room.participants.key_seq()[i as int]]
                == room.participants.val_seq()[i as int]);
            return true;
        }
        i = i + 1;
    }
    proof {
        assert forall|c: u64|
            c != conn_id && #[trigger] room.participants@.contains_key(c) implies !((
            room.participants@[c].hello_seen || room.participants@[c].waiting_room_pending)
            && room.participants@[c].participant_id@ == participant_id@) by {
            let j = room.participants.key_seq().index_of(c);
            assert(room.participants@[room.participants.key_seq()[j]]
                == room.participants.val_seq()[j]);
        }
    }
    false
}

/// Why a connection may not join (or re-join) as `participant_id`, checked
/// in this order: a joined connection keeps its id, ids are unique among
/// joined and waiting connections, a locked room admits only moderators, a
/// room without guests admits only accounts or moderators, and a full room
/// admits no one new.
pub open spec fn spec_join_error(room: RoomState, conn_id: u64, participant_id: Seq<char>) -> Option<
    Seq<char>,
> {
    let ps = room.participants@;
    let already_joined = ps.contains_key(conn_id) && ps[conn_id].hello_seen;
    let can_moderate = spec_conn_or_participant_can_moderate(room, conn_id, participant_id);
    if already_joined && ps[conn_id].participant_id@ != participant_id {
        Some("participant_id cannot change after Hello"@)
    } else if spec_id_taken_by_other(ps, conn_id, participant_id) {
        Some("participant_id already in use: "@ + participant_id)
    } else if room.room_lock && room.host_conn_id is Some && !can_moderate {
        Some("room is locked"@)
    } else if !already_joined && !room.guest_join_allowed && !spec_contains_char(
        participant_id,
        '@',
    ) && room.host_conn_id is Some && !can_moderate {
        Some("guest participants are not allowed by room policy"@)
    } else if !already_joined && spec_joined_count(room.participants.val_seq())
        >= room.max_participants {
        Some("room is full: max_participants="@ + spec_decimal(room.max_participants as nat))
    } else {
        None
    }
}

/// The join rules: a connection may join (or re-join) as `participant_id`
/// exactly when a joined connection keeps its participant id, no other
/// joined or waiting connection uses that id, a locked room with a host
/// admits it only when it moderates, a room that refuses guests admits a
/// new id without `@` only when it has no host or the connection
/// moderates, and a new connection finds fewer joined connections in the
/// room than its participant cap.
pub proof fn lemma_join_rules(room: RoomState, conn_id: u64, participant_id: Seq<char>)
    requires
        table_layout(room.participants),
    ensures
        ({
            let ps = room.participants@;
            let already_joined = ps.contains_key(conn_id) && ps[conn_id].hello_seen;
            let moderates = spec_conn_or_participant_can_moderate(room, conn_id, participant_id);
            spec_join_error(room, conn_id, participant_id) is None <==> {
                &&& already_joined ==> ps[conn_id].participant_id@ == participant_id
                &&& forall|c: u64|
                    c != conn_id && #[trigger] ps.contains_key(c) && (ps[c].hello_seen
                        || ps[c].waiting_room_pending) ==> ps[c].participant_id@ != participant_id
                &&& room.room_lock && room.host_conn_id is Some ==> moderates
                &&& !already_joined && !room.guest_join_allowed && !(exists|i: int|
                    0 <= i < participant_id.len() && participant_id[i] == '@')
                    && room.host_conn_id is Some ==> moderates
                &&& !already_joined ==> ps.dom().filter(|c: u64| ps[c].hello_seen).len()
                    < room.max_participants
            }
        }),
{
    lemma_joined_count_counts_joined_connections(room);
}

/// Decides whether a connection may join as `participant_id`.
pub fn validate_join_allowed(room: &RoomState, conn_id: u64, participant_id: &str) -> (r: Option<
    String,
>)
    ensures
        crate::text::opt_text(r) == spec_join_error(*room, conn_id, participant_id@),
{
    let (present, joined_as_other, already_joined) = match room.participants.get(&conn_id) {
        Some(p) => (
            true,
            p.hello_seen && !same_text(p.participant_id.as_str(), participant_id),
            p.hello_seen,
        ),
        None => (false, false, false),
    };
    if joined_as_other {
        return Some("participant_id cannot change after Hello".to_owned());
    }
    if id_taken_by_other(room, conn_id, participant_id) {
        let mut m = "participant_id already in use: ".to_owned();
        m.append(participant_id);
        return Some(m);
    }
    let can_moderate = conn_or_participant_can_moderate(room, conn_id, participant_id);
    if room.room_lock && room.host_conn_id.is_some() && !can_moderate {
        return Some("room is locked".to_owned());
    }
    if !already_joined && !room.guest_join_allowed && participant_id_is_guest(participant_id)
        && room.host_conn_id.is_some() && !can_moderate {
        return Some("guest participants are not allowed by room policy".to_owned());
    }
    if !already_joined {
        let active = joined_count(room);
        if active as u64 >= room.max_participants as u64 {
            let mut m = "room is full: max_participants=".to_owned();
            push_decimal(&mut m, room.max_participants as u64);
            return Some(m);
        }
    }
    None
}

/// What admitting a waiting connection produces: its snapshot and the
/// presence delta that announces it.
#[derive(Clone, Debug)]
pub struct WaitingRoomAdmitOutcome {
    pub conn_id: u64,
    pub snapshot: ParticipantSnapshot,
    pub presence_delta: ParticipantPresenceDeltaFrame,
}

/// A waiting participant's state once admitted: joined, no longer pending,
/// all media off.
pub open spec fn spec_admitted(p: ParticipantState) -> ParticipantState {
    ParticipantState {
        waiting_room_pending: false,
        hello_seen: true,
        mic_enabled: false,
        video_enabled: false,
        screen_share_enabled: false,
        ..p
    }
}

/// An admitted participant has joined and is no longer waiting, starts
/// with mic, video and screen share off, and keeps its identity and billing
/// state.
pub proof fn lemma_admission_joins_with_media_off(p: ParticipantState)
    ensures
        spec_admitted(p).hello_seen,
        !spec_admitted(p).waiting_room_pending,
        !spec_admitted(p).mic_enabled && !spec_admitted(p).video_enabled
            && !spec_admitted(p).screen_share_enabled,
        spec_admitted(p) == (ParticipantState {
            hello_seen: spec_admitted(p).hello_seen,
            waiting_room_pending: spec_admitted(p).waiting_room_pending,
            mic_enabled: spec_admitted(p).mic_enabled,
            video_enabled: spec_admitted(p).video_enabled,
            screen_share_enabled: spec_admitted(p).screen_share_enabled,
            ..p
        }),
{
}

/// One more, saturating at `u64::MAX`.
pub open spec fn spec_bump(n: u64) -> u64 {
    if n < u64::MAX {
        (n + 1) as u64
    } else {
        n
    }
}

pub fn bump(n: u64) -> (r: u64)
    ensures
        r == spec_bump(n),
{
    if n < u64::MAX {
        n + 1
    } else {
        n
    }
}

/// What admitting `target` from the waiting room of `pre` at `at_ms` gives:
/// the room `post` and the result `r`.
pub open spec fn spec_admit_outcome(pre: RoomState, target: u64, at_ms: u64, post: RoomState, r: Result<WaitingRoomAdmitOutcome, String>) -> bool {
    &&& (!pre.participants@.contains_key(target) ==> (r matches Err(e) && e@
            == "participant missing"@ && post == pre))
    &&& (pre.participants@.contains_key(target)
            && !pre.participants@[target].waiting_room_pending ==> (r matches Err(e)
            && e@ == "participant_id is not waiting: "@ + pre.participants@[target].participant_id@ && post == pre))
    &&& (pre.participants@.contains_key(target)
            && pre.participants@[target].waiting_room_pending ==> ({
            let joined = spec_admitted(pre.participants@[target]);
            let pid = joined.participant_id@;
            let participants = pre.participants@.insert(target, joined);
            let host = spec_restored_host(
                pre.host_role_owner,
                pre.host_conn_id,
                target,
                pid,
            );
            let changed = spec_restore_changed(
                participants,
                pre.host_role_owner,
                pre.host_conn_id,
                pre.co_host_conn_ids@,
                pre.co_host_role_owners@,
                target,
                pid,
            );
            &&& post.participants@ == participants
            &&& post.e2ee_epochs@ == if pre.e2ee_epochs@.contains_key(target) {
                pre.e2ee_epochs@
            } else {
                pre.e2ee_epochs@.insert(target, 0)
            }
            &&& post.host_conn_id == host
            &&& post.co_host_conn_ids@ == spec_active_co_hosts(
                participants,
                host,
                pre.co_host_role_owners@,
            )
            &&& post.permissions_epoch == if changed {
                spec_bump(pre.permissions_epoch)
            } else {
                pre.permissions_epoch
            }
            &&& post.presence_sequence == spec_bump(pre.presence_sequence)
            &&& post == (RoomState {
                participants: post.participants,
                e2ee_epochs: post.e2ee_epochs,
                host_conn_id: host,
                co_host_conn_ids: post.co_host_conn_ids,
                permissions_epoch: post.permissions_epoch,
                presence_sequence: post.presence_sequence,
                ..pre
            })
            &&& r matches Ok(out) && out.conn_id == target && out.snapshot == spec_snapshot(
                joined,
                at_ms,
            ) && out.presence_delta.at_ms == at_ms && out.presence_delta.sequence
                == post.presence_sequence && out.presence_delta.joined@ == seq![
                spec_snapshot(joined, at_ms),
            ] && out.presence_delta.left@.len() == 0 && out.presence_delta.role_changes@.len() == 0
        }))
}

/// Admits a connection from the waiting room: it joins with all media off,
/// gets a key-epoch slot, takes back the roles its participant id owns, and
/// the room's presence sequence moves on; the permissions epoch moves on
/// when a role binding changed. Refused for an unknown connection or one
/// that is not waiting, leaving the room as it was.
pub fn admit_waiting_participant(room: &mut RoomState, target_conn_id: u64, at_ms: u64) -> (r:
    Result<WaitingRoomAdmitOutcome, String>)
    ensures
        spec_admit_outcome(*old(room), target_conn_id, at_ms, *final(room), r),
{
    let mut joined = match room.participants.get(&target_conn_id) {
        Some(p) => p.copy(),
        None => {
            return Err("participant missing".to_owned());
        },
    };
    if !joined.waiting_room_pending {
        let mut m = "participant_id is not waiting: ".to_owned();
        m.append(joined.participant_id.as_str());
        return Err(m);
    }
    joined.waiting_room_pending = false;
    joined.hello_seen = true;
    joined.mic_enabled = false;
    joined.video_enabled = false;
    joined.screen_share_enabled = false;
    let snapshot = participant_snapshot_from_state(&joined, at_ms);
    let announced = participant_snapshot_from_state(&joined, at_ms);
    let pid = joined.participant_id.clone();
    room.participants.insert(target_conn_id, joined);
    if !room.e2ee_epochs.contains_key(&target_conn_id) {
        room.e2ee_epochs.insert(target_conn_id, 0);
    }
    if restore_reserved_roles_on_join(room, target_conn_id, pid.as_str()) {
        room.permissions_epoch = bump(room.permissions_epoch);
    }
    room.presence_sequence = bump(room.presence_sequence);
    let out = WaitingRoomAdmitOutcome {
        conn_id: target_conn_id,
        snapshot,
        presence_delta: ParticipantPresenceDeltaFrame {
            at_ms,
            sequence: room.presence_sequence,
            joined: vec![announced],
            left: Vec::new(),
            role_changes: Vec::new(),
        },
    };
    assert(out.presence_delta.joined@ =~= seq![announced]);
    Ok(out)
}

/// The smallest connection id of a table, if any.
pub open spec fn spec_min_conn<V>(m: Map<u64, V>) -> Option<u64> {
    if exists|k: u64| m.contains_key(k) {
        Some(choose|k: u64| m.contains_key(k) && forall|j: u64| #[trigger] m.contains_key(j) ==> k <= j)
    } else {
        None
    }
}

proof fn lemma_min_conn<V>(m: Map<u64, V>, r: Option<u64>)
    requires
        match r {
            Some(k) => m.contains_key(k) && forall|j: u64| #[trigger] m.contains_key(j) ==> k <= j,
            None => m.dom() == Set::<u64>::empty(),
        },
    ensures
        r == spec_min_conn(m),
{
    match r {
        Some(k) => {
            let c = choose|c: u64| m.contains_key(c) && forall|j: u64| #[trigger] m.contains_key(j) ==> c <= j;
            assert(m.contains_key(k) && forall|j: u64| #[trigger] m.contains_key(j) ==> k <= j);
            assert(c <= k && k <= c);
        },
        None => {
            assert forall|k: u64| !m.contains_key(k) by {
                assert(!m.dom().contains(k));
            }
        },
    }
}

pub fn min_conn<V>(t: &ConnTable<V>) -> (r: Option<u64>)
    ensures
        r == spec_min_conn(t@),
{
    let r = t.min_key();
    proof {
        lemma_min_conn(t@, r);
    }
    r
}

/// What denying `target` from the waiting room of `pre` gives: the room
/// `post` and the result `r`.
pub open spec fn spec_deny_outcome(pre: RoomState, target: u64, post: RoomState, r: Result<String, String>) -> bool {
    &&& (!pre.participants@.contains_key(target) ==> (r matches Err(e) && e@
            == "participant missing"@ && post == pre))
    &&& (pre.participants@.contains_key(target)
            && !pre.participants@[target].waiting_room_pending ==> (r matches Err(e)
            && e@ == "participant_id is not waiting: "@ + pre.participants@[target].participant_id@ && post == pre))
    &&& (pre.participants@.contains_key(target)
            && pre.participants@[target].waiting_room_pending ==> ({
            let participants = pre.participants@.remove(target);
            let was_host = pre.host_conn_id == Some(target);
            let host = if was_host {
                spec_min_conn(participants)
            } else {
                pre.host_conn_id
            };
            &&& r matches Ok(id) && id@ == pre.participants@[target].participant_id@
            &&& post.participants@ == participants
            &&& post.e2ee_epochs@ == pre.e2ee_epochs@.remove(target)
            &&& post.key_rotation_ack_epochs@ == pre.key_rotation_ack_epochs@.remove(
                target,
            )
            &&& post.host_conn_id == host
            &&& post.co_host_conn_ids@ == if was_host {
                spec_active_co_hosts(participants, host, pre.co_host_role_owners@)
            } else {
                pre.co_host_conn_ids@.remove(target)
            }
            &&& post == (RoomState {
                participants: post.participants,
                e2ee_epochs: post.e2ee_epochs,
                key_rotation_ack_epochs: post.key_rotation_ack_epochs,
                host_conn_id: host,
                co_host_conn_ids: post.co_host_conn_ids,
                ..pre
            })
        }))
}

/// Turns a waiting connection away: it leaves the room with its co-host
/// binding and key epochs, and when it was the host the smallest remaining
/// connection becomes host and the co-hosts are re-derived. Returns its
/// participant id; refused for an unknown connection or one that is not
/// waiting, leaving the room as it was.
pub fn deny_waiting_participant(room: &mut RoomState, target_conn_id: u64) -> (r: Result<
    String,
    String,
>)
    ensures
        spec_deny_outcome(*old(room), target_conn_id, *final(room), r),
{
    let denied_participant_id = match room.participants.get(&target_conn_id) {
        Some(p) => {
            if !p.waiting_room_pending {
                let mut m = "participant_id is not waiting: ".to_owned();
                m.append(p.participant_id.as_str());
                return Err(m);
            }
            p.participant_id.clone()
        },
        None => {
            return Err("participant missing".to_owned());
        },
    };
    room.participants.remove(&target_conn_id);
    room.co_host_conn_ids.remove(&target_conn_id);
    room.e2ee_epochs.remove(&target_conn_id);
    room.key_rotation_ack_epochs.remove(&target_conn_id);
    if room.host_conn_id == Some(target_conn_id) {
        room.host_conn_id = min_conn(&room.participants);
        sync_active_co_host_bindings(room);
    }
    Ok(denied_participant_id)
}

} // verus!
