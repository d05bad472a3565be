//! What the hub tells a room about itself: the roster and the anonymous
//! roster (sorted by participant id and by handle), the anonymous group key
//! rotation, who hears moderator notices, everyone's permissions, and the
//! accounting of fan-out that back pressure dropped.
use vstd::prelude::*;
use vstd::multiset::Multiset;
use crate::codec::{deterministic_signature_hex, spec_signature_hex};
use crate::hub::frames::{AnonGroupKeyRotateFrame, PermissionsSnapshotFrame, RoleKind};
use crate::hub::limits::BACKPRESSURE_NOTICE_MIN_INTERVAL_MS;
use crate::hub::table::{count_entries, keys_where, lemma_count_entries_matches_map, table_layout};
use crate::hub::room::{
    copy_opt_text, permissions_snapshot_for_conn, spec_can_moderate, spec_role_of, RoomState,
    ParticipantState,
};
use crate::text::{
    decimal_string, lemma_text_lt_asymmetric, lemma_text_lt_transitive, push_decimal,
    spec_decimal, spec_text_lt, text_lt,
};
use crate::wire::{AnonRosterEntry, AnonRosterFrame, RosterEntry, RosterFrame};

verus! {

broadcast use vstd::string::group_string_axioms;

/// Something a roster is sorted by: a text key.
pub trait SortKey {
    /// The key, as characters.
    spec fn sort_key(&self) -> Seq<char>;

    /// The key.
    fn key_text(&self) -> (r: &str)
        ensures
            r@ == self.sort_key(),
    ;
}

impl SortKey for RosterEntry {
    open spec fn sort_key(&self) -> Seq<char> {
        self.participant_id@
    }

    fn key_text(&self) -> (r: &str) {
        self.participant_id.as_str()
    }
}

impl SortKey for AnonRosterEntry {
    open spec fn sort_key(&self) -> Seq<char> {
        self.participant_handle@
    }

    fn key_text(&self) -> (r: &str) {
        self.participant_handle.as_str()
    }
}

impl SortKey for String {
    open spec fn sort_key(&self) -> Seq<char> {
        self@
    }

    fn key_text(&self) -> (r: &str) {
        self.as_str()
    }
}

/// No item sorts before an earlier one.
pub open spec fn spec_sorted<T: SortKey>(s: Seq<T>) -> bool {
    forall|i: int, j: int|
        0 <= i < j < s.len() ==> !spec_text_lt(#[trigger] s[j].sort_key(), #[trigger] s[i].sort_key())
}

proof fn lemma_insert_keeps_sorted<T: SortKey>(s: Seq<T>, p: int, x: T)
    requires
        spec_sorted(s),
        0 <= p <= s.len(),
        forall|k: int| 0 <= k < p ==> !spec_text_lt(x.sort_key(), #[trigger] s[k].sort_key()),
        p < s.len() ==> spec_text_lt(x.sort_key(), s[p].sort_key()),
    ensures
        spec_sorted(s.insert(p, x)),
{
    let t = s.insert(p, x);
    assert forall|i: int, j: int| 0 <= i < j < t.len() implies !spec_text_lt(
        #[trigger] t[j].sort_key(),
        #[trigger] t[i].sort_key(),
    ) by {
        if j < p {
            assert(t[i] == s[i] && t[j] == s[j]);
        } else if j == p {
            assert(t[i] == s[i] && t[j] == x);
        } else if i < p {
            assert(t[i] == s[i] && t[j] == s[j - 1]);
        } else if i == p {
            assert(t[i] == x && t[j] == s[j - 1]);
            lemma_text_lt_asymmetric(x.sort_key(), s[p].sort_key());
            if j - 1 > p && spec_text_lt(s[j - 1].sort_key(), x.sort_key()) {
                lemma_text_lt_transitive(s[j - 1].sort_key(), x.sort_key(), s[p].sort_key());
                assert(!spec_text_lt(s[j - 1].sort_key(), s[p].sort_key()));
            }
        } else {
            assert(t[i] == s[i - 1] && t[j] == s[j - 1]);
        }
    }
}

/// Sorts by key, keeping every item.
pub fn sort_by_key<T: SortKey>(items: Vec<T>) -> (r: Vec<T>)
    ensures
        spec_sorted(r@),
        r@.to_multiset() == items@.to_multiset(),
{
    broadcast use vstd::seq_lib::group_to_multiset_ensures, vstd::multiset::group_multiset_axioms;

    let ghost all = items@;
    let mut rest = items;
    let mut out: Vec<T> = Vec::new();
    assert(out@.to_multiset() =~= Multiset::empty());
    while rest.len() > 0
        invariant
            spec_sorted(out@),
            out@.to_multiset().add(rest@.to_multiset()) == all.to_multiset(),
        decreases rest@.len(),
    {
        let ghost before_rest = rest@;
        let x = rest.remove(0);
        proof {
            vstd::seq_lib::to_multiset_remove(before_rest, 0);
        }
        let mut p: usize = 0;
        while p < out.len() && !text_lt(x.key_text(), out[p].key_text())
            invariant
                p <= out@.len(),
                forall|k: int| 0 <= k < p ==> !spec_text_lt(x.sort_key(), #[trigger] out@[k].sort_key()),
            decreases out@.len() - p,
        {
            p = p + 1;
        }
        let ghost before_out = out@;
        proof {
            lemma_insert_keeps_sorted(before_out, p as int, x);
            vstd::seq_lib::to_multiset_insert(before_out, p as int, x);
        }
        out.insert(p, x);
        proof {
            assert(out@ == before_out.insert(p as int, x));
            assert(before_rest[0] == x);
            assert(before_rest.contains(x));
            vstd::seq_lib::to_multiset_contains(before_rest, x);
            assert(before_rest.to_multiset().count(x) > 0);
            assert(rest@.to_multiset() == before_rest.to_multiset().remove(x));
            assert(out@.to_multiset() == before_out.to_multiset().insert(x));
            assert(out@.to_multiset().add(rest@.to_multiset()) =~= before_out.to_multiset().add(
                before_rest.to_multiset(),
            ));
        }
    }
    assert(rest@ =~= Seq::<T>::empty());
    assert(rest@.to_multiset() =~= Multiset::empty());
    assert(out@.to_multiset() =~= all.to_multiset());
    out
}

/// The roster entry of a participant.
pub open spec fn spec_roster_entry(p: ParticipantState) -> RosterEntry {
    RosterEntry {
        participant_id: p.participant_id,
        display_name: p.display_name,
        mic_enabled: p.mic_enabled,
        video_enabled: p.video_enabled,
        screen_share_enabled: p.screen_share_enabled,
    }
}

/// The roster entries of the joined participants, in order.
pub open spec fn spec_roster_entries(ps: Seq<ParticipantState>) -> Seq<RosterEntry>
    decreases ps.len(),
{
    if ps.len() == 0 {
        Seq::empty()
    } else {
        let rest = spec_roster_entries(ps.drop_last());
        if ps.last().hello_seen {
            rest.push(spec_roster_entry(ps.last()))
        } else {
            rest
        }
    }
}

/// An entry of a joined connection whose roster entry is `e`.
pub open spec fn roster_entry_of(e: RosterEntry) -> spec_fn(u64, ParticipantState) -> bool {
    |c: u64, p: ParticipantState| p.hello_seen && spec_roster_entry(p) == e
}

proof fn lemma_roster_count_by_entries(keys: Seq<u64>, vals: Seq<ParticipantState>, e: RosterEntry)
    requires
        keys.len() == vals.len(),
    ensures
        spec_roster_entries(vals).to_multiset().count(e) == count_entries(keys, vals, roster_entry_of(e)),
    decreases vals.len(),
{
    broadcast use {
        vstd::seq_lib::to_multiset_build,
        vstd::seq_lib::to_multiset_contains,
        vstd::multiset::group_multiset_axioms,
    };

    if vals.len() == 0 {
        assert(!spec_roster_entries(vals).contains(e));
    } else {
        lemma_roster_count_by_entries(keys.drop_last(), vals.drop_last(), e);
    }
}

/// Each roster entry occurs in a room's roster as often as there are
/// connections in its participant map that have sent their hello and have
/// that entry: the roster is the joined participants of the map, whatever
/// the table's order.
pub proof fn lemma_roster_counts_joined_connections(room: RoomState, e: RosterEntry)
    requires
        table_layout(room.participants),
    ensures
        spec_roster_entries(room.participants.val_seq()).to_multiset().count(e)
            == room.participants@.dom().filter(
            |c: u64|
                room.participants@[c].hello_seen && spec_roster_entry(room.participants@[c]) == e,
        ).len(),
{
    lemma_roster_count_by_entries(room.participants.key_seq(), room.participants.val_seq(), e);
    lemma_count_entries_matches_map(room.participants, roster_entry_of(e));
    assert(keys_where(room.participants@, roster_entry_of(e)) =~= room.participants@.dom().filter(
        |c: u64|
            room.participants@[c].hello_seen && spec_roster_entry(room.participants@[c]) == e,
    ));
}

/// The room's roster at `at_ms`: every joined participant's id, display
/// name and media state, sorted by participant id.
pub fn roster_frame_for(room: &RoomState, at_ms: u64) -> (r: RosterFrame)
    ensures
        r.at_ms == at_ms,
        spec_sorted(r.participants@),
        r.participants@.to_multiset() == spec_roster_entries(room.participants.val_seq()).to_multiset(),
{
    let n = room.participants.len();
    let mut entries: Vec<RosterEntry> = Vec::new();
    let mut i: usize = 0;
    while i < n
        invariant
            n == room.participants.key_seq().len(),
            n == room.participants.val_seq().len(),
            i <= n,
            entries@ == spec_roster_entries(room.participants.val_seq().take(i as int)),
        decreases n - i,
    {
        let p = room.participants.value_at(i);
        assert(room.participants.val_seq().take(i + 1).drop_last() =~= room.participants.val_seq().take(
            i as int,
        ));
        if p.hello_seen {
            entries.push(
                RosterEntry {
                    participant_id: p.participant_id.clone(),
                    display_name: copy_opt_text(&p.display_name),
                    mic_enabled: p.mic_enabled,
                    video_enabled: p.video_enabled,
                    screen_share_enabled: p.screen_share_enabled,
                },
            );
        }
        i = i + 1;
    }
    assert(room.participants.val_seq().take(n as int) =~= room.participants.val_seq());
    RosterFrame { at_ms, participants: sort_by_key(entries) }
}

/// The anonymous roster entries: every participant with both a handle and
/// an X25519 key, with the time billing started for it.
pub open spec fn spec_anon_roster_entries(ps: Seq<ParticipantState>) -> Seq<AnonRosterEntry>
    decreases ps.len(),
{
    if ps.len() == 0 {
        Seq::empty()
    } else {
        let rest = spec_anon_roster_entries(ps.drop_last());
        let p = ps.last();
        match (p.participant_handle, p.x25519_pubkey_hex) {
            (Some(h), Some(k)) => rest.push(
                AnonRosterEntry {
                    participant_handle: h,
                    x25519_pubkey_hex: k,
                    joined_at_ms: p.last_billed_at_ms,
                },
            ),
            _ => rest,
        }
    }
}

/// The room's anonymous roster at `at_ms`, sorted by handle.
pub fn anon_roster_frame_for(room: &RoomState, at_ms: u64) -> (r: AnonRosterFrame)
    ensures
        r.at_ms == at_ms,
        spec_sorted(r.participants@),
        r.participants@.to_multiset() == spec_anon_roster_entries(
            room.participants.val_seq(),
        ).to_multiset(),
{
    let n = room.participants.len();
    let mut entries: Vec<AnonRosterEntry> = Vec::new();
    let mut i: usize = 0;
    while i < n
        invariant
            n == room.participants.key_seq().len(),
            n == room.participants.val_seq().len(),
            i <= n,
            entries@ == spec_anon_roster_entries(room.participants.val_seq().take(i as int)),
        decreases n - i,
    {
        let p = room.participants.value_at(i);
        assert(room.participants.val_seq().take(i + 1).drop_last() =~= room.participants.val_seq().take(
            i as int,
        ));
        match (&p.participant_handle, &p.x25519_pubkey_hex) {
            (Some(h), Some(k)) => {
                entries.push(
                    AnonRosterEntry {
                        participant_handle: h.clone(),
                        x25519_pubkey_hex: k.clone(),
                        joined_at_ms: p.last_billed_at_ms,
                    },
                );
            },
            _ => {},
        }
        i = i + 1;
    }
    assert(room.participants.val_seq().take(n as int) =~= room.participants.val_seq());
    AnonRosterFrame { at_ms, participants: sort_by_key(entries) }
}

/// The handles of the joined anonymous participants, in order.
pub open spec fn spec_member_handles(ps: Seq<ParticipantState>) -> Seq<String>
    decreases ps.len(),
{
    if ps.len() == 0 {
        Seq::empty()
    } else {
        let rest = spec_member_handles(ps.drop_last());
        let p = ps.last();
        match p.participant_handle {
            Some(h) => if p.hello_seen && p.anonymous_mode {
                rest.push(h)
            } else {
                rest
            },
            None => rest,
        }
    }
}

/// Texts joined with a separator between them.
pub open spec fn spec_join(parts: Seq<Seq<char>>, sep: Seq<char>) -> Seq<char>
    decreases parts.len(),
{
    if parts.len() == 0 {
        Seq::empty()
    } else if parts.len() == 1 {
        parts[0]
    } else {
        spec_join(parts.drop_last(), sep) + sep + parts.last()
    }
}

fn join_texts(parts: &Vec<String>, sep: &str) -> (r: String)
    ensures
        r@ == spec_join(parts@.map_values(|s: String| s@), sep@),
{
    let mut out = String::new();
    let mut i: usize = 0;
    while i < parts.len()
        invariant
            i <= parts@.len(),
            out@ == spec_join(parts@.take(i as int).map_values(|s: String| s@), sep@),
        decreases parts@.len() - i,
    {
        let ghost before = out@;
        assert(parts@.take(i + 1).map_values(|s: String| s@).drop_last() =~= parts@.take(
            i as int,
        ).map_values(|s: String| s@));
        if i > 0 {
            out.append(sep);
        }
        out.append(parts[i].as_str());
        proof {
            if i == 0 {
                assert(before =~= Seq::<char>::empty());
                assert(out@ =~= parts@[0]@);
            }
        }
        i = i + 1;
    }
    assert(parts@.take(parts@.len() as int) =~= parts@);
    out
}

/// The epoch a group key rotation announces: the room's permissions epoch
/// once bumped (held at `u64::MAX`), at least one.
pub open spec fn spec_rotation_epoch(permissions_epoch: u64) -> u64 {
    let bumped = if permissions_epoch == u64::MAX {
        u64::MAX
    } else {
        (permissions_epoch + 1) as u64
    };
    if bumped < 1 {
        1
    } else {
        bumped
    }
}

/// The payload the key wrap of a rotation is derived from: the time, the
/// epoch and the member handles, joined by `|`.
pub open spec fn spec_rotation_payload(at_ms: u64, epoch: u64, handles: Seq<String>) -> Seq<char> {
    spec_decimal(at_ms as nat) + "|"@ + spec_decimal(epoch as nat) + "|"@ + spec_join(
        handles.map_values(|s: String| s@),
        "|"@,
    )
}

/// Rotates the anonymous group key: bumps the room's permissions epoch and
/// announces it with the sorted handles of the joined anonymous
/// participants and a key wrap derived from them.
pub fn build_anon_group_key_rotate_frame(room: &mut RoomState, at_ms: u64) -> (r:
    AnonGroupKeyRotateFrame)
    ensures
        final(room).permissions_epoch == if old(room).permissions_epoch == u64::MAX {
            u64::MAX
        } else {
            (old(room).permissions_epoch + 1) as u64
        },
        *final(room) == (RoomState { permissions_epoch: final(room).permissions_epoch, ..*old(room) }),
        r.sent_at_ms == at_ms,
        r.epoch == spec_rotation_epoch(old(room).permissions_epoch),
        spec_sorted(r.member_handles@),
        r.member_handles@.to_multiset() == spec_member_handles(
            old(room).participants.val_seq(),
        ).to_multiset(),
        r.key_wrap_hex@ == spec_signature_hex(
            "anon_group_key_rotate"@,
            spec_rotation_payload(at_ms, r.epoch, r.member_handles@),
        ),
{
    room.permissions_epoch = if room.permissions_epoch == u64::MAX {
        u64::MAX
    } else {
        room.permissions_epoch + 1
    };
    let epoch = if room.permissions_epoch < 1 {
        1
    } else {
        room.permissions_epoch
    };
    let n = room.participants.len();
    let mut handles: Vec<String> = Vec::new();
    let mut i: usize = 0;
    while i < n
        invariant
            n == room.participants.key_seq().len(),
            n == room.participants.val_seq().len(),
            i <= n,
            handles@ == spec_member_handles(room.participants.val_seq().take(i as int)),
        decreases n - i,
    {
        let p = room.participants.value_at(i);
        assert(room.participants.val_seq().take(i + 1).drop_last() =~= room.participants.val_seq().take(
            i as int,
        ));
        match &p.participant_handle {
            Some(h) => {
                if p.hello_seen && p.anonymous_mode {
                    handles.push(h.clone());
                }
            },
            None => {},
        }
        i = i + 1;
    }
    assert(room.participants.val_seq().take(n as int) =~= room.participants.val_seq());
    let member_handles = sort_by_key(handles);
    let entropy = join_texts(&member_handles, "|");
    let mut payload = decimal_string(at_ms);
    payload.append("|");
    push_decimal(&mut payload, epoch);
    payload.append("|");
    payload.append(entropy.as_str());
    let key_wrap_hex = deterministic_signature_hex("anon_group_key_rotate", payload.as_str());
    AnonGroupKeyRotateFrame { sent_at_ms: at_ms, epoch, key_wrap_hex, member_handles }
}

/// Who hears a notice for moderators: the host, then the co-hosts.
pub fn moderator_targets(room: &RoomState) -> (r: Vec<u64>)
    ensures
        r@ == (match room.host_conn_id {
            Some(h) => seq![h],
            None => Seq::<u64>::empty(),
        }) + room.co_host_conn_ids.member_seq(),
{
    let mut targets: Vec<u64> = Vec::new();
    match room.host_conn_id {
        Some(h) => {
            targets.push(h);
        },
        None => {},
    }
    let ghost head = targets@;
    let n = room.co_host_conn_ids.len();
    let mut i: usize = 0;
    while i < n
        invariant
            n == room.co_host_conn_ids.member_seq().len(),
            i <= n,
            targets@ == head + room.co_host_conn_ids.member_seq().take(i as int),
        decreases n - i,
    {
        targets.push(room.co_host_conn_ids.member_at(i));
        assert(head + room.co_host_conn_ids.member_seq().take(i + 1) =~= (head
            + room.co_host_conn_ids.member_seq().take(i as int)).push(
            room.co_host_conn_ids.member_seq()[i as int],
        ));
        i = i + 1;
    }
    assert(room.co_host_conn_ids.member_seq().take(n as int) =~= room.co_host_conn_ids.member_seq());
    targets
}

/// `s` is the permissions snapshot of joined connection `conn_id` at
/// `at_ms`.
pub open spec fn spec_is_snapshot_of(room: RoomState, conn_id: u64, at_ms: u64, s: PermissionsSnapshotFrame) -> bool {
    &&& room.participants@.contains_key(conn_id)
    &&& room.participants@[conn_id].hello_seen
    &&& s.at_ms == at_ms
    &&& s.participant_id@ == room.participants@[conn_id].participant_id@
    &&& s.host == (spec_role_of(room, conn_id) == RoleKind::Host)
    &&& s.co_host == (spec_role_of(room, conn_id) == RoleKind::CoHost)
    &&& s.can_moderate == spec_can_moderate(room, conn_id)
    &&& s.can_record_local == room.local_recording_allowed
    &&& s.epoch == room.permissions_epoch
}

/// The connections that hold a permissions snapshot: the joined ones, in
/// order.
pub open spec fn spec_joined_conns(room: RoomState, keys: Seq<u64>) -> Seq<u64>
    decreases keys.len(),
{
    if keys.len() == 0 {
        Seq::empty()
    } else {
        let rest = spec_joined_conns(room, keys.drop_last());
        if room.participants@.contains_key(keys.last()) && room.participants@[keys.last()].hello_seen {
            rest.push(keys.last())
        } else {
            rest
        }
    }
}

/// Everyone's permissions at `at_ms`: a snapshot for each joined
/// connection; none in an anonymous room.
pub fn permissions_snapshots_for_room(room: &RoomState, at_ms: u64) -> (r: Vec<
    (u64, PermissionsSnapshotFrame),
>)
    ensures
        room.anonymous_mode ==> r@.len() == 0,
        !room.anonymous_mode ==> r@.map_values(|e: (u64, PermissionsSnapshotFrame)| e.0)
            == spec_joined_conns(*room, room.participants.key_seq()),
        forall|i: int| 0 <= i < r@.len() ==> spec_is_snapshot_of(*room, #[trigger] r@[i].0, at_ms, r@[i].1),
{
    let mut out: Vec<(u64, PermissionsSnapshotFrame)> = Vec::new();
    if room.anonymous_mode {
        return out;
    }
    let n = room.participants.len();
    let mut i: usize = 0;
    while i < n
        invariant
            n == room.participants.key_seq().len(),
            i <= n,
            !room.anonymous_mode,
            out@.map_values(|e: (u64, PermissionsSnapshotFrame)| e.0) == spec_joined_conns(
                *room,
                room.participants.key_seq().take(i as int),
            ),
            forall|k: int| 0 <= k < out@.len() ==> spec_is_snapshot_of(*room, #[trigger] out@[k].0, at_ms, out@[k].1),
        decreases n - i,
    {
        let conn_id = room.participants.key_at(i);
        assert(room.participants.key_seq().take(i + 1).drop_last() =~= room.participants.key_seq().take(
            i as int,
        ));
        let ghost before = out@;
        match permissions_snapshot_for_conn(room, conn_id, at_ms) {
            Some(s) => {
                out.push((conn_id, s));
                assert(out@.map_values(|e: (u64, PermissionsSnapshotFrame)| e.0) =~= before.map_values(
                    |e: (u64, PermissionsSnapshotFrame)| e.0,
                ).push(conn_id));
            },
            None => {},
        }
        i = i + 1;
    }
    assert(room.participants.key_seq().take(n as int) =~= room.participants.key_seq());
    out
}

/// The notice moderators get when fan-out was dropped.
pub open spec fn spec_backpressure_notice(dropped: u64, total: u64) -> Seq<char> {
    "backpressure: dropped fanout to "@ + spec_decimal(dropped as nat) + " participant(s); total_dropped="@
        + spec_decimal(total as nat)
}

/// Accounts for fan-out that back pressure dropped at `now_ms`: the room's
/// total grows (held at `u64::MAX`), and moderators get a notice unless
/// one went out less than the minimum interval ago.
pub fn record_fanout_drops(room: &mut RoomState, dropped: u64, now_ms: u64) -> (notice: Option<
    String,
>)
    ensures
        dropped == 0 ==> *final(room) == *old(room) && notice is None,
        dropped > 0 ==> {
            let total = if old(room).backpressure_dropped_messages + dropped > u64::MAX {
                u64::MAX
            } else {
                (old(room).backpressure_dropped_messages + dropped) as u64
            };
            let due = now_ms >= old(room).backpressure_last_notice_at_ms && now_ms
                - old(room).backpressure_last_notice_at_ms >= BACKPRESSURE_NOTICE_MIN_INTERVAL_MS;
            &&& *final(room) == (RoomState {
                backpressure_dropped_messages: total,
                backpressure_last_notice_at_ms: if due {
                    now_ms
                } else {
                    old(room).backpressure_last_notice_at_ms
                },
                ..*old(room)
            })
            &&& if due {
                notice matches Some(m) && m@ == spec_backpressure_notice(dropped, total)
            } else {
                notice is None
            }
        },
{
    if dropped == 0 {
        return None;
    }
    room.backpressure_dropped_messages = if room.backpressure_dropped_messages > u64::MAX - dropped {
        u64::MAX
    } else {
        room.backpressure_dropped_messages + dropped
    };
    let since = if now_ms >= room.backpressure_last_notice_at_ms {
        now_ms - room.backpressure_last_notice_at_ms
    } else {
        0
    };
    if since >= BACKPRESSURE_NOTICE_MIN_INTERVAL_MS {
        room.backpressure_last_notice_at_ms = now_ms;
        let mut m = "backpressure: dropped fanout to ".to_owned();
        push_decimal(&mut m, dropped);
        m.append(" participant(s); total_dropped=");
        push_decimal(&mut m, room.backpressure_dropped_messages);
        Some(m)
    } else {
        None
    }
}

/// A connection's participant id and display name; `unknown` and none for
/// a connection the room does not know.
pub fn participant_identity(room: &RoomState, conn_id: u64) -> (r: (String, Option<String>))
    ensures
        room.participants@.contains_key(conn_id) ==> r.0 == room.participants@[conn_id].participant_id
            && r.1 == room.participants@[conn_id].display_name,
        !room.participants@.contains_key(conn_id) ==> r.0@ == "unknown"@ && r.1 is None,
{
    match room.participants.get(&conn_id) {
        Some(p) => (p.participant_id.clone(), copy_opt_text(&p.display_name)),
        None => ("unknown".to_owned(), None),
    }
}

/// True when the connection is known and has joined.
pub fn hello_seen(room: &RoomState, conn_id: u64) -> (r: bool)
    ensures
        r == (room.participants@.contains_key(conn_id) && room.participants@[conn_id].hello_seen),
{
    match room.participants.get(&conn_id) {
        Some(p) => p.hello_seen,
        None => false,
    }
}

} // verus!
