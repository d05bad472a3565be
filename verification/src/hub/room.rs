//! A room's state as the hub keeps it, and the rules on it: roles and who
//! may moderate, the signed-action clocks, permissions snapshots and the
//! anonymous-room counters.
use vstd::prelude::*;
use crate::hub::frames::{DeviceCapabilityFrame, PermissionsSnapshotFrame, RoleKind};
use crate::hub::limits::DEFAULT_MAX_PARTICIPANTS;
use crate::hub::signing::{signed_action_clock_key, spec_clock_key};
use crate::hub::table::{ConnSet, ConnTable, TextSet, TextTable};
use crate::text::{push_decimal, spec_decimal};
use crate::wire::ParticipantSnapshot;

verus! {

broadcast use vstd::string::group_string_axioms;

/// What the hub knows of one connection.
#[derive(Clone, Debug)]
pub struct ParticipantState {
    pub participant_id: String,
    pub display_name: Option<String>,
    pub participant_handle: Option<String>,
    pub x25519_pubkey_hex: Option<String>,
    pub x25519_epoch: u64,
    pub mic_enabled: bool,
    pub video_enabled: bool,
    pub screen_share_enabled: bool,
    pub anonymous_mode: bool,
    pub waiting_room_pending: bool,
    pub hello_seen: bool,
    pub last_billed_at_ms: u64,
    pub billed_nano_xor: u64,
    pub billing_remainder_mod_60k: u32,
    pub paid_nano_xor: u64,
    pub last_payment_at_ms: Option<u64>,
    pub last_escrow_proof_at_ms: Option<u64>,
    pub escrow_id: Option<String>,
}

/// An exact copy of an optional text.
pub fn copy_opt_text(o: &Option<String>) -> (r: Option<String>)
    ensures
        r == *o,
{
    match o {
        Some(s) => Some(s.clone()),
        None => None,
    }
}

impl ParticipantState {
    /// The state of a connection that has just opened: named `conn-<id>`,
    /// all media off, no hello yet, billing cursor at `connected_at_ms`.
    pub fn connected(conn_id: u64, connected_at_ms: u64) -> (s: Self)
        ensures
            s.participant_id@ == "conn-"@ + spec_decimal(conn_id as nat),
            s.display_name is None,
            s.participant_handle is None,
            s.x25519_pubkey_hex is None,
            s.x25519_epoch == 0,
            !s.mic_enabled && !s.video_enabled && !s.screen_share_enabled,
            !s.anonymous_mode && !s.waiting_room_pending && !s.hello_seen,
            s.last_billed_at_ms == connected_at_ms,
            s.billed_nano_xor == 0 && s.billing_remainder_mod_60k == 0 && s.paid_nano_xor == 0,
            s.last_payment_at_ms is None && s.last_escrow_proof_at_ms is None,
            s.escrow_id is None,
    {
        let mut id = "conn-".to_owned();
        push_decimal(&mut id, conn_id);
        ParticipantState {
            participant_id: id,
            display_name: None,
            participant_handle: None,
            x25519_pubkey_hex: None,
            x25519_epoch: 0,
            mic_enabled: false,
            video_enabled: false,
            screen_share_enabled: false,
            anonymous_mode: false,
            waiting_room_pending: false,
            hello_seen: false,
            last_billed_at_ms: connected_at_ms,
            billed_nano_xor: 0,
            billing_remainder_mod_60k: 0,
            paid_nano_xor: 0,
            last_payment_at_ms: None,
            last_escrow_proof_at_ms: None,
            escrow_id: None,
        }
    }

    /// An exact copy of this state.
    pub fn copy(&self) -> (r: Self)
        ensures
            r == *self,
    {
        ParticipantState {
            participant_id: self.participant_id.clone(),
            display_name: copy_opt_text(&self.display_name),
            participant_handle: copy_opt_text(&self.participant_handle),
            x25519_pubkey_hex: copy_opt_text(&self.x25519_pubkey_hex),
            x25519_epoch: self.x25519_epoch,
            mic_enabled: self.mic_enabled,
            video_enabled: self.video_enabled,
            screen_share_enabled: self.screen_share_enabled,
            anonymous_mode: self.anonymous_mode,
            waiting_room_pending: self.waiting_room_pending,
            hello_seen: self.hello_seen,
            last_billed_at_ms: self.last_billed_at_ms,
            billed_nano_xor: self.billed_nano_xor,
            billing_remainder_mod_60k: self.billing_remainder_mod_60k,
            paid_nano_xor: self.paid_nano_xor,
            last_payment_at_ms: self.last_payment_at_ms,
            last_escrow_proof_at_ms: self.last_escrow_proof_at_ms,
            escrow_id: copy_opt_text(&self.escrow_id),
        }
    }
}

/// A room: its connections and their states, roles, policy and counters.
pub struct RoomState {
    pub participants: ConnTable<ParticipantState>,
    pub device_caps_by_conn: ConnTable<DeviceCapabilityFrame>,
    pub host_conn_id: Option<u64>,
    pub host_role_owner: Option<String>,
    pub co_host_conn_ids: ConnSet,
    pub co_host_role_owners: TextSet,
    pub e2ee_epochs: ConnTable<u64>,
    pub key_rotation_ack_epochs: ConnTable<u64>,
    pub signed_action_clock_by_signer: TextTable<u64>,
    pub presence_sequence: u64,
    pub rate_per_minute_nano: u64,
    pub max_screen_shares: u8,
    pub room_lock: bool,
    pub waiting_room_enabled: bool,
    pub guest_join_allowed: bool,
    pub local_recording_allowed: bool,
    pub e2ee_required: bool,
    pub max_participants: u32,
    pub policy_epoch: u64,
    pub policy_updated_at_ms: u64,
    pub policy_updated_by: String,
    pub policy_signature_hex: String,
    pub permissions_epoch: u64,
    pub anonymous_mode: bool,
    pub anon_admission_rejections: u64,
    pub backpressure_dropped_messages: u64,
    pub backpressure_last_notice_at_ms: u64,
}

/// The updater named on a policy that no host has signed yet.
pub open spec fn spec_system_updater() -> Seq<char> {
    "system"@
}

impl RoomState {
    /// A room as it is opened: empty, transparent, unlocked, guests and
    /// local recording allowed, E2EE required, the default participant cap,
    /// one screen share, and the given rate.
    pub fn new(rate_per_minute_nano: u64) -> (room: Self)
        ensures
            room.participants@ == Map::<u64, ParticipantState>::empty(),
            room.device_caps_by_conn@ == Map::<u64, DeviceCapabilityFrame>::empty(),
            room.host_conn_id is None,
            room.host_role_owner is None,
            room.co_host_conn_ids@ == Set::<u64>::empty(),
            room.co_host_role_owners@ == Set::<Seq<char>>::empty(),
            room.e2ee_epochs@ == Map::<u64, u64>::empty(),
            room.key_rotation_ack_epochs@ == Map::<u64, u64>::empty(),
            room.signed_action_clock_by_signer@ == Map::<Seq<char>, u64>::empty(),
            room.presence_sequence == 0,
            room.rate_per_minute_nano == rate_per_minute_nano,
            room.max_screen_shares == 1,
            !room.room_lock && !room.waiting_room_enabled,
            room.guest_join_allowed && room.local_recording_allowed && room.e2ee_required,
            room.max_participants == DEFAULT_MAX_PARTICIPANTS,
            room.policy_epoch == 0 && room.policy_updated_at_ms == 0,
            room.policy_updated_by@ == spec_system_updater(),
            room.policy_signature_hex@ == Seq::<char>::empty(),
            room.permissions_epoch == 0,
            !room.anonymous_mode,
            room.anon_admission_rejections == 0,
            room.backpressure_dropped_messages == 0,
            room.backpressure_last_notice_at_ms == 0,
    {
        RoomState {
            participants: ConnTable::new(),
            device_caps_by_conn: ConnTable::new(),
            host_conn_id: None,
            host_role_owner: None,
            co_host_conn_ids: ConnSet::new(),
            co_host_role_owners: TextSet::new(),
            e2ee_epochs: ConnTable::new(),
            key_rotation_ack_epochs: ConnTable::new(),
            signed_action_clock_by_signer: TextTable::new(),
            presence_sequence: 0,
            rate_per_minute_nano,
            max_screen_shares: 1,
            room_lock: false,
            waiting_room_enabled: false,
            guest_join_allowed: true,
            local_recording_allowed: true,
            e2ee_required: true,
            max_participants: DEFAULT_MAX_PARTICIPANTS,
            policy_epoch: 0,
            policy_updated_at_ms: 0,
            policy_updated_by: "system".to_owned(),
            policy_signature_hex: String::new(),
            permissions_epoch: 0,
            anonymous_mode: false,
            anon_admission_rejections: 0,
            backpressure_dropped_messages: 0,
            backpressure_last_notice_at_ms: 0,
        }
    }
}

/// The role of a connection: host, then co-host, else participant.
pub open spec fn spec_role_of(room: RoomState, conn_id: u64) -> RoleKind {
    if room.host_conn_id == Some(conn_id) {
        RoleKind::Host
    } else if room.co_host_conn_ids@.contains(conn_id) {
        RoleKind::CoHost
    } else {
        RoleKind::Participant
    }
}

/// The role of a connection.
pub fn role_kind_for_conn(room: &RoomState, conn_id: u64) -> (r: RoleKind)
    ensures
        r == spec_role_of(*room, conn_id),
{
    if room.host_conn_id == Some(conn_id) {
        RoleKind::Host
    } else if room.co_host_conn_ids.contains(&conn_id) {
        RoleKind::CoHost
    } else {
        RoleKind::Participant
    }
}

/// Hosts and co-hosts may moderate.
pub open spec fn spec_can_moderate(room: RoomState, conn_id: u64) -> bool {
    spec_role_of(room, conn_id) != RoleKind::Participant
}

/// True when the connection is the host or a co-host.
pub fn can_moderate_conn(room: &RoomState, conn_id: u64) -> (r: bool)
    ensures
        r == spec_can_moderate(*room, conn_id),
{
    match role_kind_for_conn(room, conn_id) {
        RoleKind::Participant => false,
        _ => true,
    }
}

/// Only the host changes roles and policy.
pub fn can_manage_roles_and_policy(room: &RoomState, conn_id: u64) -> (r: bool)
    ensures
        r == (room.host_conn_id == Some(conn_id)),
{
    room.host_conn_id == Some(conn_id)
}

/// The participant id owns the host role or a co-host role of the room.
pub open spec fn spec_has_reserved_role(room: RoomState, participant_id: Seq<char>) -> bool {
    (room.host_role_owner matches Some(owner) && owner@ == participant_id)
        || room.co_host_role_owners@.contains(participant_id)
}

/// True when the participant id owns the host role or a co-host role.
pub fn participant_id_has_reserved_moderation_role(room: &RoomState, participant_id: &str) -> (r:
    bool)
    ensures
        r == spec_has_reserved_role(*room, participant_id@),
{
    let host_owner = match &room.host_role_owner {
        Some(owner) => crate::text::same_text(owner.as_str(), participant_id),
        None => false,
    };
    host_owner || room.co_host_role_owners.contains(participant_id)
}

/// The connection moderates now, or the participant id owns a moderating
/// role that it will get back on joining.
pub open spec fn spec_conn_or_participant_can_moderate(
    room: RoomState,
    conn_id: u64,
    participant_id: Seq<char>,
) -> bool {
    room.host_conn_id == Some(conn_id) || room.co_host_conn_ids@.contains(conn_id)
        || spec_has_reserved_role(room, participant_id)
}

/// True when the connection or the participant id can moderate.
pub fn conn_or_participant_can_moderate(room: &RoomState, conn_id: u64, participant_id: &str) -> (r:
    bool)
    ensures
        r == spec_conn_or_participant_can_moderate(*room, conn_id, participant_id@),
{
    room.host_conn_id == Some(conn_id) || room.co_host_conn_ids.contains(&conn_id)
        || participant_id_has_reserved_moderation_role(room, participant_id)
}

/// Counts one more anonymous admission refused at capacity, saturating,
/// and returns the new count. Nothing else changes.
pub fn record_anon_admission_rejection(room: &mut RoomState) -> (r: u64)
    ensures
        r == if old(room).anon_admission_rejections < u64::MAX {
            old(room).anon_admission_rejections + 1
        } else {
            u64::MAX as int
        },
        *final(room) == (RoomState { anon_admission_rejections: r, ..*old(room) }),
{
    if room.anon_admission_rejections < u64::MAX {
        room.anon_admission_rejections = room.anon_admission_rejections + 1;
    }
    room.anon_admission_rejections
}

/// The permissions a joined connection has: its role, whether it may
/// moderate, whether the room allows local recording, and the room's
/// permissions epoch.
pub fn permissions_snapshot_for_conn(room: &RoomState, conn_id: u64, at_ms: u64) -> (r: Option<
    PermissionsSnapshotFrame,
>)
    ensures
        match r {
            None => !room.participants@.contains_key(conn_id)
                || !room.participants@[conn_id].hello_seen,
            Some(s) => {
                &&& room.participants@.contains_key(conn_id)
                &&& room.participants@[conn_id].hello_seen
                &&& s.at_ms == at_ms
                &&& s.participant_id@ == room.participants@[conn_id].participant_id@
                &&& s.host == (spec_role_of(*room, conn_id) == RoleKind::Host)
                &&& s.co_host == (spec_role_of(*room, conn_id) == RoleKind::CoHost)
                &&& s.can_moderate == spec_can_moderate(*room, conn_id)
                &&& s.can_record_local == room.local_recording_allowed
                &&& s.epoch == room.permissions_epoch
            },
        },
{
    let participant = match room.participants.get(&conn_id) {
        Some(p) => p,
        None => {
            return None;
        },
    };
    if !participant.hello_seen {
        return None;
    }
    let role = role_kind_for_conn(room, conn_id);
    let is_host = match role {
        RoleKind::Host => true,
        _ => false,
    };
    let is_co_host = match role {
        RoleKind::CoHost => true,
        _ => false,
    };
    Some(
        PermissionsSnapshotFrame {
            at_ms,
            participant_id: participant.participant_id.clone(),
            host: is_host,
            co_host: is_co_host,
            can_moderate: can_moderate_conn(room, conn_id),
            can_record_local: room.local_recording_allowed,
            epoch: room.permissions_epoch,
        },
    )
}

/// A participant's public snapshot: its id, display name and media flags.
pub open spec fn spec_snapshot(state: ParticipantState, at_ms: u64) -> ParticipantSnapshot {
    ParticipantSnapshot {
        at_ms,
        participant_id: state.participant_id,
        display_name: state.display_name,
        mic_enabled: state.mic_enabled,
        video_enabled: state.video_enabled,
        screen_share_enabled: state.screen_share_enabled,
    }
}

/// A participant's public snapshot at `at_ms`.
pub fn participant_snapshot_from_state(state: &ParticipantState, at_ms: u64) -> (r:
    ParticipantSnapshot)
    ensures
        r == spec_snapshot(*state, at_ms),
{
    ParticipantSnapshot {
        at_ms,
        participant_id: state.participant_id.clone(),
        display_name: copy_opt_text(&state.display_name),
        mic_enabled: state.mic_enabled,
        video_enabled: state.video_enabled,
        screen_share_enabled: state.screen_share_enabled,
    }
}

/// A signed action is accepted on a clock when its timestamp is at least
/// one and later than the last one accepted for the same key.
pub open spec fn spec_clock_accepts(clock: Map<Seq<char>, u64>, key: Seq<char>, timestamp_ms: u64) -> bool {
    timestamp_ms >= 1 && (!clock.contains_key(key) || timestamp_ms > clock[key])
}

/// The refusal of a signed action on its clock.
pub open spec fn spec_clock_error(
    clock: Map<Seq<char>, u64>,
    action_tag: Seq<char>,
    signer_id: Seq<char>,
    timestamp_label: Seq<char>,
    timestamp_ms: u64,
) -> Seq<char> {
    let key = spec_clock_key(action_tag, signer_id);
    if timestamp_ms == 0 {
        timestamp_label + " must be >= 1"@
    } else {
        action_tag + " "@ + timestamp_label + " must increase for signer "@ + signer_id
            + ": last="@ + spec_decimal(clock[key] as nat) + " got="@ + spec_decimal(
            timestamp_ms as nat,
        ) + " (replay/stale rejected)"@
    }
}

/// Accepts a signed action only if its timestamp moves the signer's clock
/// for this kind of action forward, and then records it. A refusal leaves
/// the room as it was.
pub fn enforce_signed_action_clock(
    room: &mut RoomState,
    action_tag: &str,
    signer_id: &str,
    timestamp_label: &str,
    timestamp_ms: u64,
) -> (r: Result<(), String>)
    ensures
        ({
            let key = spec_clock_key(action_tag@, signer_id@);
            let clock = old(room).signed_action_clock_by_signer@;
            if spec_clock_accepts(clock, key, timestamp_ms) {
                &&& r is Ok
                &&& final(room).signed_action_clock_by_signer@ == clock.insert(key, timestamp_ms)
                &&& *final(room) == (RoomState {
                    signed_action_clock_by_signer: final(room).signed_action_clock_by_signer,
                    ..*old(room)
                })
            } else {
                &&& r matches Err(e) && e@ == spec_clock_error(
                    clock,
                    action_tag@,
                    signer_id@,
                    timestamp_label@,
                    timestamp_ms,
                )
                &&& *final(room) == *old(room)
            }
        }),
{
    if timestamp_ms == 0 {
        let mut m = timestamp_label.to_owned();
        m.append(" must be >= 1");
        return Err(m);
    }
    let key = signed_action_clock_key(action_tag, signer_id);
    match room.signed_action_clock_by_signer.get(key.as_str()) {
        Some(last_seen) => {
            let last_seen = *last_seen;
            if timestamp_ms <= last_seen {
                let mut m = action_tag.to_owned();
                m.append(" ");
                m.append(timestamp_label);
                m.append(" must increase for signer ");
                m.append(signer_id);
                m.append(": last=");
                push_decimal(&mut m, last_seen);
                m.append(" got=");
                push_decimal(&mut m, timestamp_ms);
                m.append(" (replay/stale rejected)");
                return Err(m);
            }
        },
        None => {},
    }
    room.signed_action_clock_by_signer.insert(key, timestamp_ms);
    Ok(())
}

/// Once a signed action is accepted at some timestamp, the same signer's
/// next action of the same kind is refused at that timestamp or any
/// earlier one, while clocks of other kinds or signers are untouched.
pub proof fn lemma_signed_clock_rejects_replay(
    clock: Map<Seq<char>, u64>,
    key: Seq<char>,
    timestamp_ms: u64,
    other_key: Seq<char>,
    later_ms: u64,
)
    requires
        spec_clock_accepts(clock, key, timestamp_ms),
    ensures
        later_ms <= timestamp_ms ==> !spec_clock_accepts(
            clock.insert(key, timestamp_ms),
            key,
            later_ms,
        ),
        later_ms > timestamp_ms ==> spec_clock_accepts(clock.insert(key, timestamp_ms), key, later_ms),
        other_key != key ==> spec_clock_accepts(clock.insert(key, timestamp_ms), other_key, later_ms)
            == spec_clock_accepts(clock, other_key, later_ms),
{
}

/// A connection is an active co-host when it has joined, is not the host,
/// and its participant id owns a co-host role.
pub open spec fn spec_is_active_co_host(
    participants: Map<u64, ParticipantState>,
    host_conn_id: Option<u64>,
    owners: Set<Seq<char>>,
    conn_id: u64,
) -> bool {
    &&& participants.contains_key(conn_id)
    &&& participants[conn_id].hello_seen
    &&& host_conn_id != Some(conn_id)
    &&& owners.contains(participants[conn_id].participant_id@)
}

/// The active co-host connections of a room.
pub open spec fn spec_active_co_hosts(
    participants: Map<u64, ParticipantState>,
    host_conn_id: Option<u64>,
    owners: Set<Seq<char>>,
) -> Set<u64> {
    Set::new(|c: u64| spec_is_active_co_host(participants, host_conn_id, owners, c))
}

fn active_co_hosts(room: &RoomState) -> (s: ConnSet)
    ensures
        s@ == spec_active_co_hosts(
            room.participants@,
            room.host_conn_id,
            room.co_host_role_owners@,
        ),
{
    let n = room.participants.len();
    let mut s = ConnSet::new();
    let mut i: usize = 0;
    while i < n
        invariant
            i <= n,
            n == room.participants.key_seq().len(),
            crate::hub::table::table_layout(room.participants),
            s@ == Set::new(
                |c: u64|
                    room.participants.key_seq().subrange(0, i as int).contains(c)
                        && spec_is_active_co_host(
                        room.participants@,
                        room.host_conn_id,
                        room.co_host_role_owners@,
                        c,
                    ),
            ),
        decreases n - i,
    {
        let c = room.participants.key_at(i);
        let p = room.participants.value_at(i);
        let ghost before = s@;
        let qualifies = p.hello_seen && room.host_conn_id != Some(c)
            && room.co_host_role_owners.contains(p.participant_id.as_str());
        if qualifies {
            s.insert(c);
        }
        proof {
            let keys = room.participants.key_seq();
            assert(room.participants@[keys[i as int]] == room.participants.val_seq()[i as int]);
            assert(qualifies == spec_is_active_co_host(
                room.participants@,
                room.host_conn_id,
                room.co_host_role_owners@,
                c,
            ));
            assert forall|x: u64|
                keys.subrange(0, i + 1).contains(x) == (keys.subrange(0, i as int).contains(x) || x
                    == c) by {
                if keys.subrange(0, i + 1).contains(x) {
                    let j = keys.subrange(0, i + 1).index_of(x);
                    if j < i {
                        assert(keys.subrange(0, i as int)[j] == x);
                    }
                }
                if keys.subrange(0, i as int).contains(x) {
                    let j = keys.subrange(0, i as int).index_of(x);
                    assert(keys.subrange(0, i + 1)[j] == x);
                }
                if x == c {
                    assert(keys.subrange(0, i + 1)[i as int] == x);
                }
            }
            assert(s@ =~= Set::new(
                |x: u64|
                    keys.subrange(0, i + 1).contains(x) && spec_is_active_co_host(
                        room.participants@,
                        room.host_conn_id,
                        room.co_host_role_owners@,
                        x,
                    ),
            ));
        }
        i = i + 1;
    }
    proof {
        assert(room.participants.key_seq().subrange(0, n as int) =~= room.participants.key_seq());
        assert(s@ =~= spec_active_co_hosts(
            room.participants@,
            room.host_conn_id,
            room.co_host_role_owners@,
        ));
    }
    s
}

/// Re-derives the co-host connections from the co-host role owners: a
/// joined connection that is not the host holds the role exactly when its
/// participant id owns it. Returns whether the set changed; nothing else
/// in the room changes.
pub fn sync_active_co_host_bindings(room: &mut RoomState) -> (changed: bool)
    ensures
        final(room).co_host_conn_ids@ == spec_active_co_hosts(
            old(room).participants@,
            old(room).host_conn_id,
            old(room).co_host_role_owners@,
        ),
        changed == (final(room).co_host_conn_ids@ != old(room).co_host_conn_ids@),
        *final(room) == (RoomState { co_host_conn_ids: final(room).co_host_conn_ids, ..*old(room) }),
{
    let next = active_co_hosts(room);
    let same = next.same_members(&room.co_host_conn_ids);
    room.co_host_conn_ids = next;
    !same
}

/// The host connection once a joining connection takes back a host role
/// that its participant id owns.
pub open spec fn spec_restored_host(
    host_role_owner: Option<String>,
    host_conn_id: Option<u64>,
    conn_id: u64,
    participant_id: Seq<char>,
) -> Option<u64> {
    if (host_role_owner matches Some(o) && o@ == participant_id) && host_conn_id != Some(conn_id) {
        Some(conn_id)
    } else {
        host_conn_id
    }
}

/// Whether restoring the roles of a joining connection changes any role
/// binding: the host moves, the connection is newly bound as co-host, or
/// re-deriving the co-hosts changes the set.
pub open spec fn spec_restore_changed(
    participants: Map<u64, ParticipantState>,
    host_role_owner: Option<String>,
    host_conn_id: Option<u64>,
    co_hosts: Set<u64>,
    owners: Set<Seq<char>>,
    conn_id: u64,
    participant_id: Seq<char>,
) -> bool {
    let host = spec_restored_host(host_role_owner, host_conn_id, conn_id, participant_id);
    let bound = host != Some(conn_id) && owners.contains(participant_id);
    let bound_set = if bound {
        co_hosts.insert(conn_id)
    } else {
        co_hosts
    };
    host != host_conn_id || (bound && !co_hosts.contains(conn_id)) || spec_active_co_hosts(
        participants,
        host,
        owners,
    ) != bound_set
}

/// Gives a joining connection back the roles its participant id owns: the
/// host role when it owns that, else a co-host role when it owns one; then
/// re-derives the co-host set. Returns whether any role binding changed.
pub fn restore_reserved_roles_on_join(
    room: &mut RoomState,
    conn_id: u64,
    participant_id: &str,
) -> (changed: bool)
    ensures
        ({
            let host = spec_restored_host(
                old(room).host_role_owner,
                old(room).host_conn_id,
                conn_id,
                participant_id@,
            );
            &&& final(room).host_conn_id == host
            &&& final(room).co_host_conn_ids@ == spec_active_co_hosts(
                old(room).participants@,
                host,
                old(room).co_host_role_owners@,
            )
            &&& changed == spec_restore_changed(
                old(room).participants@,
                old(room).host_role_owner,
                old(room).host_conn_id,
                old(room).co_host_conn_ids@,
                old(room).co_host_role_owners@,
                conn_id,
                participant_id@,
            )
            &&& *final(room) == (RoomState {
                host_conn_id: host,
                co_host_conn_ids: final(room).co_host_conn_ids,
                ..*old(room)
            })
        }),
{
    let mut changed = false;
    let owns_host = match &room.host_role_owner {
        Some(owner) => crate::text::same_text(owner.as_str(), participant_id),
        None => false,
    };
    if owns_host && room.host_conn_id != Some(conn_id) {
        room.host_conn_id = Some(conn_id);
        changed = true;
    }
    if room.host_conn_id != Some(conn_id) && room.co_host_role_owners.contains(participant_id) {
        if room.co_host_conn_ids.insert(conn_id) {
            changed = true;
        }
    }
    if sync_active_co_host_bindings(room) {
        changed = true;
    }
    changed
}

} // verus!
