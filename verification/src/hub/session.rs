//! What each frame from a connection does to its room, and what the hub
//! should send in reply: joining, leaving, media state, keys, escrow
//! proofs, payments and room settings. The caller performs the sends.
use vstd::prelude::*;
use crate::hub::frames::{ParticipantPresenceDeltaFrame, RoleChangeEntry};
use crate::hub::table::{count_entries, keys_where, lemma_count_entries_matches_map, table_layout};
use crate::hub::membership::{
    bump, min_conn, spec_bump, spec_join_error, spec_min_conn, validate_join_allowed,
};
use crate::hub::room::{
    conn_or_participant_can_moderate, copy_opt_text, participant_snapshot_from_state,
    restore_reserved_roles_on_join, spec_active_co_hosts, spec_conn_or_participant_can_moderate,
    spec_restore_changed, spec_restored_host, spec_snapshot, sync_active_co_host_bindings,
    ParticipantState, RoomState,
};
use crate::hub::anon::{
    spec_plaintext_e2ee_gate, spec_room_recipients_error,
    validate_encrypted_control_room_recipients,
};
use crate::hub::validate::{
    bool_result_text, enforce_join_media_defaults, should_apply_group_key_update, spec_encrypted_control_epoch_error,
    spec_encrypted_control_error, spec_escrow_id_consistency_error, spec_escrow_proof_error,
    spec_group_key_update_decision, spec_group_key_update_error, validate_encrypted_control_epoch,
    validate_encrypted_control_frame, validate_escrow_id_consistency, validate_escrow_proof_frame,
    validate_group_key_update_frame,
};
use crate::codec::{is_valid_tx_hash_hex, spec_is_valid_hex_len};
use crate::hub::anon::resolve_media_profile_negotiation;
use crate::hub::billing::{advance_billing, spec_advance_billing, spec_cap_u64};
use crate::hub::frames::{
    DeviceCapabilityFrame, E2EEKeyEpochFrame, KeyRotationAckFrame, MediaProfileKind,
    MediaProfileNegotiationFrame, ModerationFrame, ModerationSignedFrame, RecordingNoticeFrame,
    RecordingState,
};
use crate::hub::room::{
    can_moderate_conn, enforce_signed_action_clock, spec_can_moderate, spec_clock_accepts,
    spec_clock_error,
};
use crate::hub::signing::{
    moderation_signed_signature_is_valid, spec_clock_key, spec_moderation_payload,
    spec_token_matches,
};
use crate::hub::validate::{
    normalize_rate_for_policy, spec_device_capability_error, spec_e2ee_key_epoch_error,
    spec_media_profile_error, spec_recording_notice_error, validate_device_capability_frame,
    validate_e2ee_key_epoch_frame, validate_media_profile_negotiation_frame,
    validate_recording_notice_frame,
};
use crate::text::{opt_text, push_decimal, same_text, spec_decimal};
use crate::hub::frames::SessionPolicyFrame;
use crate::wire::{
    RoomConfigFrame, ModerationTarget, PaymentAckFrame, PaymentFrame, RoomConfigUpdateFrame,
    EncryptedControlFrame, EscrowProofFrame, GroupKeyUpdateFrame, HelloFrame, ParticipantLeftFrame,
    ParticipantSnapshot, ParticipantStateFrame, PROTOCOL_VERSION,
};

verus! {

broadcast use vstd::string::group_string_axioms;

/// What a closed connection left behind in its room.
pub struct DisconnectOutcome {
    pub left_participant_id: Option<String>,
    pub left_participant_handle: Option<String>,
    pub room_empty: bool,
    pub host_changed: bool,
    pub anonymous_mode: bool,
    pub presence_delta: Option<ParticipantPresenceDeltaFrame>,
}

/// What closing `conn_id` at `at_ms` does to the room `pre`: the room
/// `post` and the outcome `out`.
pub open spec fn spec_disconnect_outcome(
    pre: RoomState,
    conn_id: u64,
    at_ms: u64,
    post: RoomState,
    out: DisconnectOutcome,
) -> bool {
        let ps = pre.participants@.remove(conn_id);
        let left = pre.participants@.contains_key(conn_id);
        let empty = ps.dom() == Set::<u64>::empty();
        let transparent = !pre.anonymous_mode;
        let host_moves = !empty && transparent && pre.host_conn_id == Some(conn_id);
        let host = if host_moves {
            spec_min_conn(ps)
        } else {
            pre.host_conn_id
        };
        let announce = !empty && transparent && left;
        &&& post.participants@ == ps
        &&& post.device_caps_by_conn@ == pre.device_caps_by_conn@.remove(conn_id)
        &&& post.e2ee_epochs@ == pre.e2ee_epochs@.remove(conn_id)
        &&& post.key_rotation_ack_epochs@ == pre.key_rotation_ack_epochs@.remove(
            conn_id,
        )
        &&& post.host_conn_id == host
        &&& post.co_host_conn_ids@ == if host_moves {
            spec_active_co_hosts(ps, host, pre.co_host_role_owners@)
        } else {
            pre.co_host_conn_ids@.remove(conn_id)
        }
        &&& post.permissions_epoch == if host_moves {
            spec_bump(pre.permissions_epoch)
        } else {
            pre.permissions_epoch
        }
        &&& post.presence_sequence == if announce {
            spec_bump(pre.presence_sequence)
        } else {
            pre.presence_sequence
        }
        &&& post == (RoomState {
            participants: post.participants,
            device_caps_by_conn: post.device_caps_by_conn,
            e2ee_epochs: post.e2ee_epochs,
            key_rotation_ack_epochs: post.key_rotation_ack_epochs,
            host_conn_id: host,
            co_host_conn_ids: post.co_host_conn_ids,
            permissions_epoch: post.permissions_epoch,
            presence_sequence: post.presence_sequence,
            ..pre
        })
        &&& out.room_empty == empty
        &&& out.anonymous_mode == pre.anonymous_mode
        &&& out.host_changed == host_moves
        &&& out.left_participant_id == if left {
            Some(pre.participants@[conn_id].participant_id)
        } else {
            None
        }
        &&& out.left_participant_handle == if left {
            pre.participants@[conn_id].participant_handle
        } else {
            None
        }
        &&& match out.presence_delta {
            None => !announce,
            Some(d) => {
                &&& announce
                &&& d.at_ms == at_ms
                &&& d.sequence == post.presence_sequence
                &&& d.joined@.len() == 0
                &&& d.role_changes@.len() == 0
                &&& d.left@ == seq![
                    ParticipantLeftFrame {
                        at_ms,
                        participant_id: pre.participants@[conn_id].participant_id,
                    },
                ]
            },
        }
    }

/// Removes a closed connection from its room: its state, device
/// capabilities, co-host binding and key epochs go. When the room is left
/// empty nothing else happens (the room itself goes). Otherwise, in a
/// transparent room, a departing host is replaced by the smallest remaining
/// connection (co-hosts re-derived, permissions epoch moved on), and a
/// departing participant is announced in a presence delta with the next
/// presence sequence.
pub fn remove_connection(room: &mut RoomState, conn_id: u64, at_ms: u64) -> (out: DisconnectOutcome)
    ensures
        spec_disconnect_outcome(*old(room), conn_id, at_ms, *final(room), out),
{
    let left = room.participants.remove(&conn_id);
    room.device_caps_by_conn.remove(&conn_id);
    room.co_host_conn_ids.remove(&conn_id);
    room.e2ee_epochs.remove(&conn_id);
    room.key_rotation_ack_epochs.remove(&conn_id);
    let (left_id, left_handle) = match &left {
        Some(p) => (Some(p.participant_id.clone()), copy_opt_text(&p.participant_handle)),
        None => (None, None),
    };
    let anonymous_mode = room.anonymous_mode;
    if room.participants.is_empty() {
        return DisconnectOutcome {
            left_participant_id: left_id,
            left_participant_handle: left_handle,
            room_empty: true,
            host_changed: false,
            anonymous_mode,
            presence_delta: None,
        };
    }
    let mut host_changed = false;
    if !room.anonymous_mode && room.host_conn_id == Some(conn_id) {
        room.host_conn_id = min_conn(&room.participants);
        sync_active_co_host_bindings(room);
        room.permissions_epoch = bump(room.permissions_epoch);
        host_changed = true;
    }
    let mut presence_delta = None;
    if !room.anonymous_mode {
        match &left_id {
            Some(participant_id) => {
                room.presence_sequence = bump(room.presence_sequence);
                let entry = ParticipantLeftFrame { at_ms, participant_id: participant_id.clone() };
                let delta = ParticipantPresenceDeltaFrame {
                    at_ms,
                    sequence: room.presence_sequence,
                    joined: Vec::new(),
                    left: vec![entry],
                    role_changes: Vec::new(),
                };
                assert(delta.left@ =~= seq![entry]);
                presence_delta = Some(delta);
            },
            None => {},
        }
    }
    DisconnectOutcome {
        left_participant_id: left_id,
        left_participant_handle: left_handle,
        room_empty: false,
        host_changed,
        anonymous_mode,
        presence_delta,
    }
}

/// What a hello decided for the connection.
pub enum HelloOutcome {
    /// The room is anonymous; transparent hellos are refused.
    ModeConflict,
    /// The join rules refused it, with the reason.
    Denied(String),
    /// The connection is unknown to the room.
    Missing,
    /// The connection waits for admission, with the notice for it and the
    /// moderators.
    Waiting(String),
    /// The connection joined: its snapshot and the presence delta that
    /// announces it.
    Joined(ParticipantSnapshot, ParticipantPresenceDeltaFrame),
}

/// Whether a connection or participant id can moderate, given the room's
/// role bindings.
pub open spec fn spec_can_moderate_with(
    host_conn_id: Option<u64>,
    co_hosts: Set<u64>,
    host_role_owner: Option<String>,
    owners: Set<Seq<char>>,
    conn_id: u64,
    participant_id: Seq<char>,
) -> bool {
    host_conn_id == Some(conn_id) || co_hosts.contains(conn_id) || (host_role_owner matches Some(o)
        && o@ == participant_id) || owners.contains(participant_id)
}

/// A connection's state once its hello is taken: the hello's identity and
/// media flags, transparent mode, no anonymous keys or escrow, and either
/// joined or waiting for admission.
pub open spec fn spec_hello_state(p: ParticipantState, hello: HelloFrame, waiting: bool) -> ParticipantState {
    ParticipantState {
        participant_id: hello.participant_id,
        display_name: hello.display_name,
        participant_handle: None,
        x25519_pubkey_hex: None,
        x25519_epoch: 0,
        anonymous_mode: false,
        mic_enabled: hello.mic_enabled,
        video_enabled: hello.video_enabled,
        screen_share_enabled: hello.screen_share_enabled,
        waiting_room_pending: waiting,
        hello_seen: !waiting,
        last_escrow_proof_at_ms: None,
        escrow_id: None,
        ..p
    }
}

/// Makes a connection host, and its participant id the host-role owner,
/// when the room has no host yet.
fn claim_host_if_unset(room: &mut RoomState, conn_id: u64, participant_id: &String)
    ensures
        ({
            let claims = old(room).host_conn_id is None;
            &&& final(room).host_conn_id == if claims {
                Some(conn_id)
            } else {
                old(room).host_conn_id
            }
            &&& final(room).host_role_owner == if claims {
                Some(*participant_id)
            } else {
                old(room).host_role_owner
            }
            &&& final(room).co_host_conn_ids@ == if claims {
                spec_active_co_hosts(
                    old(room).participants@,
                    Some(conn_id),
                    old(room).co_host_role_owners@,
                )
            } else {
                old(room).co_host_conn_ids@
            }
            &&& final(room).permissions_epoch == if claims {
                spec_bump(old(room).permissions_epoch)
            } else {
                old(room).permissions_epoch
            }
            &&& *final(room) == (RoomState {
                host_conn_id: final(room).host_conn_id,
                host_role_owner: final(room).host_role_owner,
                co_host_conn_ids: final(room).co_host_conn_ids,
                permissions_epoch: final(room).permissions_epoch,
                ..*old(room)
            })
        }),
{
    if room.host_conn_id.is_none() {
        room.host_conn_id = Some(conn_id);
        room.host_role_owner = Some(participant_id.clone());
        sync_active_co_host_bindings(room);
        room.permissions_epoch = bump(room.permissions_epoch);
    }
}

/// What a transparent hello from `conn_id` at `at_ms` does to the room
/// `pre`: the room `post` and the outcome `out`. An anonymous room refuses
/// it, and so do the join rules. Otherwise the first hello of a hostless
/// room makes the connection host and its participant id the host-role
/// owner. A new connection that cannot moderate is sent to the waiting room
/// when the room has one; any other joins: it gets a key epoch slot, takes
/// back its roles, and the presence sequence moves on.
pub open spec fn spec_hello_outcome(
    pre: RoomState,
    conn_id: u64,
    hello: HelloFrame,
    at_ms: u64,
    post: RoomState,
    out: HelloOutcome,
) -> bool {
    &&& (pre.anonymous_mode ==> (out is ModeConflict && post == pre))
    &&& (!pre.anonymous_mode && spec_join_error(
            pre,
            conn_id,
            hello.participant_id@,
        ) is Some ==> (out matches HelloOutcome::Denied(e) && opt_text(Some(e)) == spec_join_error(
            pre,
            conn_id,
            hello.participant_id@,
        ) && post == pre))
    &&& (!pre.anonymous_mode && spec_join_error(
            pre,
            conn_id,
            hello.participant_id@,
        ) is None ==> ({
            let pid = hello.participant_id@;
            let ps = pre.participants@;
            let claims = pre.host_conn_id is None;
            let host = if claims {
                Some(conn_id)
            } else {
                pre.host_conn_id
            };
            let owner = if claims {
                Some(hello.participant_id)
            } else {
                pre.host_role_owner
            };
            let co = if claims {
                spec_active_co_hosts(ps, host, pre.co_host_role_owners@)
            } else {
                pre.co_host_conn_ids@
            };
            let perm = if claims {
                spec_bump(pre.permissions_epoch)
            } else {
                pre.permissions_epoch
            };
            let already_joined = ps.contains_key(conn_id) && ps[conn_id].hello_seen;
            let waiting = !already_joined && pre.waiting_room_enabled && !spec_can_moderate_with(
                host,
                co,
                owner,
                pre.co_host_role_owners@,
                conn_id,
                pid,
            );
            &&& post.host_role_owner == owner
            &&& !ps.contains_key(conn_id) ==> (out is Missing && post.host_conn_id == host
                && post.co_host_conn_ids@ == co && post.permissions_epoch == perm
                && post == (RoomState {
                host_conn_id: host,
                host_role_owner: owner,
                co_host_conn_ids: post.co_host_conn_ids,
                permissions_epoch: perm,
                ..pre
            }))
            &&& ps.contains_key(conn_id) ==> {
                let joined = spec_hello_state(ps[conn_id], hello, waiting);
                let participants = ps.insert(conn_id, joined);
                &&& post.participants@ == participants
                &&& waiting ==> {
                    &&& out matches HelloOutcome::Waiting(notice) && notice@
                        == "waiting room: pending admission for participant_id="@ + pid
                    &&& post.host_conn_id == host
                    &&& post.co_host_conn_ids@ == co
                    &&& post.permissions_epoch == perm
                    &&& post == (RoomState {
                        participants: post.participants,
                        host_conn_id: host,
                        host_role_owner: owner,
                        co_host_conn_ids: post.co_host_conn_ids,
                        permissions_epoch: perm,
                        ..pre
                    })
                }
                &&& !waiting ==> {
                    let host2 = spec_restored_host(owner, host, conn_id, pid);
                    let changed = spec_restore_changed(
                        participants,
                        owner,
                        host,
                        co,
                        pre.co_host_role_owners@,
                        conn_id,
                        pid,
                    );
                    &&& post.e2ee_epochs@ == if pre.e2ee_epochs@.contains_key(conn_id) {
                        pre.e2ee_epochs@
                    } else {
                        pre.e2ee_epochs@.insert(conn_id, 0)
                    }
                    &&& post.host_conn_id == host2
                    &&& post.co_host_conn_ids@ == spec_active_co_hosts(
                        participants,
                        host2,
                        pre.co_host_role_owners@,
                    )
                    &&& post.permissions_epoch == if changed {
                        spec_bump(perm)
                    } else {
                        perm
                    }
                    &&& post.presence_sequence == spec_bump(pre.presence_sequence)
                    &&& post == (RoomState {
                        participants: post.participants,
                        e2ee_epochs: post.e2ee_epochs,
                        host_conn_id: host2,
                        host_role_owner: owner,
                        co_host_conn_ids: post.co_host_conn_ids,
                        permissions_epoch: post.permissions_epoch,
                        presence_sequence: post.presence_sequence,
                        ..pre
                    })
                    &&& out matches HelloOutcome::Joined(snapshot, delta) && snapshot
                        == spec_snapshot(joined, at_ms) && delta.at_ms == at_ms && delta.sequence
                        == post.presence_sequence && delta.joined@ == seq![
                        spec_snapshot(joined, at_ms),
                    ] && delta.left@.len() == 0 && delta.role_changes@.len() == 0
                }
            }
        }))
}

/// Takes a transparent hello whose media flags are already off.
#[verifier::rlimit(60)]
pub fn apply_hello(room: &mut RoomState, conn_id: u64, hello: &HelloFrame, at_ms: u64) -> (out:
    HelloOutcome)
    ensures
        spec_hello_outcome(*old(room), conn_id, *hello, at_ms, *final(room), out),
{
    if room.anonymous_mode {
        return HelloOutcome::ModeConflict;
    }
    match validate_join_allowed(room, conn_id, hello.participant_id.as_str()) {
        Some(reason) => {
            return HelloOutcome::Denied(reason);
        },
        None => {},
    }
    claim_host_if_unset(room, conn_id, &hello.participant_id);
    let mut joined = match room.participants.get(&conn_id) {
        Some(p) => p.copy(),
        None => {
            return HelloOutcome::Missing;
        },
    };
    let already_joined = joined.hello_seen;
    let has_moderation_role = conn_or_participant_can_moderate(
        room,
        conn_id,
        hello.participant_id.as_str(),
    );
    let waiting = !already_joined && room.waiting_room_enabled && room.host_conn_id.is_some()
        && !has_moderation_role;
    joined.participant_id = hello.participant_id.clone();
    joined.display_name = copy_opt_text(&hello.display_name);
    joined.participant_handle = None;
    joined.x25519_pubkey_hex = None;
    joined.x25519_epoch = 0;
    joined.anonymous_mode = false;
    joined.mic_enabled = hello.mic_enabled;
    joined.video_enabled = hello.video_enabled;
    joined.screen_share_enabled = hello.screen_share_enabled;
    joined.waiting_room_pending = waiting;
    joined.hello_seen = !waiting;
    joined.last_escrow_proof_at_ms = None;
    joined.escrow_id = None;
    if waiting {
        room.participants.insert(conn_id, joined);
        let mut notice = "waiting room: pending admission for participant_id=".to_owned();
        notice.append(hello.participant_id.as_str());
        return HelloOutcome::Waiting(notice);
    }
    let snapshot = participant_snapshot_from_state(&joined, at_ms);
    let announced = participant_snapshot_from_state(&joined, at_ms);
    room.participants.insert(conn_id, joined);
    if !room.e2ee_epochs.contains_key(&conn_id) {
        room.e2ee_epochs.insert(conn_id, 0);
    }
    if restore_reserved_roles_on_join(room, conn_id, hello.participant_id.as_str()) {
        room.permissions_epoch = bump(room.permissions_epoch);
    }
    room.presence_sequence = bump(room.presence_sequence);
    let delta = ParticipantPresenceDeltaFrame {
        at_ms,
        sequence: room.presence_sequence,
        joined: vec![announced],
        left: Vec::new(),
        role_changes: Vec::new(),
    };
    assert(delta.joined@ =~= seq![announced]);
    HelloOutcome::Joined(snapshot, delta)
}

/// A hello as the room takes it: mic, video and screen share off.
pub open spec fn spec_join_hello(hello: HelloFrame) -> HelloFrame {
    HelloFrame { mic_enabled: false, video_enabled: false, screen_share_enabled: false, ..hello }
}

/// Takes a hello from `conn_id` at `at_ms`: refused for another protocol
/// version, the room unchanged; otherwise its media flags are forced off
/// (the flag says whether any was on) and the room takes it.
pub fn receive_hello(room: &mut RoomState, conn_id: u64, hello: HelloFrame, at_ms: u64) -> (r: Result<
    (HelloOutcome, bool),
    String,
>)
    ensures
        hello.protocol_version != PROTOCOL_VERSION ==> (r matches Err(e) && e@
            == "unsupported protocol_version "@ + spec_decimal(hello.protocol_version as nat)
            && *final(room) == *old(room)),
        hello.protocol_version == PROTOCOL_VERSION ==> (r matches Ok((out, forced)) && forced == (
        hello.mic_enabled || hello.video_enabled || hello.screen_share_enabled) && spec_hello_outcome(
            *old(room),
            conn_id,
            spec_join_hello(hello),
            at_ms,
            *final(room),
            out,
        )),
{
    if hello.protocol_version != PROTOCOL_VERSION {
        let mut m = "unsupported protocol_version ".to_owned();
        push_decimal(&mut m, hello.protocol_version as u64);
        return Err(m);
    }
    let mut hello = hello;
    let forced = enforce_join_media_defaults(&mut hello);
    let out = apply_hello(room, conn_id, &hello, at_ms);
    Ok((out, forced))
}

/// The number of connections other than `conn_id`, among the states in
/// table order, that share their screen.
pub open spec fn spec_other_sharing(keys: Seq<u64>, vals: Seq<ParticipantState>, conn_id: u64) -> nat
    decreases keys.len(),
{
    if keys.len() == 0 || vals.len() == 0 {
        0
    } else {
        spec_other_sharing(keys.drop_last(), vals.drop_last(), conn_id) + if keys.last() != conn_id
            && vals.last().screen_share_enabled {
            1nat
        } else {
            0nat
        }
    }
}

/// An entry of a connection other than `conn_id` that shares its screen.
pub open spec fn other_sharing_entry(conn_id: u64) -> spec_fn(u64, ParticipantState) -> bool {
    |c: u64, p: ParticipantState| c != conn_id && p.screen_share_enabled
}

proof fn lemma_other_sharing_by_entries(keys: Seq<u64>, vals: Seq<ParticipantState>, conn_id: u64)
    ensures
        spec_other_sharing(keys, vals, conn_id) == count_entries(keys, vals, other_sharing_entry(conn_id)),
    decreases keys.len(),
{
    if keys.len() > 0 && vals.len() > 0 {
        lemma_other_sharing_by_entries(keys.drop_last(), vals.drop_last(), conn_id);
    }
}

/// The number of other sharers that the screen-share cap is held against,
/// taken over the room's table in order, is the number of connections other
/// than `conn_id` in its participant map that share their screen.
pub proof fn lemma_other_sharing_counts_sharing_connections(room: RoomState, conn_id: u64)
    requires
        table_layout(room.participants),
    ensures
        spec_other_sharing(room.participants.key_seq(), room.participants.val_seq(), conn_id)
            == room.participants@.dom().filter(
            |c: u64| c != conn_id && room.participants@[c].screen_share_enabled,
        ).len(),
{
    lemma_other_sharing_by_entries(room.participants.key_seq(), room.participants.val_seq(), conn_id);
    lemma_count_entries_matches_map(room.participants, other_sharing_entry(conn_id));
    assert(keys_where(room.participants@, other_sharing_entry(conn_id)) =~= room.participants@.dom().filter(
        |c: u64| c != conn_id && room.participants@[c].screen_share_enabled,
    ));
}

fn other_sharing(room: &RoomState, conn_id: u64) -> (r: usize)
    ensures
        r == spec_other_sharing(room.participants.key_seq(), room.participants.val_seq(), conn_id),
{
    let n = room.participants.len();
    let ghost keys = room.participants.key_seq();
    let ghost vals = room.participants.val_seq();
    let mut count: usize = 0;
    let mut i: usize = 0;
    while i < n
        invariant
            i <= n,
            n == keys.len(),
            n == vals.len(),
            keys == room.participants.key_seq(),
            vals == room.participants.val_seq(),
            count <= i,
            count == spec_other_sharing(
                keys.subrange(0, i as int),
                vals.subrange(0, i as int),
                conn_id,
            ),
        decreases n - i,
    {
        let c = room.participants.key_at(i);
        let p = room.participants.value_at(i);
        proof {
            assert(keys.subrange(0, i + 1).drop_last() =~= keys.subrange(0, i as int));
            assert(vals.subrange(0, i + 1).drop_last() =~= vals.subrange(0, i as int));
        }
        if c != conn_id && p.screen_share_enabled {
            count = count + 1;
        }
        i = i + 1;
    }
    proof {
        assert(keys.subrange(0, n as int) =~= keys);
        assert(vals.subrange(0, n as int) =~= vals);
    }
    count
}

/// What a participant-state frame decided.
pub enum StateUpdateOutcome {
    /// Refused, with the message for the sender.
    Refused(String),
    /// From an unknown connection: nothing to do.
    Ignored,
    /// Applied: the notice when a screen share was denied, and the snapshot
    /// to broadcast.
    Updated(Option<String>, ParticipantSnapshot),
}

/// The room's screen-share cap, at least one.
pub open spec fn spec_share_cap(room: RoomState) -> u8 {
    if room.max_screen_shares < 1 {
        1
    } else {
        room.max_screen_shares
    }
}

/// What a participant-state update from `conn_id` at `at_ms` does to the
/// room `pre`: the room `post` and the outcome `out`. Refused in an
/// anonymous room, before the hello, or without a required E2EE key; an
/// unknown connection is ignored. Otherwise each given flag is taken,
/// except that turning screen share on is denied, with a notice, when the
/// other connections already share up to the cap.
pub open spec fn spec_state_update_outcome(
    pre: RoomState,
    conn_id: u64,
    update: ParticipantStateFrame,
    at_ms: u64,
    post: RoomState,
    out: StateUpdateOutcome,
) -> bool {
        let ps = pre.participants@;
        if pre.anonymous_mode {
            out matches StateUpdateOutcome::Refused(e) && e@
                == "anonymous mode requires EncryptedControl frames"@ && post == pre
        } else if !ps.contains_key(conn_id) {
            out is Ignored && post == pre
        } else if !ps[conn_id].hello_seen {
            out matches StateUpdateOutcome::Refused(e) && e@ == "send Hello first"@ && post == pre
        } else if pre.e2ee_required && (!pre.e2ee_epochs@.contains_key(conn_id)
            || pre.e2ee_epochs@[conn_id] == 0) {
            out matches StateUpdateOutcome::Refused(e) && e@
                == "e2ee required: publish E2EEKeyEpoch before plaintext control"@ && post
                == pre
        } else {
            let p = ps[conn_id];
            let cap = spec_share_cap(pre);
            let share_denied = update.screen_share_enabled == Some(true)
                && !p.screen_share_enabled && spec_other_sharing(
                pre.participants.key_seq(),
                pre.participants.val_seq(),
                conn_id,
            ) >= cap;
            let share = match update.screen_share_enabled {
                Some(v) => if share_denied {
                    p.screen_share_enabled
                } else {
                    v
                },
                None => p.screen_share_enabled,
            };
            let next = ParticipantState {
                mic_enabled: match update.mic_enabled {
                    Some(v) => v,
                    None => p.mic_enabled,
                },
                video_enabled: match update.video_enabled {
                    Some(v) => v,
                    None => p.video_enabled,
                },
                screen_share_enabled: share,
                ..p
            };
            &&& post.participants@ == ps.insert(conn_id, next)
            &&& post == (RoomState { participants: post.participants, ..pre })
            &&& out matches StateUpdateOutcome::Updated(notice, snapshot) && snapshot
                == spec_snapshot(next, at_ms) && opt_text(notice) == if share_denied {
                Some(
                    "screen share denied: max_screen_shares="@ + spec_decimal(cap as nat)
                        + " already in use"@,
                )
            } else {
                None
            }
        }
    }

/// Applies a participant's media-state frame in a transparent room. A
/// connection must have joined and, where E2EE is required, published a
/// key epoch. Mic and video follow the frame; turning a screen share on is
/// allowed while fewer other connections than the room's cap share (or it
/// is already on) and is otherwise denied with a notice.
pub fn apply_participant_state_update(
    room: &mut RoomState,
    conn_id: u64,
    update: &ParticipantStateFrame,
    at_ms: u64,
) -> (out: StateUpdateOutcome)
    ensures
        spec_state_update_outcome(*old(room), conn_id, *update, at_ms, *final(room), out),
{
    if room.anonymous_mode {
        return StateUpdateOutcome::Refused("anonymous mode requires EncryptedControl frames".to_owned());
    }
    let mut next = match room.participants.get(&conn_id) {
        Some(p) => p.copy(),
        None => {
            return StateUpdateOutcome::Ignored;
        },
    };
    if !next.hello_seen {
        return StateUpdateOutcome::Refused("send Hello first".to_owned());
    }
    let epoch = match room.e2ee_epochs.get(&conn_id) {
        Some(e) => *e,
        None => 0,
    };
    if room.e2ee_required && epoch == 0 {
        return StateUpdateOutcome::Refused(
            "e2ee required: publish E2EEKeyEpoch before plaintext control".to_owned(),
        );
    }
    let cap: u8 = if room.max_screen_shares < 1 {
        1
    } else {
        room.max_screen_shares
    };
    let mut notice: Option<String> = None;
    match update.screen_share_enabled {
        Some(true) => {
            if !next.screen_share_enabled {
                let active = other_sharing(room, conn_id);
                if active >= cap as usize {
                    let mut m = "screen share denied: max_screen_shares=".to_owned();
                    push_decimal(&mut m, cap as u64);
                    m.append(" already in use");
                    notice = Some(m);
                } else {
                    next.screen_share_enabled = true;
                }
            }
        },
        Some(false) => {
            next.screen_share_enabled = false;
        },
        None => {},
    }
    match update.mic_enabled {
        Some(v) => {
            next.mic_enabled = v;
        },
        None => {},
    }
    match update.video_enabled {
        Some(v) => {
            next.video_enabled = v;
        },
        None => {},
    }
    let snapshot = participant_snapshot_from_state(&next, at_ms);
    room.participants.insert(conn_id, next);
    StateUpdateOutcome::Updated(notice, snapshot)
}

/// The handle text inside an optional handle equals `handle`.
pub open spec fn spec_handle_is(h: Option<String>, handle: Seq<char>) -> bool {
    opt_text(h) == Some(handle)
}

fn handle_is(h: &Option<String>, handle: &str) -> (r: bool)
    ensures
        r == spec_handle_is(*h, handle@),
{
    match h {
        Some(x) => same_text(x.as_str(), handle),
        None => false,
    }
}

/// Applies a group key update in an anonymous room: it must be well
/// formed and come from the joined anonymous connection that holds its
/// handle; then the key epoch policy decides. `Ok(true)` means the new key
/// was stored and the update is to be broadcast; `Ok(false)` means nothing
/// to do (an unknown connection, or an idempotent repeat).
pub fn apply_group_key_update(room: &mut RoomState, conn_id: u64, update: &GroupKeyUpdateFrame) -> (r:
    Result<bool, String>)
    ensures
        ({
            let ps = old(room).participants@;
            if !old(room).anonymous_mode {
                r matches Err(e) && e@ == "group key updates require anonymous room mode"@ && *final(room) == *old(room)
            } else if let Some(e) = spec_group_key_update_error(*update) {
                r matches Err(m) && m@ == e && *final(room) == *old(room)
            } else if !ps.contains_key(conn_id) {
                r == Ok::<bool, String>(false) && *final(room) == *old(room)
            } else if !ps[conn_id].hello_seen || !ps[conn_id].anonymous_mode {
                r matches Err(e) && e@ == "send AnonHello first"@ && *final(room) == *old(room)
            } else if !spec_handle_is(ps[conn_id].participant_handle, update.participant_handle@) {
                r matches Err(e) && e@ == "group key sender handle does not match connection"@
                    && *final(room) == *old(room)
            } else {
                let p = ps[conn_id];
                let decision = spec_group_key_update_decision(
                    p.x25519_epoch,
                    opt_text(p.x25519_pubkey_hex),
                    update.epoch,
                    update.x25519_pubkey_hex@,
                );
                match decision {
                    Err(e) => r matches Err(m) && m@ == e && *final(room) == *old(room),
                    Ok(false) => r == Ok::<bool, String>(false) && *final(room) == *old(room),
                    Ok(true) => r == Ok::<bool, String>(true) && final(room).participants@
                        == ps.insert(
                        conn_id,
                        ParticipantState {
                            x25519_pubkey_hex: Some(update.x25519_pubkey_hex),
                            x25519_epoch: update.epoch,
                            ..p
                        },
                    ) && *final(room) == (RoomState {
                        participants: final(room).participants,
                        ..*old(room)
                    }),
                }
            }
        }),
{
    if !room.anonymous_mode {
        return Err("group key updates require anonymous room mode".to_owned());
    }
    match validate_group_key_update_frame(update) {
        Some(e) => {
            return Err(e);
        },
        None => {},
    }
    let mut p = match room.participants.get(&conn_id) {
        Some(p) => p.copy(),
        None => {
            return Ok(false);
        },
    };
    if !p.hello_seen || !p.anonymous_mode {
        return Err("send AnonHello first".to_owned());
    }
    if !handle_is(&p.participant_handle, update.participant_handle.as_str()) {
        return Err("group key sender handle does not match connection".to_owned());
    }
    let current = match &p.x25519_pubkey_hex {
        Some(k) => Some(k.as_str()),
        None => None,
    };
    let decision = should_apply_group_key_update(
        p.x25519_epoch,
        current,
        update.epoch,
        update.x25519_pubkey_hex.as_str(),
    );
    match decision {
        Ok(true) => {
            p.x25519_pubkey_hex = Some(update.x25519_pubkey_hex.clone());
            p.x25519_epoch = update.epoch;
            room.participants.insert(conn_id, p);
            Ok(true)
        },
        Ok(false) => Ok(false),
        Err(e) => Err(e),
    }
}

/// Checks an encrypted control frame in an anonymous room: well formed,
/// from the joined anonymous connection holding the sender handle, at that
/// connection's key epoch, to recipients on the anonymous roster.
/// `Ok(true)` means broadcast it; `Ok(false)`, from an unknown connection,
/// means drop it.
pub fn check_encrypted_control(room: &RoomState, conn_id: u64, enc: &EncryptedControlFrame) -> (r:
    Result<bool, String>)
    ensures
        ({
            let ps = room.participants@;
            if !room.anonymous_mode {
                r matches Err(e) && e@ == "encrypted control frames require anonymous room mode"@
            } else if let Some(e) = spec_encrypted_control_error(*enc) {
                r matches Err(m) && m@ == e
            } else if !ps.contains_key(conn_id) {
                r == Ok::<bool, String>(false)
            } else if !ps[conn_id].hello_seen || !ps[conn_id].anonymous_mode {
                r matches Err(e) && e@ == "send AnonHello first"@
            } else if !spec_handle_is(ps[conn_id].participant_handle, enc.sender_handle@) {
                r matches Err(e) && e@ == "encrypted sender handle does not match connection"@
            } else if let Some(e) = spec_encrypted_control_epoch_error(
                enc.epoch,
                ps[conn_id].x25519_epoch,
            ) {
                r matches Err(m) && m@ == e
            } else if let Some(e) = spec_room_recipients_error(*enc, *room) {
                r matches Err(m) && m@ == e
            } else {
                r == Ok::<bool, String>(true)
            }
        }),
{
    if !room.anonymous_mode {
        return Err("encrypted control frames require anonymous room mode".to_owned());
    }
    match validate_encrypted_control_frame(enc) {
        Some(e) => {
            return Err(e);
        },
        None => {},
    }
    let p = match room.participants.get(&conn_id) {
        Some(p) => p,
        None => {
            return Ok(false);
        },
    };
    if !p.hello_seen || !p.anonymous_mode {
        return Err("send AnonHello first".to_owned());
    }
    if !handle_is(&p.participant_handle, enc.sender_handle.as_str()) {
        return Err("encrypted sender handle does not match connection".to_owned());
    }
    match validate_encrypted_control_epoch(enc.epoch, p.x25519_epoch) {
        Some(e) => {
            return Err(e);
        },
        None => {},
    }
    match validate_encrypted_control_room_recipients(enc, room) {
        Some(e) => {
            return Err(e);
        },
        None => {},
    }
    Ok(true)
}

/// Takes an escrow proof from an anonymous connection at `now_ms`. `None`
/// for an unknown connection; otherwise whether it was accepted and why
/// not. An accepted proof refreshes the connection's escrow clock and, the
/// first time, records its escrow id.
pub fn apply_escrow_proof(
    room: &mut RoomState,
    conn_id: u64,
    proof: &EscrowProofFrame,
    now_ms: u64,
) -> (r: Option<(bool, Option<String>)>)
    ensures
        ({
            let ps = old(room).participants@;
            if !ps.contains_key(conn_id) {
                r is None && *final(room) == *old(room)
            } else {
                let p = ps[conn_id];
                let refusal: Option<Seq<char>> = if !old(room).anonymous_mode || !p.anonymous_mode {
                    Some("escrow proofs require anonymous room mode"@)
                } else if !p.hello_seen {
                    Some("send AnonHello first"@)
                } else if !spec_handle_is(p.participant_handle, proof.payer_handle@) {
                    Some("escrow proof payer handle does not match connection"@)
                } else if spec_escrow_proof_error(*proof) is Some {
                    spec_escrow_proof_error(*proof)
                } else {
                    spec_escrow_id_consistency_error(opt_text(p.escrow_id), proof.escrow_id@)
                };
                match refusal {
                    Some(e) => r matches Some((accepted, Some(m))) && !accepted && m@ == e
                        && *final(room) == *old(room),
                    None => r matches Some((accepted, None)) && accepted
                        && final(room).participants@ == ps.insert(
                        conn_id,
                        ParticipantState {
                            last_escrow_proof_at_ms: Some(now_ms),
                            escrow_id: if p.escrow_id is Some {
                                p.escrow_id
                            } else {
                                Some(proof.escrow_id)
                            },
                            ..p
                        },
                    ) && *final(room) == (RoomState {
                        participants: final(room).participants,
                        ..*old(room)
                    }),
                }
            }
        }),
{
    let mut p = match room.participants.get(&conn_id) {
        Some(p) => p.copy(),
        None => {
            return None;
        },
    };
    if !room.anonymous_mode || !p.anonymous_mode {
        return Some((false, Some("escrow proofs require anonymous room mode".to_owned())));
    }
    if !p.hello_seen {
        return Some((false, Some("send AnonHello first".to_owned())));
    }
    if !handle_is(&p.participant_handle, proof.payer_handle.as_str()) {
        return Some((false, Some("escrow proof payer handle does not match connection".to_owned())));
    }
    match validate_escrow_proof_frame(proof) {
        Some(e) => {
            return Some((false, Some(e)));
        },
        None => {},
    }
    let current = match &p.escrow_id {
        Some(e) => Some(e.as_str()),
        None => None,
    };
    match validate_escrow_id_consistency(current, proof.escrow_id.as_str()) {
        Some(e) => {
            return Some((false, Some(e)));
        },
        None => {},
    }
    p.last_escrow_proof_at_ms = Some(now_ms);
    if p.escrow_id.is_none() {
        p.escrow_id = Some(proof.escrow_id.clone());
    }
    room.participants.insert(conn_id, p);
    Some((true, None))
}

/// The first error wins: `first` if there is one, else `second`.
pub open spec fn spec_first_error(first: Option<Seq<char>>, second: Option<Seq<char>>) -> Option<
    Seq<char>,
> {
    if first is Some {
        first
    } else {
        second
    }
}

/// Why a known sender may not publish a frame about `participant_id`: it
/// has not joined, or names someone else.
pub open spec fn spec_sender_error(p: ParticipantState, participant_id: Seq<char>) -> Option<
    Seq<char>,
> {
    if !p.hello_seen {
        Some("send Hello first"@)
    } else if p.participant_id@ != participant_id {
        Some("participant_id must match sender participant_id"@)
    } else {
        None
    }
}

fn sender_error(p: &ParticipantState, participant_id: &str) -> (r: Option<String>)
    ensures
        opt_text(r) == spec_sender_error(*p, participant_id@),
{
    if !p.hello_seen {
        Some("send Hello first".to_owned())
    } else if !same_text(p.participant_id.as_str(), participant_id) {
        Some("participant_id must match sender participant_id".to_owned())
    } else {
        None
    }
}

/// The epoch stored for a connection, zero when none is.
pub open spec fn spec_epoch_of(m: Map<u64, u64>, conn_id: u64) -> u64 {
    if m.contains_key(conn_id) {
        m[conn_id]
    } else {
        0
    }
}

/// Why an E2EE key epoch from a known sender is refused, before its clock.
pub open spec fn spec_key_epoch_refusal(room: RoomState, conn_id: u64, frame: E2EEKeyEpochFrame) -> Option<
    Seq<char>,
> {
    let current = spec_epoch_of(room.e2ee_epochs@, conn_id);
    spec_first_error(
        spec_first_error(
            spec_e2ee_key_epoch_error(frame),
            spec_sender_error(room.participants@[conn_id], frame.participant_id@),
        ),
        if frame.epoch <= current {
            Some(
                "e2ee key epoch must increase: current="@ + spec_decimal(current as nat) + " got="@
                    + spec_decimal(frame.epoch as nat),
            )
        } else {
            None
        },
    )
}

/// Takes a connection's E2EE key epoch in a transparent room: it must be
/// valid, from the joined connection it names, newer than the stored epoch,
/// and accepted by the signer's `e2ee_key_epoch` clock; then it becomes the
/// connection's epoch. `Ok(true)` means broadcast it; `Ok(false)`, from an
/// unknown connection, means drop it.
pub fn apply_e2ee_key_epoch(room: &mut RoomState, conn_id: u64, frame: &E2EEKeyEpochFrame) -> (r:
    Result<bool, String>)
    ensures
        ({
            let ps = old(room).participants@;
            if old(room).anonymous_mode {
                r matches Err(e) && e@ == "anonymous mode rejects plaintext e2ee key epochs"@
                    && *final(room) == *old(room)
            } else if !ps.contains_key(conn_id) {
                r == Ok::<bool, String>(false) && *final(room) == *old(room)
            } else if let Some(e) = spec_key_epoch_refusal(*old(room), conn_id, *frame) {
                r matches Err(m) && m@ == e && *final(room) == *old(room)
            } else {
                let key = spec_clock_key("e2ee_key_epoch"@, frame.participant_id@);
                let clock = old(room).signed_action_clock_by_signer@;
                if !spec_clock_accepts(clock, key, frame.sent_at_ms) {
                    r matches Err(m) && m@ == spec_clock_error(
                        clock,
                        "e2ee_key_epoch"@,
                        frame.participant_id@,
                        "sent_at_ms"@,
                        frame.sent_at_ms,
                    ) && *final(room) == *old(room)
                } else {
                    &&& r == Ok::<bool, String>(true)
                    &&& final(room).signed_action_clock_by_signer@ == clock.insert(
                        key,
                        frame.sent_at_ms,
                    )
                    &&& final(room).e2ee_epochs@ == old(room).e2ee_epochs@.insert(
                        conn_id,
                        frame.epoch,
                    )
                    &&& *final(room) == (RoomState {
                        signed_action_clock_by_signer: final(room).signed_action_clock_by_signer,
                        e2ee_epochs: final(room).e2ee_epochs,
                        ..*old(room)
                    })
                }
            }
        }),
{
    if room.anonymous_mode {
        return Err("anonymous mode rejects plaintext e2ee key epochs".to_owned());
    }
    let mut error = validate_e2ee_key_epoch_frame(frame);
    let sender = match room.participants.get(&conn_id) {
        Some(p) => sender_error(p, frame.participant_id.as_str()),
        None => {
            return Ok(false);
        },
    };
    if error.is_none() {
        error = sender;
    }
    let current = match room.e2ee_epochs.get(&conn_id) {
        Some(e) => *e,
        None => 0,
    };
    if error.is_none() && frame.epoch <= current {
        let mut m = "e2ee key epoch must increase: current=".to_owned();
        push_decimal(&mut m, current);
        m.append(" got=");
        push_decimal(&mut m, frame.epoch);
        error = Some(m);
    }
    match error {
        Some(e) => {
            return Err(e);
        },
        None => {},
    }
    enforce_signed_action_clock(
        room,
        "e2ee_key_epoch",
        frame.participant_id.as_str(),
        "sent_at_ms",
        frame.sent_at_ms,
    )?;
    room.e2ee_epochs.insert(conn_id, frame.epoch);
    Ok(true)
}

/// Why a key rotation acknowledgement from a known sender is refused,
/// before its clock: the sender must have joined and name itself, the
/// acknowledged epoch must be at least one, at most the sender's key epoch,
/// and newer than its last acknowledgement.
pub open spec fn spec_key_ack_refusal(room: RoomState, conn_id: u64, ack: KeyRotationAckFrame) -> Option<
    Seq<char>,
> {
    let current = spec_epoch_of(room.e2ee_epochs@, conn_id);
    let last = spec_epoch_of(room.key_rotation_ack_epochs@, conn_id);
    if let Some(e) = spec_sender_error(room.participants@[conn_id], ack.participant_id@) {
        Some(e)
    } else if ack.ack_epoch == 0 {
        Some("ack_epoch must be >= 1"@)
    } else if current == 0 || ack.ack_epoch > current {
        Some(
            "ack_epoch exceeds sender key epoch: sender_epoch="@ + spec_decimal(current as nat)
                + " ack_epoch="@ + spec_decimal(ack.ack_epoch as nat),
        )
    } else if ack.ack_epoch <= last {
        Some(
            "ack_epoch must increase: last="@ + spec_decimal(last as nat) + " got="@ + spec_decimal(
                ack.ack_epoch as nat,
            ) + " (stale/replay rejected)"@,
        )
    } else {
        None
    }
}

/// Takes a key rotation acknowledgement in a transparent room; once the
/// signer's `key_rotation_ack` clock accepts it, it becomes the
/// connection's last acknowledged epoch. `Ok(true)` means broadcast it;
/// `Ok(false)`, from an unknown connection, means drop it.
pub fn apply_key_rotation_ack(room: &mut RoomState, conn_id: u64, ack: &KeyRotationAckFrame) -> (r:
    Result<bool, String>)
    ensures
        ({
            let ps = old(room).participants@;
            if old(room).anonymous_mode {
                r matches Err(e) && e@ == "anonymous mode rejects plaintext key rotation acks"@
                    && *final(room) == *old(room)
            } else if !ps.contains_key(conn_id) {
                r == Ok::<bool, String>(false) && *final(room) == *old(room)
            } else if let Some(e) = spec_key_ack_refusal(*old(room), conn_id, *ack) {
                r matches Err(m) && m@ == e && *final(room) == *old(room)
            } else {
                let key = spec_clock_key("key_rotation_ack"@, ack.participant_id@);
                let clock = old(room).signed_action_clock_by_signer@;
                if !spec_clock_accepts(clock, key, ack.received_at_ms) {
                    r matches Err(m) && m@ == spec_clock_error(
                        clock,
                        "key_rotation_ack"@,
                        ack.participant_id@,
                        "received_at_ms"@,
                        ack.received_at_ms,
                    ) && *final(room) == *old(room)
                } else {
                    &&& r == Ok::<bool, String>(true)
                    &&& final(room).signed_action_clock_by_signer@ == clock.insert(
                        key,
                        ack.received_at_ms,
                    )
                    &&& final(room).key_rotation_ack_epochs@
                        == old(room).key_rotation_ack_epochs@.insert(conn_id, ack.ack_epoch)
                    &&& *final(room) == (RoomState {
                        signed_action_clock_by_signer: final(room).signed_action_clock_by_signer,
                        key_rotation_ack_epochs: final(room).key_rotation_ack_epochs,
                        ..*old(room)
                    })
                }
            }
        }),
{
    if room.anonymous_mode {
        return Err("anonymous mode rejects plaintext key rotation acks".to_owned());
    }
    let sender = match room.participants.get(&conn_id) {
        Some(p) => sender_error(p, ack.participant_id.as_str()),
        None => {
            return Ok(false);
        },
    };
    match sender {
        Some(e) => {
            return Err(e);
        },
        None => {},
    }
    if ack.ack_epoch == 0 {
        return Err("ack_epoch must be >= 1".to_owned());
    }
    let current = match room.e2ee_epochs.get(&conn_id) {
        Some(e) => *e,
        None => 0,
    };
    if current == 0 || ack.ack_epoch > current {
        let mut m = "ack_epoch exceeds sender key epoch: sender_epoch=".to_owned();
        push_decimal(&mut m, current);
        m.append(" ack_epoch=");
        push_decimal(&mut m, ack.ack_epoch);
        return Err(m);
    }
    let last = match room.key_rotation_ack_epochs.get(&conn_id) {
        Some(e) => *e,
        None => 0,
    };
    if ack.ack_epoch <= last {
        let mut m = "ack_epoch must increase: last=".to_owned();
        push_decimal(&mut m, last);
        m.append(" got=");
        push_decimal(&mut m, ack.ack_epoch);
        m.append(" (stale/replay rejected)");
        return Err(m);
    }
    enforce_signed_action_clock(
        room,
        "key_rotation_ack",
        ack.participant_id.as_str(),
        "received_at_ms",
        ack.received_at_ms,
    )?;
    room.key_rotation_ack_epochs.insert(conn_id, ack.ack_epoch);
    Ok(true)
}

/// What a payment frame decided.
pub enum PaymentOutcome {
    /// Refused, with the message for the sender.
    Refused(String),
    /// From an unknown connection: nothing to do.
    Ignored,
    /// Credited, with the acknowledgement to send.
    Acked(PaymentAckFrame),
}

/// The refusal of a payment without a valid transaction hash.
pub open spec fn spec_missing_hash_message() -> Seq<char> {
    "payment tx_hash_hex is required and must be 32-byte hex when room rate is non-zero"@
}

/// Takes a payment at `now_ms` in a transparent room. A connection without
/// a hello is refused and only has its billing cursor moved. A joined one
/// is first billed up to `now_ms`; when hashes are required and the room
/// rate is non-zero, a payment without a valid 32-byte transaction hash is
/// refused; otherwise the amount is credited (saturating) and acknowledged
/// with the new totals.
pub fn apply_payment(
    room: &mut RoomState,
    conn_id: u64,
    payment: &PaymentFrame,
    require_tx_hash: bool,
    now_ms: u64,
) -> (out: PaymentOutcome)
    ensures
        ({
            let ps = old(room).participants@;
            let rate = old(room).rate_per_minute_nano;
            if old(room).anonymous_mode {
                out matches PaymentOutcome::Refused(e) && e@
                    == "anonymous mode uses escrow proofs instead of payment frames"@ && *final(room)
                    == *old(room)
            } else if !ps.contains_key(conn_id) {
                out is Ignored && *final(room) == *old(room)
            } else {
                let p = ps[conn_id];
                let billed = spec_advance_billing(p, rate, now_ms);
                let hash_ok = payment.tx_hash_hex matches Some(h) && spec_is_valid_hex_len(h@, 32);
                &&& *final(room) == (RoomState { participants: final(room).participants, ..*old(room) })
                &&& if !p.hello_seen {
                    &&& out matches PaymentOutcome::Refused(e) && e@ == "send Hello first"@
                    &&& final(room).participants@ == ps.insert(
                        conn_id,
                        ParticipantState { last_billed_at_ms: now_ms, ..p },
                    )
                } else if require_tx_hash && rate > 0 && !hash_ok {
                    &&& out matches PaymentOutcome::Refused(e) && e@ == spec_missing_hash_message()
                    &&& final(room).participants@ == ps.insert(conn_id, billed)
                } else {
                    let credited = ParticipantState {
                        paid_nano_xor: spec_cap_u64(billed.paid_nano_xor + payment.amount_nano_xor),
                        last_payment_at_ms: Some(now_ms),
                        ..billed
                    };
                    &&& final(room).participants@ == ps.insert(conn_id, credited)
                    &&& out == PaymentOutcome::Acked(
                        PaymentAckFrame {
                            received_at_ms: now_ms,
                            amount_nano_xor: payment.amount_nano_xor,
                            total_paid_nano_xor: credited.paid_nano_xor,
                            total_billed_nano_xor: credited.billed_nano_xor,
                        },
                    )
                }
            }
        }),
{
    if room.anonymous_mode {
        return PaymentOutcome::Refused(
            "anonymous mode uses escrow proofs instead of payment frames".to_owned(),
        );
    }
    let mut p = match room.participants.get(&conn_id) {
        Some(p) => p.copy(),
        None => {
            return PaymentOutcome::Ignored;
        },
    };
    if !p.hello_seen {
        p.last_billed_at_ms = now_ms;
        room.participants.insert(conn_id, p);
        return PaymentOutcome::Refused("send Hello first".to_owned());
    }
    let rate = room.rate_per_minute_nano;
    advance_billing(&mut p, rate, now_ms);
    let hash_ok = match &payment.tx_hash_hex {
        Some(h) => is_valid_tx_hash_hex(h.as_str()),
        None => false,
    };
    if require_tx_hash && rate > 0 && !hash_ok {
        room.participants.insert(conn_id, p);
        return PaymentOutcome::Refused(
            "payment tx_hash_hex is required and must be 32-byte hex when room rate is non-zero".to_owned(),
        );
    }
    p.paid_nano_xor = if p.paid_nano_xor as u128 + payment.amount_nano_xor as u128 > u64::MAX as u128 {
        u64::MAX
    } else {
        p.paid_nano_xor + payment.amount_nano_xor
    };
    p.last_payment_at_ms = Some(now_ms);
    let ack = PaymentAckFrame {
        received_at_ms: now_ms,
        amount_nano_xor: payment.amount_nano_xor,
        total_paid_nano_xor: p.paid_nano_xor,
        total_billed_nano_xor: p.billed_nano_xor,
    };
    room.participants.insert(conn_id, p);
    PaymentOutcome::Acked(ack)
}

/// The presence delta that announces a role change, if there is one; the
/// room's presence sequence moves on for it.
pub fn announce_role_change(
    room: &mut RoomState,
    role_change: Option<RoleChangeEntry>,
    at_ms: u64,
) -> (r: Option<ParticipantPresenceDeltaFrame>)
    ensures
        match role_change {
            None => r is None && *final(room) == *old(room),
            Some(entry) => {
                &&& final(room).presence_sequence == spec_bump(old(room).presence_sequence)
                &&& *final(room) == (RoomState {
                    presence_sequence: final(room).presence_sequence,
                    ..*old(room)
                })
                &&& r matches Some(d) && d.at_ms == at_ms && d.sequence
                    == final(room).presence_sequence && d.joined@.len() == 0 && d.left@.len() == 0
                    && d.role_changes@ == seq![entry]
            },
        },
{
    match role_change {
        Some(entry) => {
            room.presence_sequence = bump(room.presence_sequence);
            Some(
                ParticipantPresenceDeltaFrame {
                    at_ms,
                    sequence: room.presence_sequence,
                    joined: Vec::new(),
                    left: Vec::new(),
                    role_changes: vec![entry],
                },
            )
        },
        None => None,
    }
}

/// An exact copy of a moderation target.
pub fn copy_target(t: &ModerationTarget) -> (r: ModerationTarget)
    ensures
        r == *t,
{
    match t {
        ModerationTarget::All => ModerationTarget::All,
        ModerationTarget::Participant(p) => ModerationTarget::Participant(p.clone()),
    }
}

/// Checks a signed moderation request in a transparent room: from a joined
/// moderator naming itself as issuer, with a 32-byte hex signature that
/// matches. Gives the plain moderation request to apply, or `None` for an
/// unknown connection.
pub fn check_moderation_signed(room: &RoomState, conn_id: u64, signed: &ModerationSignedFrame) -> (r:
    Result<Option<ModerationFrame>, String>)
    ensures
        ({
            let ps = room.participants@;
            if room.anonymous_mode {
                r matches Err(e) && e@ == "anonymous mode requires encrypted moderation payloads"@
            } else if !ps.contains_key(conn_id) {
                r matches Ok(None)
            } else if !ps[conn_id].hello_seen {
                r matches Err(e) && e@ == "send Hello first"@
            } else if !spec_can_moderate(*room, conn_id) {
                r matches Err(e) && e@ == "host/co-host only"@
            } else if ps[conn_id].participant_id@ != signed.issued_by@ {
                r matches Err(e) && e@ == "issued_by must match sender participant_id"@
            } else if !spec_is_valid_hex_len(signed.signature_hex@, 32) {
                r matches Err(e) && e@ == "signature_hex must be 32-byte hex"@
            } else if !spec_token_matches(
                "moderation"@,
                spec_moderation_payload(*signed),
                signed.signature_hex@,
            ) {
                r matches Err(e) && e@ == "signature_hex failed moderation_signed verification"@
            } else {
                r == Ok::<Option<ModerationFrame>, String>(
                    Some(
                        ModerationFrame {
                            sent_at_ms: signed.sent_at_ms,
                            target: signed.target,
                            action: signed.action,
                        },
                    ),
                )
            }
        }),
{
    if room.anonymous_mode {
        return Err("anonymous mode requires encrypted moderation payloads".to_owned());
    }
    let p = match room.participants.get(&conn_id) {
        Some(p) => p,
        None => {
            return Ok(None);
        },
    };
    if !p.hello_seen {
        return Err("send Hello first".to_owned());
    }
    if !can_moderate_conn(room, conn_id) {
        return Err("host/co-host only".to_owned());
    }
    if !same_text(p.participant_id.as_str(), signed.issued_by.as_str()) {
        return Err("issued_by must match sender participant_id".to_owned());
    }
    if !crate::codec::is_valid_hex_len(signed.signature_hex.as_str(), 32) {
        return Err("signature_hex must be 32-byte hex".to_owned());
    }
    if !moderation_signed_signature_is_valid(signed) {
        return Err("signature_hex failed moderation_signed verification".to_owned());
    }
    Ok(
        Some(
            ModerationFrame {
                sent_at_ms: signed.sent_at_ms,
                target: copy_target(&signed.target),
                action: signed.action,
            },
        ),
    )
}

/// Why a known sender's capability, profile or notice frame about
/// `participant_id` is refused: the frame's own error first, then the
/// sender checks.
pub open spec fn spec_plain_frame_refusal(
    frame_error: Option<Seq<char>>,
    p: ParticipantState,
    participant_id: Seq<char>,
) -> Option<Seq<char>> {
    spec_first_error(frame_error, spec_sender_error(p, participant_id))
}

/// Two capability reports say the same.
pub open spec fn spec_same_capability(a: DeviceCapabilityFrame, b: DeviceCapabilityFrame) -> bool {
    &&& a.reported_at_ms == b.reported_at_ms
    &&& a.participant_id == b.participant_id
    &&& a.codecs@ == b.codecs@
    &&& a.hdr_capture == b.hdr_capture
    &&& a.hdr_render == b.hdr_render
    &&& a.max_video_streams == b.max_video_streams
}

/// A copy of a device capability report.
pub fn copy_device_capability(cap: &DeviceCapabilityFrame) -> (r: DeviceCapabilityFrame)
    ensures
        spec_same_capability(r, *cap),
{
    let mut codecs: Vec<String> = Vec::new();
    let mut i: usize = 0;
    while i < cap.codecs.len()
        invariant
            i <= cap.codecs@.len(),
            codecs@ == cap.codecs@.subrange(0, i as int),
        decreases cap.codecs@.len() - i,
    {
        codecs.push(cap.codecs[i].clone());
        proof {
            assert(codecs@ =~= cap.codecs@.subrange(0, i + 1));
        }
        i = i + 1;
    }
    proof {
        assert(codecs@ =~= cap.codecs@);
    }
    DeviceCapabilityFrame {
        reported_at_ms: cap.reported_at_ms,
        participant_id: cap.participant_id.clone(),
        codecs,
        hdr_capture: cap.hdr_capture,
        hdr_render: cap.hdr_render,
        max_video_streams: cap.max_video_streams,
    }
}

/// Takes a device capability report in a transparent room: valid and from
/// the joined connection it names; then it is stored for that connection.
/// `Ok(true)` means broadcast it; `Ok(false)`, from an unknown connection,
/// means drop it.
pub fn apply_device_capability(room: &mut RoomState, conn_id: u64, cap: &DeviceCapabilityFrame) -> (r:
    Result<bool, String>)
    ensures
        ({
            let ps = old(room).participants@;
            if old(room).anonymous_mode {
                r matches Err(e) && e@ == "anonymous mode rejects plaintext device capabilities"@
                    && *final(room) == *old(room)
            } else if !ps.contains_key(conn_id) {
                r == Ok::<bool, String>(false) && *final(room) == *old(room)
            } else if let Some(e) = spec_plain_frame_refusal(
                spec_device_capability_error(*cap),
                ps[conn_id],
                cap.participant_id@,
            ) {
                r matches Err(m) && m@ == e && *final(room) == *old(room)
            } else {
                &&& r == Ok::<bool, String>(true)
                &&& final(room).device_caps_by_conn@.contains_key(conn_id)
                &&& spec_same_capability(final(room).device_caps_by_conn@[conn_id], *cap)
                &&& final(room).device_caps_by_conn@.remove(conn_id)
                    == old(room).device_caps_by_conn@.remove(conn_id)
                &&& *final(room) == (RoomState {
                    device_caps_by_conn: final(room).device_caps_by_conn,
                    ..*old(room)
                })
            }
        }),
{
    if room.anonymous_mode {
        return Err("anonymous mode rejects plaintext device capabilities".to_owned());
    }
    let mut error = validate_device_capability_frame(cap);
    let sender = match room.participants.get(&conn_id) {
        Some(p) => sender_error(p, cap.participant_id.as_str()),
        None => {
            return Ok(false);
        },
    };
    if error.is_none() {
        error = sender;
    }
    match error {
        Some(e) => Err(e),
        None => {
            room.device_caps_by_conn.insert(conn_id, copy_device_capability(cap));
            proof {
                assert(room.device_caps_by_conn@.remove(conn_id) =~= old(room).device_caps_by_conn@.remove(conn_id));
            }
            Ok(true)
        },
    }
}

/// Checks a media profile negotiation in a transparent room: valid and from
/// the joined connection it names. Gives the profile to broadcast, as the
/// room resolves it, or `None` for an unknown connection.
pub fn check_media_profile(
    room: &RoomState,
    conn_id: u64,
    profile: &MediaProfileNegotiationFrame,
) -> (r: Result<Option<MediaProfileNegotiationFrame>, String>)
    ensures
        ({
            let ps = room.participants@;
            if room.anonymous_mode {
                r matches Err(e) && e@ == "anonymous mode rejects plaintext media profile negotiation"@
            } else if !ps.contains_key(conn_id) {
                r matches Ok(None)
            } else if let Some(e) = spec_plain_frame_refusal(
                spec_media_profile_error(*profile),
                ps[conn_id],
                profile.participant_id@,
            ) {
                r matches Err(m) && m@ == e
            } else {
                r matches Ok(Some(resolved)) && resolved == (MediaProfileNegotiationFrame {
                    negotiated_profile: resolved.negotiated_profile,
                    ..*profile
                }) && (resolved.negotiated_profile == MediaProfileKind::Sdr
                    || resolved.negotiated_profile == profile.negotiated_profile)
            }
        }),
{
    if room.anonymous_mode {
        return Err("anonymous mode rejects plaintext media profile negotiation".to_owned());
    }
    let mut error = validate_media_profile_negotiation_frame(profile);
    let sender = match room.participants.get(&conn_id) {
        Some(p) => sender_error(p, profile.participant_id.as_str()),
        None => {
            return Ok(None);
        },
    };
    if error.is_none() {
        error = sender;
    }
    match error {
        Some(e) => Err(e),
        None => Ok(Some(resolve_media_profile_negotiation(room, conn_id, profile))),
    }
}

/// Checks a recording notice in a transparent room: valid, from the joined
/// connection it names, issued by that connection, and a start only where
/// the room allows local recording. `Ok(true)` means broadcast it;
/// `Ok(false)`, from an unknown connection, means drop it.
pub fn check_recording_notice(room: &RoomState, conn_id: u64, notice: &RecordingNoticeFrame) -> (r:
    Result<bool, String>)
    ensures
        ({
            let ps = room.participants@;
            if room.anonymous_mode {
                r matches Err(e) && e@ == "anonymous mode rejects plaintext recording notices"@
            } else if !ps.contains_key(conn_id) {
                r == Ok::<bool, String>(false)
            } else {
                let p = ps[conn_id];
                let sender: Option<Seq<char>> = if let Some(e) = spec_sender_error(
                    p,
                    notice.participant_id@,
                ) {
                    Some(e)
                } else if p.participant_id@ != notice.issued_by@ {
                    Some("issued_by must match sender participant_id"@)
                } else if notice.state == RecordingState::Started && !room.local_recording_allowed {
                    Some("local recording is disabled by room policy"@)
                } else {
                    None
                };
                match spec_first_error(spec_recording_notice_error(*notice), sender) {
                    Some(e) => r matches Err(m) && m@ == e,
                    None => r == Ok::<bool, String>(true),
                }
            }
        }),
{
    if room.anonymous_mode {
        return Err("anonymous mode rejects plaintext recording notices".to_owned());
    }
    let mut error = validate_recording_notice_frame(notice);
    let p = match room.participants.get(&conn_id) {
        Some(p) => p,
        None => {
            return Ok(false);
        },
    };
    let mut sender = sender_error(p, notice.participant_id.as_str());
    if sender.is_none() {
        if !same_text(p.participant_id.as_str(), notice.issued_by.as_str()) {
            sender = Some("issued_by must match sender participant_id".to_owned());
        } else {
            match notice.state {
                RecordingState::Started => {
                    if !room.local_recording_allowed {
                        sender = Some("local recording is disabled by room policy".to_owned());
                    }
                },
                RecordingState::Stopped => {},
            }
        }
    }
    if error.is_none() {
        error = sender;
    }
    match error {
        Some(e) => Err(e),
        None => Ok(true),
    }
}

/// What a room config update decided.
pub enum ConfigUpdateOutcome {
    /// Refused, with the message for the sender.
    Refused(String),
    /// From an unknown connection: nothing to do.
    Ignored,
    /// Applied: whether the config changed (to broadcast), and whether a
    /// zero rate was turned away because free calls are not allowed.
    Applied(bool, bool),
}

fn bill_all(room: &mut RoomState, rate: u64, now_ms: u64)
    ensures
        final(room).participants@.dom() == old(room).participants@.dom(),
        forall|c: u64| #[trigger]
            final(room).participants@.contains_key(c) ==> final(room).participants@[c]
                == spec_advance_billing(old(room).participants@[c], rate, now_ms),
        *final(room) == (RoomState { participants: final(room).participants, ..*old(room) }),
{
    let n = room.participants.len();
    let ghost ps0 = room.participants@;
    let ghost keys = room.participants.key_seq();
    let mut i: usize = 0;
    while i < n
        invariant
            i <= n,
            n == keys.len(),
            keys == room.participants.key_seq(),
            crate::hub::table::table_layout(room.participants),
            forall|j: int, k: int| 0 <= j < k < n ==> #[trigger] keys[j] != #[trigger] keys[k],
            room.participants@.dom() == ps0.dom(),
            forall|c: u64| #[trigger]
                room.participants@.contains_key(c) ==> room.participants@[c] == if keys.subrange(
                    0,
                    i as int,
                ).contains(c) {
                    spec_advance_billing(ps0[c], rate, now_ms)
                } else {
                    ps0[c]
                },
            *room == (RoomState { participants: room.participants, ..*old(room) }),
        decreases n - i,
    {
        let c = room.participants.key_at(i);
        let mut st = room.participants.value_at(i).copy();
        proof {
            assert(room.participants@[keys[i as int]] == room.participants.val_seq()[i as int]);
            if keys.subrange(0, i as int).contains(c) {
                let k = keys.subrange(0, i as int).index_of(c);
                assert(keys[k] == c);
            }
        }
        advance_billing(&mut st, rate, now_ms);
        room.participants.insert(c, st);
        proof {
            assert forall|x: u64|
                keys.subrange(0, i + 1).contains(x) == (keys.subrange(0, i as int).contains(x) || x
                    == c) by {
                if keys.subrange(0, i + 1).contains(x) {
                    let k = keys.subrange(0, i + 1).index_of(x);
                    if k < i {
                        assert(keys.subrange(0, i as int)[k] == x);
                    }
                }
                if keys.subrange(0, i as int).contains(x) {
                    let k = keys.subrange(0, i as int).index_of(x);
                    assert(keys.subrange(0, i + 1)[k] == x);
                }
                if x == c {
                    assert(keys.subrange(0, i + 1)[i as int] == x);
                }
            }
            assert(room.participants@.dom() =~= ps0.dom());
        }
        i = i + 1;
    }
    proof {
        assert(keys.subrange(0, n as int) =~= keys);
        assert forall|c: u64| #[trigger] room.participants@.contains_key(c) implies keys.contains(
            c,
        ) by {}
    }
}

/// Applies the host's room config update at `now_ms` in a transparent
/// room: everyone is first billed at the current rate; then a new rate
/// (under the free-call policy) and a new screen-share cap (at least one)
/// take effect.
pub fn apply_room_config_update(
    room: &mut RoomState,
    conn_id: u64,
    update: &RoomConfigUpdateFrame,
    allow_free_calls: bool,
    now_ms: u64,
) -> (out: ConfigUpdateOutcome)
    ensures
        ({
            let ps = old(room).participants@;
            if old(room).anonymous_mode {
                out matches ConfigUpdateOutcome::Refused(e) && e@
                    == "anonymous mode rejects plaintext room config updates"@ && *final(room)
                    == *old(room)
            } else if !ps.contains_key(conn_id) {
                out is Ignored && *final(room) == *old(room)
            } else if !ps[conn_id].hello_seen {
                out matches ConfigUpdateOutcome::Refused(e) && e@ == "send Hello first"@ && *final(room)
                    == *old(room)
            } else if old(room).host_conn_id != Some(conn_id) {
                out matches ConfigUpdateOutcome::Refused(e) && e@ == "host only"@ && *final(room)
                    == *old(room)
            } else {
                let rate = match update.rate_per_minute_nano {
                    Some(r) => if allow_free_calls || r >= 1 {
                        r
                    } else {
                        1
                    },
                    None => old(room).rate_per_minute_nano,
                };
                let max_shares = match update.max_screen_shares {
                    Some(m) => if m < 1 {
                        1
                    } else {
                        m
                    },
                    None => old(room).max_screen_shares,
                };
                &&& final(room).participants@.dom() == ps.dom()
                &&& forall|c: u64| #[trigger]
                    final(room).participants@.contains_key(c) ==> final(room).participants@[c]
                        == spec_advance_billing(ps[c], old(room).rate_per_minute_nano, now_ms)
                &&& final(room).rate_per_minute_nano == rate
                &&& final(room).max_screen_shares == max_shares
                &&& *final(room) == (RoomState {
                    participants: final(room).participants,
                    rate_per_minute_nano: rate,
                    max_screen_shares: max_shares,
                    ..*old(room)
                })
                &&& out == ConfigUpdateOutcome::Applied(
                    rate != old(room).rate_per_minute_nano || max_shares != old(room).max_screen_shares,
                    update.rate_per_minute_nano == Some(0u64) && !allow_free_calls,
                )
            }
        }),
{
    if room.anonymous_mode {
        return ConfigUpdateOutcome::Refused(
            "anonymous mode rejects plaintext room config updates".to_owned(),
        );
    }
    let hello_seen = match room.participants.get(&conn_id) {
        Some(p) => p.hello_seen,
        None => {
            return ConfigUpdateOutcome::Ignored;
        },
    };
    if !hello_seen {
        return ConfigUpdateOutcome::Refused("send Hello first".to_owned());
    }
    if room.host_conn_id != Some(conn_id) {
        return ConfigUpdateOutcome::Refused("host only".to_owned());
    }
    let current_rate = room.rate_per_minute_nano;
    bill_all(room, current_rate, now_ms);
    let mut changed = false;
    let mut rejected_zero_rate = false;
    match update.rate_per_minute_nano {
        Some(rate) => {
            let normalized = normalize_rate_for_policy(rate, allow_free_calls);
            if rate == 0 && !allow_free_calls {
                rejected_zero_rate = true;
            }
            if room.rate_per_minute_nano != normalized {
                room.rate_per_minute_nano = normalized;
                changed = true;
            }
        },
        None => {},
    }
    match update.max_screen_shares {
        Some(max) => {
            let normalized: u8 = if max < 1 {
                1
            } else {
                max
            };
            if room.max_screen_shares != normalized {
                room.max_screen_shares = normalized;
                changed = true;
            }
        },
        None => {},
    }
    ConfigUpdateOutcome::Applied(changed, rejected_zero_rate)
}

/// The room's config as announced at `updated_at_ms`: its host's
/// participant id (none in an anonymous room), its rate, the grace window
/// and its screen-share cap (at least one).
pub fn room_config_frame_for(room: &RoomState, billing_grace_secs: u64, updated_at_ms: u64) -> (r:
    RoomConfigFrame)
    ensures
        r.updated_at_ms == updated_at_ms,
        opt_text(r.host_participant_id) == if room.anonymous_mode {
            None
        } else {
            match room.host_conn_id {
                Some(h) => if room.participants@.contains_key(h) {
                    Some(room.participants@[h].participant_id@)
                } else {
                    None
                },
                None => None,
            }
        },
        r.rate_per_minute_nano == room.rate_per_minute_nano,
        r.billing_grace_secs == billing_grace_secs,
        r.max_screen_shares == spec_share_cap(*room),
{
    let host_participant_id = if room.anonymous_mode {
        None
    } else {
        match room.host_conn_id {
            Some(h) => match room.participants.get(&h) {
                Some(p) => Some(p.participant_id.clone()),
                None => None,
            },
            None => None,
        }
    };
    RoomConfigFrame {
        updated_at_ms,
        host_participant_id,
        rate_per_minute_nano: room.rate_per_minute_nano,
        billing_grace_secs,
        max_screen_shares: if room.max_screen_shares < 1 {
            1
        } else {
            room.max_screen_shares
        },
    }
}

/// The room's current session policy, as last signed.
pub fn session_policy_frame_for(room: &RoomState) -> (r: SessionPolicyFrame)
    ensures
        r == (SessionPolicyFrame {
            updated_at_ms: room.policy_updated_at_ms,
            room_lock: room.room_lock,
            waiting_room_enabled: room.waiting_room_enabled,
            guest_join_allowed: room.guest_join_allowed,
            local_recording_allowed: room.local_recording_allowed,
            e2ee_required: room.e2ee_required,
            max_participants: room.max_participants,
            policy_epoch: room.policy_epoch,
            updated_by: room.policy_updated_by,
            signature_hex: room.policy_signature_hex,
        }),
{
    SessionPolicyFrame {
        updated_at_ms: room.policy_updated_at_ms,
        room_lock: room.room_lock,
        waiting_room_enabled: room.waiting_room_enabled,
        guest_join_allowed: room.guest_join_allowed,
        local_recording_allowed: room.local_recording_allowed,
        e2ee_required: room.e2ee_required,
        max_participants: room.max_participants,
        policy_epoch: room.policy_epoch,
        updated_by: room.policy_updated_by.clone(),
        signature_hex: room.policy_signature_hex.clone(),
    }
}

/// The screen-share cap holds across a state update: a connection that was
/// not sharing starts sharing only when the other connections share fewer
/// than the cap; when they already fill it, a request to share is denied
/// with a notice and the connection stays off. No other connection's state
/// changes.
pub proof fn lemma_screen_share_cap(
    pre: RoomState,
    conn_id: u64,
    update: ParticipantStateFrame,
    at_ms: u64,
    post: RoomState,
    out: StateUpdateOutcome,
)
    requires
        spec_state_update_outcome(pre, conn_id, update, at_ms, post, out),
    ensures
        pre.participants@.contains_key(conn_id) && post.participants@.contains_key(conn_id)
            && !pre.participants@[conn_id].screen_share_enabled
            && post.participants@[conn_id].screen_share_enabled ==> spec_other_sharing(
            pre.participants.key_seq(),
            pre.participants.val_seq(),
            conn_id,
        ) < spec_share_cap(pre),
        !pre.anonymous_mode && pre.participants@.contains_key(conn_id)
            && pre.participants@[conn_id].hello_seen && !(pre.e2ee_required && (
        !pre.e2ee_epochs@.contains_key(conn_id) || pre.e2ee_epochs@[conn_id] == 0))
            && update.screen_share_enabled == Some(true)
            && !pre.participants@[conn_id].screen_share_enabled && spec_other_sharing(
            pre.participants.key_seq(),
            pre.participants.val_seq(),
            conn_id,
        ) >= spec_share_cap(pre) ==> !post.participants@[conn_id].screen_share_enabled && (
        out matches StateUpdateOutcome::Updated(notice, _) && opt_text(notice) == Some(
            "screen share denied: max_screen_shares="@ + spec_decimal(spec_share_cap(pre) as nat)
                + " already in use"@,
        )),
        forall|c: u64|
            c != conn_id && #[trigger] pre.participants@.contains_key(c) ==> post.participants@.contains_key(c)
                && post.participants@[c] == pre.participants@[c],
{
}

/// A participant-state update is applied exactly when the room is
/// transparent and the sender has joined and passed the e2ee gate. An
/// applied update sets each requested media flag and leaves an absent one as
/// it was: mic and video take the requested value; screen share turns off
/// when asked to, and turns on when asked to unless the connection was not
/// sharing and the other sharers fill the cap. Nothing else about the
/// connection changes, and the broadcast snapshot shows its new media state.
pub proof fn lemma_state_update_applies_requested_media(
    pre: RoomState,
    conn_id: u64,
    update: ParticipantStateFrame,
    at_ms: u64,
    post: RoomState,
    out: StateUpdateOutcome,
)
    requires
        spec_state_update_outcome(pre, conn_id, update, at_ms, post, out),
    ensures
        (out is Updated) <==> (!pre.anonymous_mode && pre.participants@.contains_key(conn_id)
            && pre.participants@[conn_id].hello_seen && !(pre.e2ee_required && (
        !pre.e2ee_epochs@.contains_key(conn_id) || pre.e2ee_epochs@[conn_id] == 0))),
        out is Updated ==> post.participants@.contains_key(conn_id) && ({
            let p = pre.participants@[conn_id];
            let q = post.participants@[conn_id];
            &&& update.mic_enabled matches Some(v) ==> q.mic_enabled == v
            &&& update.mic_enabled is None ==> q.mic_enabled == p.mic_enabled
            &&& update.video_enabled matches Some(v) ==> q.video_enabled == v
            &&& update.video_enabled is None ==> q.video_enabled == p.video_enabled
            &&& update.screen_share_enabled == Some(false) ==> !q.screen_share_enabled
            &&& update.screen_share_enabled is None ==> q.screen_share_enabled == p.screen_share_enabled
            &&& update.screen_share_enabled == Some(true) ==> (q.screen_share_enabled <==> (
            p.screen_share_enabled || spec_other_sharing(
                pre.participants.key_seq(),
                pre.participants.val_seq(),
                conn_id,
            ) < spec_share_cap(pre)))
            &&& q == (ParticipantState {
                mic_enabled: q.mic_enabled,
                video_enabled: q.video_enabled,
                screen_share_enabled: q.screen_share_enabled,
                ..p
            })
            &&& out matches StateUpdateOutcome::Updated(_n, snap) && snap.at_ms == at_ms
                && snap.participant_id == p.participant_id && snap.display_name == p.display_name
                && snap.mic_enabled == q.mic_enabled && snap.video_enabled == q.video_enabled
                && snap.screen_share_enabled == q.screen_share_enabled
        }),
        out is Updated ==> forall|c: u64|
            c != conn_id && #[trigger] pre.participants@.contains_key(c) ==> post.participants@.contains_key(c)
                && post.participants@[c] == pre.participants@[c],
{
}

/// A hello the join rules accept from a known connection of a transparent
/// room gives the connection the hello's participant id, display name and
/// media flags, and marks it joined or waiting for admission (exactly one
/// of the two); its billing state is kept. Taken through `receive_hello`,
/// the hello's media flags are all off, so the connection joins muted, with
/// video and screen share off.
pub proof fn lemma_hello_takes_identity_and_media(
    pre: RoomState,
    conn_id: u64,
    hello: HelloFrame,
    at_ms: u64,
    post: RoomState,
    out: HelloOutcome,
)
    requires
        spec_hello_outcome(pre, conn_id, hello, at_ms, post, out),
        !pre.anonymous_mode,
        spec_join_error(pre, conn_id, hello.participant_id@) is None,
        pre.participants@.contains_key(conn_id),
    ensures
        post.participants@.contains_key(conn_id),
        post.participants@[conn_id].participant_id == hello.participant_id,
        post.participants@[conn_id].display_name == hello.display_name,
        post.participants@[conn_id].mic_enabled == hello.mic_enabled,
        post.participants@[conn_id].video_enabled == hello.video_enabled,
        post.participants@[conn_id].screen_share_enabled == hello.screen_share_enabled,
        post.participants@[conn_id].hello_seen != post.participants@[conn_id].waiting_room_pending,
        !post.participants@[conn_id].anonymous_mode,
        post.participants@[conn_id].billed_nano_xor == pre.participants@[conn_id].billed_nano_xor,
        post.participants@[conn_id].paid_nano_xor == pre.participants@[conn_id].paid_nano_xor,
        post.participants@[conn_id].last_billed_at_ms == pre.participants@[conn_id].last_billed_at_ms,
        spec_join_hello(hello).participant_id == hello.participant_id,
        !spec_join_hello(hello).mic_enabled && !spec_join_hello(hello).video_enabled
            && !spec_join_hello(hello).screen_share_enabled,
{
}

/// Closing a connection of a transparent room that keeps other members:
/// the connection leaves the room with its device capabilities, co-host
/// binding and key epochs; the room is not empty; a departing host is
/// replaced by the smallest remaining connection and the permissions epoch
/// moves on; the presence sequence moves on and the departure is announced
/// in a delta that lists only the departing participant id.
pub proof fn lemma_disconnect_from_shared_room(
    pre: RoomState,
    conn_id: u64,
    other: u64,
    at_ms: u64,
    post: RoomState,
    out: DisconnectOutcome,
)
    requires
        spec_disconnect_outcome(pre, conn_id, at_ms, post, out),
        !pre.anonymous_mode,
        pre.participants@.contains_key(conn_id),
        pre.participants@.contains_key(other),
        other != conn_id,
    ensures
        !post.participants@.contains_key(conn_id),
        forall|c: u64|
            c != conn_id && #[trigger] pre.participants@.contains_key(c) ==> post.participants@.contains_key(c)
                && post.participants@[c] == pre.participants@[c],
        !post.device_caps_by_conn@.contains_key(conn_id),
        !post.e2ee_epochs@.contains_key(conn_id),
        !post.key_rotation_ack_epochs@.contains_key(conn_id),
        !out.room_empty,
        pre.host_conn_id == Some(conn_id) ==> post.host_conn_id == spec_min_conn(post.participants@)
            && post.permissions_epoch == spec_bump(pre.permissions_epoch) && out.host_changed,
        pre.host_conn_id != Some(conn_id) ==> post.host_conn_id == pre.host_conn_id && !post.co_host_conn_ids@.contains(conn_id)
            && post.permissions_epoch == pre.permissions_epoch && !out.host_changed,
        post.presence_sequence == spec_bump(pre.presence_sequence),
        out.left_participant_id == Some(pre.participants@[conn_id].participant_id),
        out.presence_delta matches Some(d) && d.sequence == post.presence_sequence && d.joined@.len() == 0
            && d.left@.len() == 1 && d.left@[0].participant_id == pre.participants@[conn_id].participant_id,
{
    assert(post.participants@.contains_key(other));
    assert(post.participants@.dom() != Set::<u64>::empty()) by {
        assert(post.participants@.dom().contains(other));
    }
}

} // verus!
