//! The anonymous hello: a connection joins an anonymous room under an
//! opaque handle and an X25519 key. The first anonymous hello turns the
//! room anonymous and adds the anonymous surcharge to its rate; every
//! accepted hello announces the roster, the new key and a group key
//! rotation.
use vstd::prelude::*;
use crate::codec::{is_valid_hex_len, spec_is_valid_hex_len};
use crate::hub::anon::{
    apply_anon_hello_state, spec_anon_capacity_error, spec_anon_handle_error,
    validate_anon_participant_handle, validate_anonymous_room_capacity,
};
use crate::hub::frames::AnonGroupKeyRotateFrame;
use crate::hub::room::{record_anon_admission_rejection, ParticipantState, RoomState};
use crate::hub::roster::{
    anon_roster_frame_for, build_anon_group_key_rotate_frame, spec_anon_roster_entries,
    spec_member_handles, spec_rotation_epoch, spec_rotation_payload, spec_sorted,
};
use crate::hub::table::table_layout;
use crate::hub::validate::{apply_anonymous_zk_surcharge, spec_surcharge_overflow_message};
use crate::codec::spec_signature_hex;
use crate::text::{opt_text, push_decimal, spec_decimal};
use crate::wire::{AnonHelloFrame, AnonRosterFrame, GroupKeyUpdateFrame, PROTOCOL_VERSION};

verus! {

broadcast use vstd::string::group_string_axioms;

/// What an anonymous hello led to.
pub enum AnonHelloOutcome {
    /// Refused; the message goes back to the sender.
    Refused(String),
    /// Refused because the room's anonymous cap is reached; the room's
    /// count of such refusals is given.
    RefusedAtCapacity { message: String, rejections: u64 },
    /// The connection is unknown to the room; nothing to do.
    Ignored,
    /// Joined: the roster goes to the sender, the key update and the
    /// rotation to the room. The rate change, when the room just turned
    /// anonymous and the surcharge changed it, is given as old and new
    /// rate.
    Joined {
        roster: AnonRosterFrame,
        update: GroupKeyUpdateFrame,
        rotate: AnonGroupKeyRotateFrame,
        surcharge: Option<(u64, u64)>,
    },
}

/// A connection's state after an accepted anonymous hello.
pub open spec fn spec_anon_hello_state(p: ParticipantState, hello: AnonHelloFrame, now_ms: u64) -> ParticipantState {
    ParticipantState {
        anonymous_mode: true,
        waiting_room_pending: false,
        hello_seen: true,
        participant_handle: Some(hello.participant_handle),
        x25519_pubkey_hex: Some(hello.x25519_pubkey_hex),
        x25519_epoch: if p.x25519_epoch == 0 {
            1
        } else {
            p.x25519_epoch
        },
        last_billed_at_ms: if !p.hello_seen || !p.anonymous_mode {
            now_ms
        } else {
            p.last_billed_at_ms
        },
        ..p
    }
}

/// The hello would change a joined anonymous connection's key.
pub open spec fn spec_anon_key_change(p: ParticipantState, hello: AnonHelloFrame) -> bool {
    p.hello_seen && p.anonymous_mode && (p.x25519_pubkey_hex matches Some(cur) && cur@
        != hello.x25519_pubkey_hex@)
}

/// Some connection has joined the room in the clear.
pub open spec fn spec_has_transparent_member(room: RoomState) -> bool {
    exists|c: u64|
        #[trigger] room.participants@.contains_key(c) && room.participants@[c].hello_seen
            && !room.participants@[c].anonymous_mode
}

fn has_transparent_member(room: &RoomState) -> (r: bool)
    ensures
        r == spec_has_transparent_member(*room),
{
    let n = room.participants.len();
    let mut i: usize = 0;
    while i < n
        invariant
            i <= n,
            n == room.participants.key_seq().len(),
            table_layout(room.participants),
            forall|j: int|
                0 <= j < i ==> !((#[trigger] room.participants.val_seq()[j]).hello_seen
                    && !room.participants.val_seq()[j].anonymous_mode),
        decreases n - i,
    {
        let p = room.participants.value_at(i);
        if p.hello_seen && !p.anonymous_mode {
            let c = room.participants.key_at(i);
            assert(room.participants@.contains_key(c));
            return true;
        }
        i = i + 1;
    }
    proof {
        assert forall|c: u64| #[trigger] room.participants@.contains_key(c) implies !(
        room.participants@[c].hello_seen && !room.participants@[c].anonymous_mode) by {
            let j = room.participants.key_seq().index_of(c);
            assert(room.participants@[room.participants.key_seq()[j]]
                == room.participants.val_seq()[j]);
        }
    }
    false
}

/// The room's rate with the anonymous surcharge added, when it fits.
pub open spec fn spec_surcharged(base: u64, extra: u64) -> Option<u64> {
    if base + extra <= u64::MAX {
        Some((base + extra) as u64)
    } else {
        None
    }
}

/// Why an anonymous hello is refused before anything changes, if it is:
/// the protocol version, the key, the handle, then (in a room not yet
/// anonymous) a member in the clear or a surcharge that does not fit.
/// The capacity check, which counts the refusal, comes between the handle
/// and the room mode.
pub open spec fn spec_anon_hello_precheck(
    room: RoomState,
    conn_id: u64,
    hello: AnonHelloFrame,
    extra_fee: u64,
) -> Option<Seq<char>> {
    if hello.protocol_version != PROTOCOL_VERSION {
        Some("unsupported protocol_version "@ + spec_decimal(hello.protocol_version as nat))
    } else if !spec_is_valid_hex_len(hello.x25519_pubkey_hex@, 32) {
        Some("x25519_pubkey_hex must be 32-byte hex"@)
    } else if let Some(e) = spec_anon_handle_error(room, conn_id, hello.participant_handle@) {
        Some(e)
    } else {
        None
    }
}

/// Handles an anonymous hello from `conn_id` at `now_ms`, with the hub's
/// anonymous cap and surcharge.
#[verifier::rlimit(60)]
pub fn apply_anon_hello(
    room: &mut RoomState,
    conn_id: u64,
    hello: &AnonHelloFrame,
    max_anon_participants: usize,
    extra_fee_per_minute_nano: u64,
    now_ms: u64,
) -> (out: AnonHelloOutcome)
    ensures
        ({
            let pre = *old(room);
            let ps = pre.participants@;
            if let Some(e) = spec_anon_hello_precheck(pre, conn_id, *hello, extra_fee_per_minute_nano) {
                out matches AnonHelloOutcome::Refused(m) && m@ == e && *final(room) == pre
            } else if let Some(e) = spec_anon_capacity_error(pre, conn_id, max_anon_participants as nat) {
                out matches AnonHelloOutcome::RefusedAtCapacity { message, rejections } && message@
                    == e && rejections == final(room).anon_admission_rejections
                    && rejections == (if pre.anon_admission_rejections < u64::MAX {
                    pre.anon_admission_rejections + 1
                } else {
                    u64::MAX as int
                }) && *final(room) == (RoomState { anon_admission_rejections: rejections, ..pre })
            } else if !pre.anonymous_mode && spec_has_transparent_member(pre) {
                out matches AnonHelloOutcome::Refused(m) && m@ == "room is already in transparent mode"@
                    && *final(room) == pre
            } else if !pre.anonymous_mode && spec_surcharged(
                pre.rate_per_minute_nano,
                extra_fee_per_minute_nano,
            ) is None {
                out matches AnonHelloOutcome::Refused(m) && m@ == spec_surcharge_overflow_message()
                    && *final(room) == pre
            } else if !ps.contains_key(conn_id) {
                out is Ignored && *final(room) == pre
            } else if spec_anon_key_change(ps[conn_id], *hello) {
                out matches AnonHelloOutcome::Refused(m) && m@
                    == "x25519 key changes require GroupKeyUpdate"@ && *final(room) == pre
            } else {
                let np = spec_anon_hello_state(ps[conn_id], *hello, now_ms);
                let rate = if pre.anonymous_mode {
                    pre.rate_per_minute_nano
                } else {
                    spec_surcharged(pre.rate_per_minute_nano, extra_fee_per_minute_nano)->0
                };
                &&& final(room).participants@ == ps.insert(conn_id, np)
                &&& *final(room) == (RoomState {
                    participants: final(room).participants,
                    rate_per_minute_nano: rate,
                    anonymous_mode: true,
                    permissions_epoch: if pre.permissions_epoch == u64::MAX {
                        u64::MAX
                    } else {
                        (pre.permissions_epoch + 1) as u64
                    },
                    ..pre
                })
                &&& out matches AnonHelloOutcome::Joined { roster, update, rotate, surcharge }
                &&& roster.at_ms == now_ms
                &&& spec_sorted(roster.participants@)
                &&& roster.participants@.to_multiset() == spec_anon_roster_entries(
                    final(room).participants.val_seq(),
                ).to_multiset()
                &&& update == (GroupKeyUpdateFrame {
                    sent_at_ms: now_ms,
                    participant_handle: hello.participant_handle,
                    x25519_pubkey_hex: hello.x25519_pubkey_hex,
                    epoch: np.x25519_epoch,
                })
                &&& rotate.sent_at_ms == now_ms
                &&& rotate.epoch == spec_rotation_epoch(pre.permissions_epoch)
                &&& spec_sorted(rotate.member_handles@)
                &&& rotate.member_handles@.to_multiset() == spec_member_handles(
                    final(room).participants.val_seq(),
                ).to_multiset()
                &&& rotate.key_wrap_hex@ == spec_signature_hex(
                    "anon_group_key_rotate"@,
                    spec_rotation_payload(now_ms, rotate.epoch, rotate.member_handles@),
                )
                &&& surcharge == if !pre.anonymous_mode && rate != pre.rate_per_minute_nano {
                    Some((pre.rate_per_minute_nano, rate))
                } else {
                    None
                }
            }
        }),
{
    if hello.protocol_version != PROTOCOL_VERSION {
        let mut m = "unsupported protocol_version ".to_owned();
        push_decimal(&mut m, hello.protocol_version as u64);
        return AnonHelloOutcome::Refused(m);
    }
    if !is_valid_hex_len(hello.x25519_pubkey_hex.as_str(), 32) {
        return AnonHelloOutcome::Refused("x25519_pubkey_hex must be 32-byte hex".to_owned());
    }
    match validate_anon_participant_handle(room, conn_id, hello.participant_handle.as_str()) {
        Some(e) => {
            return AnonHelloOutcome::Refused(e);
        },
        None => {},
    }
    match validate_anonymous_room_capacity(room, conn_id, max_anon_participants) {
        Some(message) => {
            let rejections = record_anon_admission_rejection(room);
            return AnonHelloOutcome::RefusedAtCapacity { message, rejections };
        },
        None => {},
    }
    let was_anonymous = room.anonymous_mode;
    let base_rate = room.rate_per_minute_nano;
    let mut effective_rate = base_rate;
    if !was_anonymous {
        if has_transparent_member(room) {
            return AnonHelloOutcome::Refused("room is already in transparent mode".to_owned());
        }
        match apply_anonymous_zk_surcharge(base_rate, extra_fee_per_minute_nano) {
            Ok(rate) => {
                effective_rate = rate;
            },
            Err(e) => {
                return AnonHelloOutcome::Refused(e);
            },
        }
    }
    let mut p = match room.participants.get(&conn_id) {
        Some(p) => p.copy(),
        None => {
            return AnonHelloOutcome::Ignored;
        },
    };
    match apply_anon_hello_state(&mut p, hello, now_ms) {
        Ok(()) => {},
        Err(e) => {
            return AnonHelloOutcome::Refused(e);
        },
    }
    let epoch = p.x25519_epoch;
    room.participants.insert(conn_id, p);
    if !was_anonymous {
        room.rate_per_minute_nano = effective_rate;
        room.anonymous_mode = true;
    }
    let roster = anon_roster_frame_for(room, now_ms);
    let update = GroupKeyUpdateFrame {
        sent_at_ms: now_ms,
        participant_handle: hello.participant_handle.clone(),
        x25519_pubkey_hex: hello.x25519_pubkey_hex.clone(),
        epoch,
    };
    let rotate = build_anon_group_key_rotate_frame(room, now_ms);
    let surcharge = if !was_anonymous && base_rate != effective_rate {
        Some((base_rate, effective_rate))
    } else {
        None
    };
    AnonHelloOutcome::Joined { roster, update, rotate, surcharge }
}

} // verus!
