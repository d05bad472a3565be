//! Anonymous rooms: handle and capacity admission, the anonymous hello,
//! encrypted recipients, and the gates on plaintext and HDR media.
use vstd::prelude::*;
use crate::hub::frames::{MediaProfileKind, MediaProfileNegotiationFrame};
use crate::hub::room::{copy_opt_text, ParticipantState, RoomState};
use crate::hub::table::table_layout;
use crate::hub::validate::{handle_error, spec_handle_error};
use crate::text::{opt_text, push_decimal, same_text, spec_decimal};
use crate::wire::{
    AnonHelloFrame, EncryptedControlFrame, EncryptedRecipientPayload,
    MAX_ANON_PARTICIPANT_HANDLE_LEN,
};

verus! {

broadcast use vstd::string::group_string_axioms;

/// How many of the states are joined anonymous participants.
pub open spec fn spec_anon_count(s: Seq<ParticipantState>) -> nat
    decreases s.len(),
{
    if s.len() == 0 {
        0
    } else {
        spec_anon_count(s.drop_last()) + if s.last().anonymous_mode && s.last().hello_seen {
            1nat
        } else {
            0nat
        }
    }
}

fn anon_count(room: &RoomState) -> (r: usize)
    ensures
        r == spec_anon_count(room.participants.val_seq()),
{
    let n = room.participants.len();
    let mut count: usize = 0;
    let mut i: usize = 0;
    while i < n
        invariant
            i <= n,
            n == room.participants.val_seq().len(),
            n == room.participants.key_seq().len(),
            count <= i,
            count == spec_anon_count(room.participants.val_seq().subrange(0, i as int)),
        decreases n - i,
    {
        let p = room.participants.value_at(i);
        proof {
            let vals = room.participants.val_seq();
            assert(vals.subrange(0, i + 1).drop_last() =~= vals.subrange(0, i as int));
        }
        if p.anonymous_mode && p.hello_seen {
            count = count + 1;
        }
        i = i + 1;
    }
    proof {
        assert(room.participants.val_seq().subrange(0, n as int) =~= room.participants.val_seq());
    }
    count
}

/// Why an anonymous hello exceeds the room's anonymous cap: a connection
/// that is not yet a joined anonymous participant is refused once the cap
/// is reached.
pub open spec fn spec_anon_capacity_error(room: RoomState, conn_id: u64, max: nat) -> Option<
    Seq<char>,
> {
    let ps = room.participants@;
    if ps.contains_key(conn_id) && ps[conn_id].anonymous_mode && ps[conn_id].hello_seen {
        None
    } else if spec_anon_count(room.participants.val_seq()) >= max {
        Some("anonymous room participant cap reached: max "@ + spec_decimal(max))
    } else {
        None
    }
}

/// Checks the room's anonymous cap for a connection's hello.
pub fn validate_anonymous_room_capacity(
    room: &RoomState,
    conn_id: u64,
    max_anon_participants: usize,
) -> (r: Option<String>)
    ensures
        opt_text(r) == spec_anon_capacity_error(*room, conn_id, max_anon_participants as nat),
{
    let already = match room.participants.get(&conn_id) {
        Some(p) => p.anonymous_mode && p.hello_seen,
        None => false,
    };
    if already {
        return None;
    }
    let active = anon_count(room);
    if active >= max_anon_participants {
        let mut m = "anonymous room participant cap reached: max ".to_owned();
        push_decimal(&mut m, max_anon_participants as u64);
        return Some(m);
    }
    None
}

/// Another anonymous connection already holds the handle.
pub open spec fn spec_handle_taken(
    participants: Map<u64, ParticipantState>,
    conn_id: u64,
    handle: Seq<char>,
) -> bool {
    exists|c: u64|
        c != conn_id && #[trigger] participants.contains_key(c) && participants[c].anonymous_mode
            && opt_text(participants[c].participant_handle) == Some(handle)
}

fn handle_taken(room: &RoomState, conn_id: u64, handle: &str) -> (r: bool)
    ensures
        r == spec_handle_taken(room.participants@, conn_id, handle@),
{
    let n = room.participants.len();
    let mut i: usize = 0;
    while i < n
        invariant
            i <= n,
            n == room.participants.key_seq().len(),
            table_layout(room.participants),
            forall|j: int|
                0 <= j < i ==> !(room.participants.key_seq()[j] != conn_id && (
                #[trigger] room.participants.val_seq()[j]).anonymous_mode
                    && opt_text(room.participants.val_seq()[j].participant_handle) == Some(handle@)),
        decreases n - i,
    {
        let c = room.participants.key_at(i);
        let p = room.participants.value_at(i);
        let same = match &p.participant_handle {
            Some(h) => same_text(h.as_str(), handle),
            None => false,
        };
        if c != conn_id && p.anonymous_mode && same {
            assert(room.participants@[room.participants.key_seq()[i as int]]
                == room.participants.val_seq()[i as int]);
            return true;
        }
        i = i + 1;
    }
    proof {
        assert forall|c: u64|
            c != conn_id && #[trigger] room.participants@.contains_key(c) implies !(
        room.participants@[c].anonymous_mode && opt_text(room.participants@[c].participant_handle)
            == Some(handle@)) by {
            let j = room.participants.key_seq().index_of(c);
            assert(room.participants@[room.participants.key_seq()[j]]
                == room.participants.val_seq()[j]);
        }
    }
    false
}

/// Why a connection may not use a handle for its anonymous hello: the
/// handle rule first, then the handle must be free, and a connection that
/// already has a handle keeps it.
pub open spec fn spec_anon_handle_error(room: RoomState, conn_id: u64, requested: Seq<char>) -> Option<
    Seq<char>,
> {
    let rule = spec_handle_error(
        "participant_handle"@,
        requested,
        MAX_ANON_PARTICIPANT_HANDLE_LEN as nat,
    );
    let ps = room.participants@;
    if rule is Some {
        rule
    } else if spec_handle_taken(ps, conn_id, requested) {
        Some("participant_handle already in use"@)
    } else if ps.contains_key(conn_id) && (ps[conn_id].participant_handle matches Some(existing)
        && existing@ != requested) {
        Some("participant_handle cannot change after AnonHello"@)
    } else {
        None
    }
}

/// Checks the handle a connection asks for in its anonymous hello.
pub fn validate_anon_participant_handle(room: &RoomState, conn_id: u64, requested_handle: &str) -> (r:
    Option<String>)
    ensures
        opt_text(r) == spec_anon_handle_error(*room, conn_id, requested_handle@),
{
    let rule = handle_error(
        "participant_handle",
        requested_handle,
        MAX_ANON_PARTICIPANT_HANDLE_LEN,
    );
    if rule.is_some() {
        return rule;
    }
    if handle_taken(room, conn_id, requested_handle) {
        return Some("participant_handle already in use".to_owned());
    }
    match room.participants.get(&conn_id) {
        Some(p) => match &p.participant_handle {
            Some(existing) => {
                if !same_text(existing.as_str(), requested_handle) {
                    return Some("participant_handle cannot change after AnonHello".to_owned());
                }
            },
            None => {},
        },
        None => {},
    }
    None
}

/// A handle is on the anonymous roster when a joined anonymous connection
/// holds it.
pub open spec fn spec_on_anon_roster(participants: Map<u64, ParticipantState>, handle: Seq<char>) -> bool {
    exists|c: u64|
        #[trigger] participants.contains_key(c) && participants[c].anonymous_mode
            && participants[c].hello_seen && opt_text(participants[c].participant_handle) == Some(
            handle,
        )
}

fn on_anon_roster(room: &RoomState, handle: &str) -> (r: bool)
    ensures
        r == spec_on_anon_roster(room.participants@, handle@),
{
    let n = room.participants.len();
    let mut i: usize = 0;
    while i < n
        invariant
            i <= n,
            n == room.participants.key_seq().len(),
            table_layout(room.participants),
            forall|j: int|
                0 <= j < i ==> !((#[trigger] room.participants.val_seq()[j]).anonymous_mode
                    && room.participants.val_seq()[j].hello_seen && opt_text(
                    room.participants.val_seq()[j].participant_handle,
                ) == Some(handle@)),
        decreases n - i,
    {
        let p = room.participants.value_at(i);
        let same = match &p.participant_handle {
            Some(h) => same_text(h.as_str(), handle),
            None => false,
        };
        if p.anonymous_mode && p.hello_seen && same {
            assert(room.participants@[room.participants.key_seq()[i as int]]
                == room.participants.val_seq()[i as int]);
            return true;
        }
        i = i + 1;
    }
    proof {
        assert forall|c: u64| #[trigger] room.participants@.contains_key(c) implies !(
        room.participants@[c].anonymous_mode && room.participants@[c].hello_seen && opt_text(
            room.participants@[c].participant_handle,
        ) == Some(handle@)) by {
            let j = room.participants.key_seq().index_of(c);
            assert(room.participants@[room.participants.key_seq()[j]]
                == room.participants.val_seq()[j]);
        }
    }
    false
}

/// The first recipient, from index `i` on, that is not on the anonymous
/// roster.
pub open spec fn spec_first_unknown_recipient(
    participants: Map<u64, ParticipantState>,
    payloads: Seq<EncryptedRecipientPayload>,
    i: int,
) -> Option<Seq<char>>
    decreases payloads.len() - i,
{
    if i < 0 || i >= payloads.len() {
        None
    } else if !spec_on_anon_roster(participants, payloads[i].recipient_handle@) {
        Some(payloads[i].recipient_handle@)
    } else {
        spec_first_unknown_recipient(participants, payloads, i + 1)
    }
}

/// Why an encrypted frame addresses someone outside the anonymous roster.
pub open spec fn spec_room_recipients_error(enc: EncryptedControlFrame, room: RoomState) -> Option<
    Seq<char>,
> {
    match spec_first_unknown_recipient(room.participants@, enc.payloads@, 0) {
        Some(h) => Some("encrypted recipient handle is not in anonymous roster: "@ + h),
        None => None,
    }
}

/// Every recipient of an encrypted frame must be on the anonymous roster.
pub fn validate_encrypted_control_room_recipients(
    enc: &EncryptedControlFrame,
    room: &RoomState,
) -> (r: Option<String>)
    ensures
        opt_text(r) == spec_room_recipients_error(*enc, *room),
{
    let n = enc.payloads.len();
    let mut i: usize = 0;
    while i < n
        invariant
            i <= n,
            n == enc.payloads@.len(),
            spec_first_unknown_recipient(room.participants@, enc.payloads@, 0)
                == spec_first_unknown_recipient(room.participants@, enc.payloads@, i as int),
        decreases n - i,
    {
        let recipient = enc.payloads[i].recipient_handle.as_str();
        if !on_anon_roster(room, recipient) {
            let mut m = "encrypted recipient handle is not in anonymous roster: ".to_owned();
            m.append(recipient);
            return Some(m);
        }
        i = i + 1;
    }
    None
}

/// Applies an anonymous hello to a connection's state. A joined anonymous
/// connection may not change its X25519 key this way. Otherwise it becomes
/// a joined anonymous participant with the hello's handle and key, its key
/// epoch is at least one, and its billing cursor restarts at `now_ms` on
/// its first anonymous hello only.
pub fn apply_anon_hello_state(
    participant: &mut ParticipantState,
    hello: &AnonHelloFrame,
    now_ms: u64,
) -> (r: Result<(), String>)
    ensures
        ({
            let p = *old(participant);
            let key_change = p.hello_seen && p.anonymous_mode && (p.x25519_pubkey_hex matches Some(
                cur,
            ) && cur@ != hello.x25519_pubkey_hex@);
            if key_change {
                &&& r matches Err(e) && e@ == "x25519 key changes require GroupKeyUpdate"@
                &&& *final(participant) == p
            } else {
                &&& r is Ok
                &&& *final(participant) == (ParticipantState {
                    anonymous_mode: true,
                    waiting_room_pending: false,
                    hello_seen: true,
                    participant_handle: Some(hello.participant_handle),
                    x25519_pubkey_hex: Some(hello.x25519_pubkey_hex),
                    x25519_epoch: if p.x25519_epoch == 0 {
                        1
                    } else {
                        p.x25519_epoch
                    },
                    last_billed_at_ms: if !p.hello_seen || !p.anonymous_mode {
                        now_ms
                    } else {
                        p.last_billed_at_ms
                    },
                    ..p
                })
            }
        }),
{
    let first_anonymous_hello = !participant.hello_seen || !participant.anonymous_mode;
    if participant.hello_seen && participant.anonymous_mode {
        match &participant.x25519_pubkey_hex {
            Some(current) => {
                if !same_text(current.as_str(), hello.x25519_pubkey_hex.as_str()) {
                    return Err("x25519 key changes require GroupKeyUpdate".to_owned());
                }
            },
            None => {},
        }
    }
    participant.anonymous_mode = true;
    participant.waiting_room_pending = false;
    participant.hello_seen = true;
    participant.participant_handle = Some(hello.participant_handle.clone());
    participant.x25519_pubkey_hex = Some(hello.x25519_pubkey_hex.clone());
    if participant.x25519_epoch == 0 {
        participant.x25519_epoch = 1;
    }
    if first_anonymous_hello {
        participant.last_billed_at_ms = now_ms;
    }
    Ok(())
}

/// Some other joined connection reported that it renders HDR.
pub open spec fn spec_remote_hdr_render(room: RoomState, sender_conn_id: u64) -> bool {
    exists|c: u64|
        c != sender_conn_id && #[trigger] room.participants@.contains_key(c)
            && room.participants@[c].hello_seen && room.device_caps_by_conn@.contains_key(c)
            && room.device_caps_by_conn@[c].hdr_render
}

fn remote_hdr_render(room: &RoomState, sender_conn_id: u64) -> (r: bool)
    ensures
        r == spec_remote_hdr_render(*room, sender_conn_id),
{
    let n = room.participants.len();
    let mut i: usize = 0;
    while i < n
        invariant
            i <= n,
            n == room.participants.key_seq().len(),
            table_layout(room.participants),
            forall|j: int|
                0 <= j < i ==> !(#[trigger] room.participants.key_seq()[j] != sender_conn_id
                    && room.participants.val_seq()[j].hello_seen
                    && room.device_caps_by_conn@.contains_key(room.participants.key_seq()[j])
                    && room.device_caps_by_conn@[room.participants.key_seq()[j]].hdr_render),
        decreases n - i,
    {
        let c = room.participants.key_at(i);
        let p = room.participants.value_at(i);
        let renders = match room.device_caps_by_conn.get(&c) {
            Some(cap) => cap.hdr_render,
            None => false,
        };
        if c != sender_conn_id && p.hello_seen && renders {
            assert(room.participants@[room.participants.key_seq()[i as int]]
                == room.participants.val_seq()[i as int]);
            return true;
        }
        i = i + 1;
    }
    proof {
        assert forall|c: u64|
            c != sender_conn_id && #[trigger] room.participants@.contains_key(c) implies !(
        room.participants@[c].hello_seen && room.device_caps_by_conn@.contains_key(c)
            && room.device_caps_by_conn@[c].hdr_render) by {
            let j = room.participants.key_seq().index_of(c);
            assert(room.participants@[room.participants.key_seq()[j]]
                == room.participants.val_seq()[j]);
            assert(room.participants.key_seq()[j] == c);
        }
    }
    false
}

/// The profile the room settles on: HDR stays only when the sender
/// captures HDR and some other joined connection renders it; otherwise an
/// HDR request falls back to SDR. Everything else is kept.
pub fn resolve_media_profile_negotiation(
    room: &RoomState,
    sender_conn_id: u64,
    profile: &MediaProfileNegotiationFrame,
) -> (r: MediaProfileNegotiationFrame)
    ensures
        r == (MediaProfileNegotiationFrame {
            negotiated_profile: if profile.negotiated_profile == MediaProfileKind::Hdr && !(
            room.device_caps_by_conn@.contains_key(sender_conn_id)
                && room.device_caps_by_conn@[sender_conn_id].hdr_capture && spec_remote_hdr_render(
                *room,
                sender_conn_id,
            )) {
                MediaProfileKind::Sdr
            } else {
                profile.negotiated_profile
            },
            ..*profile
        }),
{
    let mut resolved = MediaProfileNegotiationFrame {
        at_ms: profile.at_ms,
        participant_id: profile.participant_id.clone(),
        requested_profile: profile.requested_profile,
        negotiated_profile: profile.negotiated_profile,
        codec: profile.codec.clone(),
        epoch: profile.epoch,
    };
    match profile.negotiated_profile {
        MediaProfileKind::Hdr => {},
        MediaProfileKind::Sdr => {
            return resolved;
        },
    }
    let sender_hdr_capture = match room.device_caps_by_conn.get(&sender_conn_id) {
        Some(cap) => cap.hdr_capture,
        None => false,
    };
    let any_remote_hdr_render = remote_hdr_render(room, sender_conn_id);
    if !sender_hdr_capture || !any_remote_hdr_render {
        resolved.negotiated_profile = MediaProfileKind::Sdr;
    }
    resolved
}

/// The refusal of plaintext control from a joined connection of a
/// transparent room that requires E2EE, while the connection has not
/// published a key epoch.
pub open spec fn spec_plaintext_e2ee_gate(room: RoomState, conn_id: u64) -> Option<Seq<char>> {
    let ps = room.participants@;
    if !ps.contains_key(conn_id) || !ps[conn_id].hello_seen || room.anonymous_mode
        || !room.e2ee_required {
        None
    } else if !room.e2ee_epochs@.contains_key(conn_id) || room.e2ee_epochs@[conn_id] == 0 {
        Some("e2ee required: publish E2EEKeyEpoch before plaintext control"@)
    } else {
        None
    }
}

/// Checks the E2EE gate on plaintext control from a connection.
pub fn plaintext_e2ee_gate(room: &RoomState, conn_id: u64) -> (r: Option<String>)
    ensures
        opt_text(r) == spec_plaintext_e2ee_gate(*room, conn_id),
{
    let hello_seen = match room.participants.get(&conn_id) {
        Some(p) => p.hello_seen,
        None => false,
    };
    if !hello_seen || room.anonymous_mode || !room.e2ee_required {
        return None;
    }
    let epoch = match room.e2ee_epochs.get(&conn_id) {
        Some(e) => *e,
        None => 0,
    };
    if epoch == 0 {
        return Some("e2ee required: publish E2EEKeyEpoch before plaintext control".to_owned());
    }
    None
}

} // verus!
