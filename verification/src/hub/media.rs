//! The checks on chat, media and anonymous payload frames before the hub
//! fans them out: anonymous rooms take only encrypted traffic, plaintext
//! needs a joined sender that speaks for itself and (when the room requires
//! it) a published E2EE key, and media descriptions must be non-degenerate.
use vstd::prelude::*;
use crate::codec::{is_valid_hex, is_valid_hex_len, spec_is_valid_hex, spec_is_valid_hex_len};
use crate::hub::anon::{plaintext_e2ee_gate, spec_plaintext_e2ee_gate};
use crate::hub::room::{participant_snapshot_from_state, spec_snapshot, ParticipantState, RoomState};
use crate::text::{opt_text, same_text};
use crate::wire::ParticipantSnapshot;

verus! {

broadcast use vstd::string::group_string_axioms;

/// What a sender check gives when the sender is a joined participant that
/// speaks for `participant_id`: `None` for an unknown connection, the
/// first failure otherwise.
pub open spec fn spec_sender_check(room: RoomState, conn_id: u64, participant_id: Seq<char>) -> Option<
    Option<Seq<char>>,
> {
    let ps = room.participants@;
    if !ps.contains_key(conn_id) {
        None
    } else if !ps[conn_id].hello_seen {
        Some(Some("send Hello first"@))
    } else if ps[conn_id].participant_id@ != participant_id {
        Some(Some("participant_id must match sender participant_id"@))
    } else {
        Some(None)
    }
}

/// The message of a failed check, or `Ok(true)` to go on and `Ok(false)`
/// to drop the frame.
pub open spec fn spec_outcome_text(r: Result<bool, String>) -> Result<bool, Seq<char>> {
    match r {
        Ok(b) => Ok(b),
        Err(e) => Err(e@),
    }
}

fn sender_check(room: &RoomState, conn_id: u64, participant_id: &str) -> (r: Option<Option<String>>)
    ensures
        (match r {
            None => spec_sender_check(*room, conn_id, participant_id@) is None,
            Some(x) => spec_sender_check(*room, conn_id, participant_id@) == Some(opt_text(x)),
        }),
{
    match room.participants.get(&conn_id) {
        None => None,
        Some(p) => {
            if !p.hello_seen {
                Some(Some("send Hello first".to_owned()))
            } else if !same_text(p.participant_id.as_str(), participant_id) {
                Some(Some("participant_id must match sender participant_id".to_owned()))
            } else {
                Some(None)
            }
        },
    }
}

/// The decision on a chat message: refused in an anonymous room, before
/// the sender joined, or without a required E2EE key; otherwise the
/// sender's participant id and display name to put on it.
pub open spec fn spec_chat_check(room: RoomState, conn_id: u64) -> Result<(Seq<char>, Option<Seq<char>>), Seq<char>> {
    let ps = room.participants@;
    if room.anonymous_mode {
        Err("anonymous mode requires EncryptedControl frames"@)
    } else if !ps.contains_key(conn_id) || !ps[conn_id].hello_seen {
        Err("send Hello first"@)
    } else if let Some(e) = spec_plaintext_e2ee_gate(room, conn_id) {
        Err(e)
    } else {
        Ok((ps[conn_id].participant_id@, opt_text(ps[conn_id].display_name)))
    }
}

/// Checks a chat message from `conn_id`.
pub fn check_chat(room: &RoomState, conn_id: u64) -> (r: Result<(String, Option<String>), String>)
    ensures
        (match r {
            Ok((id, name)) => spec_chat_check(*room, conn_id) == Ok::<
                (Seq<char>, Option<Seq<char>>),
                Seq<char>,
            >((id@, opt_text(name))),
            Err(e) => spec_chat_check(*room, conn_id) == Err::<
                (Seq<char>, Option<Seq<char>>),
                Seq<char>,
            >(e@),
        }),
{
    if room.anonymous_mode {
        return Err("anonymous mode requires EncryptedControl frames".to_owned());
    }
    let p = match room.participants.get(&conn_id) {
        Some(p) => p,
        None => {
            return Err("send Hello first".to_owned());
        },
    };
    if !p.hello_seen {
        return Err("send Hello first".to_owned());
    }
    match plaintext_e2ee_gate(room, conn_id) {
        Some(e) => {
            return Err(e);
        },
        None => {},
    }
    let name = match &p.display_name {
        Some(n) => Some(n.clone()),
        None => None,
    };
    Ok((p.participant_id.clone(), name))
}

/// The decision on a media capability announcement.
pub open spec fn spec_media_capability_check(
    room: RoomState,
    conn_id: u64,
    participant_id: Seq<char>,
    max_video_width: u64,
    max_video_height: u64,
    max_video_fps: u64,
    audio_sample_rate: u64,
    audio_channels: u64,
) -> Result<bool, Seq<char>> {
    if room.anonymous_mode {
        Err("anonymous mode rejects plaintext media capabilities"@)
    } else {
        match spec_sender_check(room, conn_id, participant_id) {
            None => Ok(false),
            Some(Some(e)) => Err(e),
            Some(None) => if max_video_width == 0 || max_video_height == 0 || max_video_fps == 0 {
                Err("media capability dimensions/fps must be > 0"@)
            } else if audio_sample_rate == 0 || audio_channels == 0 {
                Err("audio sample rate/channels must be > 0"@)
            } else {
                Ok(true)
            },
        }
    }
}

/// Checks a media capability announcement; `Ok(true)` means fan it out.
pub fn check_media_capability(
    room: &RoomState,
    conn_id: u64,
    participant_id: &str,
    max_video_width: u64,
    max_video_height: u64,
    max_video_fps: u64,
    audio_sample_rate: u64,
    audio_channels: u64,
) -> (r: Result<bool, String>)
    ensures
        spec_outcome_text(r) == spec_media_capability_check(
            *room,
            conn_id,
            participant_id@,
            max_video_width,
            max_video_height,
            max_video_fps,
            audio_sample_rate,
            audio_channels,
        ),
{
    if room.anonymous_mode {
        return Err("anonymous mode rejects plaintext media capabilities".to_owned());
    }
    match sender_check(room, conn_id, participant_id) {
        None => Ok(false),
        Some(Some(e)) => Err(e),
        Some(None) => {
            if max_video_width == 0 || max_video_height == 0 || max_video_fps == 0 {
                Err("media capability dimensions/fps must be > 0".to_owned())
            } else if audio_sample_rate == 0 || audio_channels == 0 {
                Err("audio sample rate/channels must be > 0".to_owned())
            } else {
                Ok(true)
            }
        },
    }
}

/// The decision on a video segment or an audio packet: refused in an
/// anonymous room or without a required E2EE key, then the sender check,
/// then the shape of the media: `shape_ok` says that every size field is
/// positive, `payload_len` the payload's length.
pub open spec fn spec_media_payload_check(
    room: RoomState,
    conn_id: u64,
    participant_id: Seq<char>,
    shape_ok: bool,
    payload_len: usize,
    shape_error: Seq<char>,
    empty_error: Seq<char>,
) -> Result<bool, Seq<char>> {
    if room.anonymous_mode {
        Err("anonymous mode requires encrypted media payloads"@)
    } else if let Some(e) = spec_plaintext_e2ee_gate(room, conn_id) {
        Err(e)
    } else {
        match spec_sender_check(room, conn_id, participant_id) {
            None => Ok(false),
            Some(Some(e)) => Err(e),
            Some(None) => if !shape_ok {
                Err(shape_error)
            } else if payload_len == 0 {
                Err(empty_error)
            } else {
                Ok(true)
            },
        }
    }
}

fn media_payload_check(
    room: &RoomState,
    conn_id: u64,
    participant_id: &str,
    shape_ok: bool,
    payload_len: usize,
    shape_error: &str,
    empty_error: &str,
) -> (r: Result<bool, String>)
    ensures
        spec_outcome_text(r) == spec_media_payload_check(
            *room,
            conn_id,
            participant_id@,
            shape_ok,
            payload_len,
            shape_error@,
            empty_error@,
        ),
{
    if room.anonymous_mode {
        return Err("anonymous mode requires encrypted media payloads".to_owned());
    }
    match plaintext_e2ee_gate(room, conn_id) {
        Some(e) => {
            return Err(e);
        },
        None => {},
    }
    match sender_check(room, conn_id, participant_id) {
        None => Ok(false),
        Some(Some(e)) => Err(e),
        Some(None) => {
            if !shape_ok {
                Err(shape_error.to_owned())
            } else if payload_len == 0 {
                Err(empty_error.to_owned())
            } else {
                Ok(true)
            }
        },
    }
}

/// Checks a video segment; `Ok(true)` means fan it out.
pub fn check_video_segment(
    room: &RoomState,
    conn_id: u64,
    participant_id: &str,
    frame_width: u64,
    frame_height: u64,
    frame_duration_ns: u64,
    payload_len: usize,
) -> (r: Result<bool, String>)
    ensures
        spec_outcome_text(r) == spec_media_payload_check(
            *room,
            conn_id,
            participant_id@,
            frame_width != 0 && frame_height != 0 && frame_duration_ns != 0,
            payload_len,
            "video segment frame_width/frame_height/frame_duration_ns must be > 0"@,
            "video segment payload must not be empty"@,
        ),
{
    media_payload_check(
        room,
        conn_id,
        participant_id,
        frame_width != 0 && frame_height != 0 && frame_duration_ns != 0,
        payload_len,
        "video segment frame_width/frame_height/frame_duration_ns must be > 0",
        "video segment payload must not be empty",
    )
}

/// Checks an audio packet; `Ok(true)` means fan it out.
pub fn check_audio_packet(
    room: &RoomState,
    conn_id: u64,
    participant_id: &str,
    sample_rate: u64,
    channels: u64,
    frame_samples: u64,
    payload_len: usize,
) -> (r: Result<bool, String>)
    ensures
        spec_outcome_text(r) == spec_media_payload_check(
            *room,
            conn_id,
            participant_id@,
            sample_rate != 0 && channels != 0 && frame_samples != 0,
            payload_len,
            "audio packet sample_rate/channels/frame_samples must be > 0"@,
            "audio packet payload must not be empty"@,
        ),
{
    media_payload_check(
        room,
        conn_id,
        participant_id,
        sample_rate != 0 && channels != 0 && frame_samples != 0,
        payload_len,
        "audio packet sample_rate/channels/frame_samples must be > 0",
        "audio packet payload must not be empty",
    )
}

/// A participant's state once a media track change applies: the
/// microphone as given; the camera or the screen share, whichever track
/// is active, as given, and the other one off.
pub open spec fn spec_track_applied(
    p: ParticipantState,
    mic_enabled: bool,
    screen_share_active: bool,
    camera_enabled: bool,
    screen_share_enabled: bool,
) -> ParticipantState {
    if screen_share_active {
        ParticipantState {
            mic_enabled,
            video_enabled: false,
            screen_share_enabled,
            ..p
        }
    } else {
        ParticipantState { mic_enabled, video_enabled: camera_enabled, screen_share_enabled: false, ..p }
    }
}

/// A media track change sets the microphone as given; with the screen
/// share track active, the screen share is as given and video is off;
/// otherwise video is as the camera gives and the screen share is off.
/// Nothing else about the participant changes, and video and screen share
/// are never both on.
pub proof fn lemma_track_change_sets_media(
    p: ParticipantState,
    mic_enabled: bool,
    screen_share_active: bool,
    camera_enabled: bool,
    screen_share_enabled: bool,
)
    ensures
        ({
            let q = spec_track_applied(p, mic_enabled, screen_share_active, camera_enabled, screen_share_enabled);
            &&& q.mic_enabled == mic_enabled
            &&& q.video_enabled == (!screen_share_active && camera_enabled)
            &&& q.screen_share_enabled == (screen_share_active && screen_share_enabled)
            &&& !(q.video_enabled && q.screen_share_enabled)
            &&& q == (ParticipantState {
                mic_enabled: q.mic_enabled,
                video_enabled: q.video_enabled,
                screen_share_enabled: q.screen_share_enabled,
                ..p
            })
        }),
{
}

/// Applies a media track change from `conn_id` at `at_ms`: refused in an
/// anonymous room, without a required E2EE key, or from a sender that has
/// not joined or speaks for someone else; ignored from an unknown
/// connection (`Ok(None)`); otherwise the new state's snapshot.
pub fn apply_media_track_state(
    room: &mut RoomState,
    conn_id: u64,
    participant_id: &str,
    mic_enabled: bool,
    screen_share_active: bool,
    camera_enabled: bool,
    screen_share_enabled: bool,
    at_ms: u64,
) -> (r: Result<Option<ParticipantSnapshot>, String>)
    ensures
        ({
            let pre = *old(room);
            let ps = pre.participants@;
            if pre.anonymous_mode {
                r matches Err(e) && e@ == "anonymous mode rejects plaintext media track states"@
                    && *final(room) == pre
            } else if let Some(e) = spec_plaintext_e2ee_gate(pre, conn_id) {
                r matches Err(m) && m@ == e && *final(room) == pre
            } else {
                match spec_sender_check(pre, conn_id, participant_id@) {
                    None => r == Ok::<Option<ParticipantSnapshot>, String>(None) && *final(room) == pre,
                    Some(Some(e)) => r matches Err(m) && m@ == e && *final(room) == pre,
                    Some(None) => {
                        let np = spec_track_applied(
                            ps[conn_id],
                            mic_enabled,
                            screen_share_active,
                            camera_enabled,
                            screen_share_enabled,
                        );
                        &&& final(room).participants@ == ps.insert(conn_id, np)
                        &&& *final(room) == (RoomState { participants: final(room).participants, ..pre })
                        &&& r == Ok::<Option<ParticipantSnapshot>, String>(Some(spec_snapshot(np, at_ms)))
                    },
                }
            }
        }),
{
    if room.anonymous_mode {
        return Err("anonymous mode rejects plaintext media track states".to_owned());
    }
    match plaintext_e2ee_gate(room, conn_id) {
        Some(e) => {
            return Err(e);
        },
        None => {},
    }
    match sender_check(room, conn_id, participant_id) {
        None => {
            return Ok(None);
        },
        Some(Some(e)) => {
            return Err(e);
        },
        Some(None) => {},
    }
    let mut p = match room.participants.get(&conn_id) {
        Some(p) => p.copy(),
        None => {
            return Ok(None);
        },
    };
    p.mic_enabled = mic_enabled;
    if screen_share_active {
        p.video_enabled = false;
        p.screen_share_enabled = screen_share_enabled;
    } else {
        p.video_enabled = camera_enabled;
        p.screen_share_enabled = false;
    }
    let snapshot = participant_snapshot_from_state(&p, at_ms);
    room.participants.insert(conn_id, p);
    Ok(Some(snapshot))
}

/// The decision on an anonymous encrypted media payload.
pub open spec fn spec_anon_payload_check(
    room: RoomState,
    conn_id: u64,
    sender_handle: Seq<char>,
    nonce_hex: Seq<char>,
    ciphertext_hex: Seq<char>,
    epoch: u64,
) -> Result<bool, Seq<char>> {
    let ps = room.participants@;
    if !room.anonymous_mode {
        Err("anonymous encrypted payloads require anonymous room mode"@)
    } else if !spec_is_valid_hex_len(nonce_hex, 24) {
        Err("nonce_hex must be 24-byte hex"@)
    } else if !spec_is_valid_hex(ciphertext_hex) {
        Err("ciphertext_hex must be valid hex"@)
    } else if !ps.contains_key(conn_id) {
        Ok(false)
    } else if !ps[conn_id].hello_seen || !ps[conn_id].anonymous_mode {
        Err("send AnonHello first"@)
    } else if opt_text(ps[conn_id].participant_handle) != Some(sender_handle) {
        Err("anonymous encrypted sender_handle does not match connection"@)
    } else if epoch == 0 {
        Err("epoch must be >= 1"@)
    } else {
        Ok(true)
    }
}

/// Checks an anonymous encrypted media payload; `Ok(true)` means fan it
/// out.
pub fn check_anon_encrypted_payload(
    room: &RoomState,
    conn_id: u64,
    sender_handle: &str,
    nonce_hex: &str,
    ciphertext_hex: &str,
    epoch: u64,
) -> (r: Result<bool, String>)
    ensures
        spec_outcome_text(r) == spec_anon_payload_check(
            *room,
            conn_id,
            sender_handle@,
            nonce_hex@,
            ciphertext_hex@,
            epoch,
        ),
{
    if !room.anonymous_mode {
        return Err("anonymous encrypted payloads require anonymous room mode".to_owned());
    }
    if !is_valid_hex_len(nonce_hex, 24) {
        return Err("nonce_hex must be 24-byte hex".to_owned());
    }
    if !is_valid_hex(ciphertext_hex) {
        return Err("ciphertext_hex must be valid hex".to_owned());
    }
    let p = match room.participants.get(&conn_id) {
        Some(p) => p,
        None => {
            return Ok(false);
        },
    };
    if !p.hello_seen || !p.anonymous_mode {
        return Err("send AnonHello first".to_owned());
    }
    let matches = match &p.participant_handle {
        Some(h) => same_text(h.as_str(), sender_handle),
        None => false,
    };
    if !matches {
        return Err("anonymous encrypted sender_handle does not match connection".to_owned());
    }
    if epoch == 0 {
        return Err("epoch must be >= 1".to_owned());
    }
    Ok(true)
}

} // verus!
