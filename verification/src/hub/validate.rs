//! Checks on single frames and on configuration values, each giving the
//! exact message that the hub sends back when it refuses something.
use vstd::prelude::*;
use crate::codec::{is_valid_hex, is_valid_hex_len, spec_is_valid_hex, spec_is_valid_hex_len};
use crate::hub::frames::{
    DeviceCapabilityFrame, E2EEKeyEpochFrame, MediaProfileNegotiationFrame, ModerationAction,
    RecordingNoticeFrame,
};
use crate::hub::signing::{
    e2ee_public_key_is_valid, e2ee_signature_is_valid, spec_e2ee_key_epoch_payload,
    spec_e2ee_public_key_payload, spec_token_matches,
};
use crate::hub::limits::{
    MAX_ENCRYPTED_CIPHERTEXT_HEX_LEN, MAX_ENCRYPTED_RECIPIENTS_PER_FRAME,
    MIN_ENCRYPTED_CIPHERTEXT_HEX_LEN, WARN_ANON_ESCROW_PROOF_STALE_SECS_THRESHOLD,
    WARN_ANON_MAX_PARTICIPANTS_THRESHOLD,
};
use crate::text::{
    contains_char, has_space_or_control, is_ascii_text, is_blank, opt_text, push_decimal,
    same_text, spec_byte_len, spec_contains_char, spec_decimal, spec_has_space_or_control,
    spec_is_ascii, spec_is_blank, spec_strip_hex_prefix, strip_hex_prefix,
};
use crate::wire::{
    EncryptedControlFrame, EncryptedRecipientPayload, EscrowProofFrame, GroupKeyUpdateFrame,
    HelloFrame, MAX_ANON_PARTICIPANT_HANDLE_LEN, MAX_ESCROW_ID_LEN, MAX_ESCROW_PROOF_HEX_LEN,
};

verus! {

broadcast use vstd::string::group_string_axioms;

/// `"{subject} too long: max {max} chars"`.
pub open spec fn spec_too_long(subject: Seq<char>, max: nat) -> Seq<char> {
    subject + " too long: max "@ + spec_decimal(max) + " chars"@
}

fn too_long_message(subject: &str, max: usize) -> (r: String)
    ensures
        r@ == spec_too_long(subject@, max as nat),
{
    let mut m = subject.to_owned();
    m.append(" too long: max ");
    push_decimal(&mut m, max as u64);
    m.append(" chars");
    m
}

fn with_suffix(subject: &str, suffix: &str) -> (r: String)
    ensures
        r@ == subject@ + suffix@,
{
    let mut m = subject.to_owned();
    m.append(suffix);
    m
}

/// The rule that opaque handles and escrow ids follow, checked in this
/// order: not blank, ASCII, no `@`, no white space or control character,
/// at most `max` bytes. Gives the first broken rule's message.
pub open spec fn spec_handle_error(subject: Seq<char>, value: Seq<char>, max: nat) -> Option<
    Seq<char>,
> {
    if spec_is_blank(value) {
        Some(subject + " must be non-empty"@)
    } else if !spec_is_ascii(value) {
        Some(subject + " must be ASCII"@)
    } else if spec_contains_char(value, '@') {
        Some(subject + " must not contain '@'"@)
    } else if spec_has_space_or_control(value) {
        Some(subject + " must not contain whitespace/control chars"@)
    } else if spec_byte_len(value) > max {
        Some(spec_too_long(subject, max))
    } else {
        None
    }
}

/// True when a handle holds white space or a control character.
pub fn has_disallowed_anon_handle_chars(value: &str) -> (r: bool)
    ensures
        r == spec_has_space_or_control(value@),
{
    has_space_or_control(value)
}

/// True when a handle holds `@`, as account ids do.
pub fn has_forbidden_anon_handle_symbol(value: &str) -> (r: bool)
    ensures
        r == spec_contains_char(value@, '@'),
{
    contains_char(value, '@')
}

/// Checks `value` against the handle rule; `subject` names it in the message.
pub fn handle_error(subject: &str, value: &str, max: usize) -> (r: Option<String>)
    ensures
        opt_text(r) == spec_handle_error(subject@, value@, max as nat),
{
    if is_blank(value) {
        Some(with_suffix(subject, " must be non-empty"))
    } else if !is_ascii_text(value) {
        Some(with_suffix(subject, " must be ASCII"))
    } else if has_forbidden_anon_handle_symbol(value) {
        Some(with_suffix(subject, " must not contain '@'"))
    } else if has_disallowed_anon_handle_chars(value) {
        Some(with_suffix(subject, " must not contain whitespace/control chars"))
    } else if value.as_bytes().len() > max {
        Some(too_long_message(subject, max))
    } else {
        None
    }
}

/// What is wrong with a group key update, if anything.
pub open spec fn spec_group_key_update_error(update: GroupKeyUpdateFrame) -> Option<Seq<char>> {
    let handle = spec_handle_error(
        "group key participant_handle"@,
        update.participant_handle@,
        MAX_ANON_PARTICIPANT_HANDLE_LEN as nat,
    );
    if handle is Some {
        handle
    } else if !spec_is_valid_hex_len(update.x25519_pubkey_hex@, 32) {
        Some("x25519_pubkey_hex must be 32-byte hex"@)
    } else if update.epoch == 0 {
        Some("group key epoch must be >= 1"@)
    } else {
        None
    }
}

/// Checks a group key update: its handle, a 32-byte X25519 key and a
/// non-zero epoch.
pub fn validate_group_key_update_frame(update: &GroupKeyUpdateFrame) -> (r: Option<String>)
    ensures
        opt_text(r) == spec_group_key_update_error(*update),
{
    let handle = handle_error(
        "group key participant_handle",
        update.participant_handle.as_str(),
        MAX_ANON_PARTICIPANT_HANDLE_LEN,
    );
    if handle.is_some() {
        return handle;
    }
    if !is_valid_hex_len(update.x25519_pubkey_hex.as_str(), 32) {
        return Some("x25519_pubkey_hex must be 32-byte hex".to_owned());
    }
    if update.epoch == 0 {
        return Some("group key epoch must be >= 1".to_owned());
    }
    None
}

/// What is wrong with the `i`-th recipient payload of an encrypted frame,
/// given that the payloads before it passed.
pub open spec fn spec_payload_error(payloads: Seq<EncryptedRecipientPayload>, i: int) -> Option<
    Seq<char>,
> {
    let p = payloads[i];
    let recipient = p.recipient_handle@;
    let body = spec_strip_hex_prefix(p.ciphertext_hex@);
    if spec_is_blank(recipient) || !spec_is_valid_hex_len(p.nonce_hex@, 24)
        || p.ciphertext_hex@.len() == 0 {
        Some("encrypted payloads must include recipient, 24-byte nonce, and ciphertext"@)
    } else if spec_byte_len(recipient) > MAX_ANON_PARTICIPANT_HANDLE_LEN {
        Some(spec_too_long("encrypted recipient handle"@, MAX_ANON_PARTICIPANT_HANDLE_LEN as nat))
    } else if !spec_is_ascii(recipient) {
        Some("encrypted recipient handle must be ASCII"@)
    } else if spec_contains_char(recipient, '@') {
        Some("encrypted recipient handle must not contain '@'"@)
    } else if spec_has_space_or_control(recipient) {
        Some("encrypted recipient handle must not contain whitespace/control chars"@)
    } else if !spec_is_valid_hex(p.ciphertext_hex@) {
        Some("encrypted ciphertext must be valid hex"@)
    } else if spec_byte_len(body) > MAX_ENCRYPTED_CIPHERTEXT_HEX_LEN {
        Some(
            "encrypted ciphertext too long: max "@ + spec_decimal(
                MAX_ENCRYPTED_CIPHERTEXT_HEX_LEN as nat,
            ) + " hex chars"@,
        )
    } else if spec_byte_len(body) < MIN_ENCRYPTED_CIPHERTEXT_HEX_LEN {
        Some(
            "encrypted ciphertext too short: min "@ + spec_decimal(
                MIN_ENCRYPTED_CIPHERTEXT_HEX_LEN as nat,
            ) + " hex chars"@,
        )
    } else if exists|j: int| 0 <= j < i && #[trigger] payloads[j].recipient_handle@ == recipient {
        Some("encrypted payload recipients must be unique"@)
    } else {
        None
    }
}

/// The first recipient payload error at index `i` or later.
pub open spec fn spec_first_payload_error(payloads: Seq<EncryptedRecipientPayload>, i: int) -> Option<
    Seq<char>,
>
    decreases payloads.len() - i,
{
    if i < 0 || i >= payloads.len() {
        None
    } else if spec_payload_error(payloads, i) is Some {
        spec_payload_error(payloads, i)
    } else {
        spec_first_payload_error(payloads, i + 1)
    }
}

/// What is wrong with an encrypted control frame, if anything.
pub open spec fn spec_encrypted_control_error(enc: EncryptedControlFrame) -> Option<Seq<char>> {
    let sender = spec_handle_error(
        "encrypted sender handle"@,
        enc.sender_handle@,
        MAX_ANON_PARTICIPANT_HANDLE_LEN as nat,
    );
    if enc.epoch == 0 {
        Some("encrypted control epoch must be >= 1"@)
    } else if sender is Some {
        sender
    } else if enc.payloads@.len() == 0 {
        Some("encrypted control payloads must be non-empty"@)
    } else if enc.payloads@.len() > MAX_ENCRYPTED_RECIPIENTS_PER_FRAME {
        Some(
            "encrypted payload fanout too large: max "@ + spec_decimal(
                MAX_ENCRYPTED_RECIPIENTS_PER_FRAME as nat,
            ) + " recipients"@,
        )
    } else {
        spec_first_payload_error(enc.payloads@, 0)
    }
}

fn recipient_seen_before(payloads: &Vec<EncryptedRecipientPayload>, i: usize) -> (r: bool)
    requires
        i < payloads@.len(),
    ensures
        r == exists|j: int|
            0 <= j < i && #[trigger] payloads@[j].recipient_handle@
                == payloads@[i as int].recipient_handle@,
{
    let mut j: usize = 0;
    while j < i
        invariant
            j <= i < payloads@.len(),
            forall|k: int|
                0 <= k < j ==> #[trigger] payloads@[k].recipient_handle@
                    != payloads@[i as int].recipient_handle@,
        decreases i - j,
    {
        if same_text(payloads[j].recipient_handle.as_str(), payloads[i].recipient_handle.as_str()) {
            return true;
        }
        j = j + 1;
    }
    false
}

fn payload_error(payloads: &Vec<EncryptedRecipientPayload>, i: usize) -> (r: Option<String>)
    requires
        i < payloads@.len(),
    ensures
        opt_text(r) == spec_payload_error(payloads@, i as int),
{
    let p = &payloads[i];
    let recipient = p.recipient_handle.as_str();
    let body = strip_hex_prefix(p.ciphertext_hex.as_str());
    if is_blank(recipient) || !is_valid_hex_len(p.nonce_hex.as_str(), 24)
        || p.ciphertext_hex.as_str().unicode_len() == 0 {
        return Some(
            "encrypted payloads must include recipient, 24-byte nonce, and ciphertext".to_owned(),
        );
    }
    if recipient.as_bytes().len() > MAX_ANON_PARTICIPANT_HANDLE_LEN {
        return Some(too_long_message("encrypted recipient handle", MAX_ANON_PARTICIPANT_HANDLE_LEN));
    }
    if !is_ascii_text(recipient) {
        return Some("encrypted recipient handle must be ASCII".to_owned());
    }
    if contains_char(recipient, '@') {
        return Some("encrypted recipient handle must not contain '@'".to_owned());
    }
    if has_space_or_control(recipient) {
        return Some(
            "encrypted recipient handle must not contain whitespace/control chars".to_owned(),
        );
    }
    if !is_valid_hex(p.ciphertext_hex.as_str()) {
        return Some("encrypted ciphertext must be valid hex".to_owned());
    }
    if body.as_bytes().len() > MAX_ENCRYPTED_CIPHERTEXT_HEX_LEN {
        let mut m = "encrypted ciphertext too long: max ".to_owned();
        push_decimal(&mut m, MAX_ENCRYPTED_CIPHERTEXT_HEX_LEN as u64);
        m.append(" hex chars");
        return Some(m);
    }
    if body.as_bytes().len() < MIN_ENCRYPTED_CIPHERTEXT_HEX_LEN {
        let mut m = "encrypted ciphertext too short: min ".to_owned();
        push_decimal(&mut m, MIN_ENCRYPTED_CIPHERTEXT_HEX_LEN as u64);
        m.append(" hex chars");
        return Some(m);
    }
    if recipient_seen_before(payloads, i) {
        return Some("encrypted payload recipients must be unique".to_owned());
    }
    None
}

/// Checks an encrypted control frame: a non-zero epoch, the sender handle,
/// between one and the maximum number of recipients, and for each recipient
/// payload a handle, a 24-byte nonce and hex ciphertext of bounded length,
/// with no recipient addressed twice.
pub fn validate_encrypted_control_frame(enc: &EncryptedControlFrame) -> (r: Option<String>)
    ensures
        opt_text(r) == spec_encrypted_control_error(*enc),
{
    if enc.epoch == 0 {
        return Some("encrypted control epoch must be >= 1".to_owned());
    }
    let sender = handle_error(
        "encrypted sender handle",
        enc.sender_handle.as_str(),
        MAX_ANON_PARTICIPANT_HANDLE_LEN,
    );
    if sender.is_some() {
        return sender;
    }
    let n = enc.payloads.len();
    if n == 0 {
        return Some("encrypted control payloads must be non-empty".to_owned());
    }
    if n > MAX_ENCRYPTED_RECIPIENTS_PER_FRAME {
        let mut m = "encrypted payload fanout too large: max ".to_owned();
        push_decimal(&mut m, MAX_ENCRYPTED_RECIPIENTS_PER_FRAME as u64);
        m.append(" recipients");
        return Some(m);
    }
    let mut i: usize = 0;
    while i < n
        invariant
            i <= n,
            n == enc.payloads@.len(),
            spec_encrypted_control_error(*enc) == spec_first_payload_error(enc.payloads@, 0),
            spec_first_payload_error(enc.payloads@, 0) == spec_first_payload_error(
                enc.payloads@,
                i as int,
            ),
        decreases n - i,
    {
        let e = payload_error(&enc.payloads, i);
        assert(spec_first_payload_error(enc.payloads@, i as int) == if spec_payload_error(
            enc.payloads@,
            i as int,
        ) is Some {
            spec_payload_error(enc.payloads@, i as int)
        } else {
            spec_first_payload_error(enc.payloads@, i + 1)
        });
        if e.is_some() {
            return e;
        }
        i = i + 1;
    }
    None
}

/// What is wrong with an encrypted frame's epoch against the sender's.
pub open spec fn spec_encrypted_control_epoch_error(frame_epoch: u64, sender_epoch: u64) -> Option<
    Seq<char>,
> {
    if sender_epoch == 0 {
        Some("sender key epoch is not initialized"@)
    } else if frame_epoch != sender_epoch {
        Some(
            "encrypted control epoch mismatch: expected "@ + spec_decimal(sender_epoch as nat)
                + " got "@ + spec_decimal(frame_epoch as nat),
        )
    } else {
        None
    }
}

/// An encrypted frame must carry the sender's current, initialized epoch.
pub fn validate_encrypted_control_epoch(frame_epoch: u64, sender_epoch: u64) -> (r: Option<String>)
    ensures
        opt_text(r) == spec_encrypted_control_epoch_error(frame_epoch, sender_epoch),
{
    if sender_epoch == 0 {
        return Some("sender key epoch is not initialized".to_owned());
    }
    if frame_epoch != sender_epoch {
        let mut m = "encrypted control epoch mismatch: expected ".to_owned();
        push_decimal(&mut m, sender_epoch);
        m.append(" got ");
        push_decimal(&mut m, frame_epoch);
        return Some(m);
    }
    None
}

/// What is wrong with an escrow proof, if anything.
pub open spec fn spec_escrow_proof_error(proof: EscrowProofFrame) -> Option<Seq<char>> {
    let payer = spec_handle_error(
        "payer_handle"@,
        proof.payer_handle@,
        MAX_ANON_PARTICIPANT_HANDLE_LEN as nat,
    );
    let escrow = spec_handle_error("escrow_id"@, proof.escrow_id@, MAX_ESCROW_ID_LEN as nat);
    if payer is Some {
        payer
    } else if escrow is Some {
        escrow
    } else if spec_byte_len(spec_strip_hex_prefix(proof.proof_hex@)) > MAX_ESCROW_PROOF_HEX_LEN {
        Some(
            "proof_hex too long: max "@ + spec_decimal(MAX_ESCROW_PROOF_HEX_LEN as nat)
                + " hex chars"@,
        )
    } else if !spec_is_valid_hex(proof.proof_hex@) {
        Some("proof_hex must be valid hex"@)
    } else {
        None
    }
}

/// Checks an escrow proof: the payer handle, the escrow id, and non-empty
/// hex proof bytes of bounded length.
pub fn validate_escrow_proof_frame(proof: &EscrowProofFrame) -> (r: Option<String>)
    ensures
        opt_text(r) == spec_escrow_proof_error(*proof),
{
    let payer = handle_error(
        "payer_handle",
        proof.payer_handle.as_str(),
        MAX_ANON_PARTICIPANT_HANDLE_LEN,
    );
    if payer.is_some() {
        return payer;
    }
    let escrow = handle_error("escrow_id", proof.escrow_id.as_str(), MAX_ESCROW_ID_LEN);
    if escrow.is_some() {
        return escrow;
    }
    let normalized = strip_hex_prefix(proof.proof_hex.as_str());
    if normalized.as_bytes().len() > MAX_ESCROW_PROOF_HEX_LEN {
        let mut m = "proof_hex too long: max ".to_owned();
        push_decimal(&mut m, MAX_ESCROW_PROOF_HEX_LEN as u64);
        m.append(" hex chars");
        return Some(m);
    }
    if !is_valid_hex(proof.proof_hex.as_str()) {
        return Some("proof_hex must be valid hex".to_owned());
    }
    None
}

/// What is wrong with an incoming escrow id against the session's.
pub open spec fn spec_escrow_id_consistency_error(
    current: Option<Seq<char>>,
    incoming: Seq<char>,
) -> Option<Seq<char>> {
    match current {
        Some(expected) if expected != incoming => Some(
            "escrow_id must remain stable for a participant session"@,
        ),
        _ => None,
    }
}

/// Once a session has an escrow id, later proofs must carry the same one.
pub fn validate_escrow_id_consistency(current: Option<&str>, incoming: &str) -> (r: Option<String>)
    ensures
        opt_text(r) == spec_escrow_id_consistency_error(
            match current {
                Some(c) => Some(c@),
                None => None,
            },
            incoming@,
        ),
{
    match current {
        Some(expected) => {
            if !same_text(expected, incoming) {
                Some("escrow_id must remain stable for a participant session".to_owned())
            } else {
                None
            }
        },
        None => None,
    }
}

/// What is wrong with a device capability report, if anything.
pub open spec fn spec_device_capability_error(cap: DeviceCapabilityFrame) -> Option<Seq<char>> {
    if spec_is_blank(cap.participant_id@) {
        Some("device capability participant_id must be non-empty"@)
    } else if cap.max_video_streams == 0 {
        Some("device capability max_video_streams must be >= 1"@)
    } else if cap.codecs@.len() == 0 {
        Some("device capability codecs must be non-empty"@)
    } else if exists|i: int| 0 <= i < cap.codecs@.len() && spec_is_blank(#[trigger] cap.codecs@[i]@) {
        Some("device capability codec entries must be non-empty"@)
    } else {
        None
    }
}

/// Checks a device capability report: a participant id, at least one video
/// stream and a non-empty list of non-blank codecs.
pub fn validate_device_capability_frame(cap: &DeviceCapabilityFrame) -> (r: Option<String>)
    ensures
        opt_text(r) == spec_device_capability_error(*cap),
{
    if is_blank(cap.participant_id.as_str()) {
        return Some("device capability participant_id must be non-empty".to_owned());
    }
    if cap.max_video_streams == 0 {
        return Some("device capability max_video_streams must be >= 1".to_owned());
    }
    if cap.codecs.len() == 0 {
        return Some("device capability codecs must be non-empty".to_owned());
    }
    let mut i: usize = 0;
    while i < cap.codecs.len()
        invariant
            i <= cap.codecs@.len(),
            !spec_is_blank(cap.participant_id@),
            cap.max_video_streams != 0,
            cap.codecs@.len() != 0,
            forall|j: int| 0 <= j < i ==> !spec_is_blank(#[trigger] cap.codecs@[j]@),
        decreases cap.codecs@.len() - i,
    {
        if is_blank(cap.codecs[i].as_str()) {
            assert(spec_is_blank(cap.codecs@[i as int]@));
            return Some("device capability codec entries must be non-empty".to_owned());
        }
        i = i + 1;
    }
    None
}

/// What is wrong with a media profile negotiation, if anything.
pub open spec fn spec_media_profile_error(profile: MediaProfileNegotiationFrame) -> Option<
    Seq<char>,
> {
    if spec_is_blank(profile.participant_id@) {
        Some("media profile participant_id must be non-empty"@)
    } else if spec_is_blank(profile.codec@) {
        Some("media profile codec must be non-empty"@)
    } else if profile.epoch == 0 {
        Some("media profile epoch must be >= 1"@)
    } else {
        None
    }
}

/// Checks a media profile negotiation: a participant id, a codec and a
/// non-zero epoch.
pub fn validate_media_profile_negotiation_frame(profile: &MediaProfileNegotiationFrame) -> (r:
    Option<String>)
    ensures
        opt_text(r) == spec_media_profile_error(*profile),
{
    if is_blank(profile.participant_id.as_str()) {
        return Some("media profile participant_id must be non-empty".to_owned());
    }
    if is_blank(profile.codec.as_str()) {
        return Some("media profile codec must be non-empty".to_owned());
    }
    if profile.epoch == 0 {
        return Some("media profile epoch must be >= 1".to_owned());
    }
    None
}

/// What is wrong with a recording notice, if anything.
pub open spec fn spec_recording_notice_error(notice: RecordingNoticeFrame) -> Option<Seq<char>> {
    if spec_is_blank(notice.participant_id@) {
        Some("recording notice participant_id must be non-empty"@)
    } else if spec_is_blank(notice.issued_by@) {
        Some("recording notice issued_by must be non-empty"@)
    } else {
        None
    }
}

/// Checks a recording notice: it names the participant and the issuer.
pub fn validate_recording_notice_frame(notice: &RecordingNoticeFrame) -> (r: Option<String>)
    ensures
        opt_text(r) == spec_recording_notice_error(*notice),
{
    if is_blank(notice.participant_id.as_str()) {
        return Some("recording notice participant_id must be non-empty".to_owned());
    }
    if is_blank(notice.issued_by.as_str()) {
        return Some("recording notice issued_by must be non-empty".to_owned());
    }
    None
}

/// What a group key update decides against the sender's current key:
/// `Ok(true)` to apply it, `Ok(false)` for an idempotent repeat, or the
/// refusal.
pub open spec fn spec_group_key_update_decision(
    current_epoch: u64,
    current_pubkey_hex: Option<Seq<char>>,
    update_epoch: u64,
    update_pubkey_hex: Seq<char>,
) -> Result<bool, Seq<char>> {
    if update_epoch == 0 {
        Err("group key epoch must be >= 1"@)
    } else if update_epoch < current_epoch {
        Err(
            "group key epoch is stale: current_epoch="@ + spec_decimal(current_epoch as nat)
                + " update_epoch="@ + spec_decimal(update_epoch as nat),
        )
    } else if update_epoch == current_epoch {
        if current_pubkey_hex == Some(update_pubkey_hex) {
            Ok(false)
        } else {
            Err("group key rotation requires strictly increasing epoch for this sender"@)
        }
    } else {
        Ok(true)
    }
}

/// The text of a `Result<bool, String>`.
pub open spec fn bool_result_text(r: Result<bool, String>) -> Result<bool, Seq<char>> {
    match r {
        Ok(b) => Ok(b),
        Err(e) => Err(e@),
    }
}

/// Decides a group key update: epochs must not go back, a repeat of the
/// current epoch is accepted only with the same key, and a newer epoch
/// applies.
pub fn should_apply_group_key_update(
    current_epoch: u64,
    current_pubkey_hex: Option<&str>,
    update_epoch: u64,
    update_pubkey_hex: &str,
) -> (r: Result<bool, String>)
    ensures
        bool_result_text(r) == spec_group_key_update_decision(
            current_epoch,
            match current_pubkey_hex {
                Some(c) => Some(c@),
                None => None,
            },
            update_epoch,
            update_pubkey_hex@,
        ),
{
    if update_epoch == 0 {
        return Err("group key epoch must be >= 1".to_owned());
    }
    if update_epoch < current_epoch {
        let mut m = "group key epoch is stale: current_epoch=".to_owned();
        push_decimal(&mut m, current_epoch);
        m.append(" update_epoch=");
        push_decimal(&mut m, update_epoch);
        return Err(m);
    }
    if update_epoch == current_epoch {
        let same = match current_pubkey_hex {
            Some(c) => same_text(c, update_pubkey_hex),
            None => false,
        };
        if same {
            return Ok(false);
        }
        return Err("group key rotation requires strictly increasing epoch for this sender".to_owned());
    }
    Ok(true)
}

/// A participant id without `@` belongs to a guest; account ids look like
/// `name@domain`.
pub fn participant_id_is_guest(participant_id: &str) -> (r: bool)
    ensures
        r == !spec_contains_char(participant_id@, '@'),
{
    !contains_char(participant_id, '@')
}

/// Whether a room-wide moderation action also reaches its sender: only a
/// kick does.
pub fn include_sender_in_all_target(action: &ModerationAction) -> (r: bool)
    ensures
        r == (*action == ModerationAction::Kick),
{
    match action {
        ModerationAction::Kick => true,
        _ => false,
    }
}

/// Forces mic, video and screen share off on join; true when any was on.
/// Every other field is kept.
pub fn enforce_join_media_defaults(hello: &mut HelloFrame) -> (forced_off: bool)
    ensures
        forced_off == (old(hello).mic_enabled || old(hello).video_enabled
            || old(hello).screen_share_enabled),
        *final(hello) == (HelloFrame {
            mic_enabled: false,
            video_enabled: false,
            screen_share_enabled: false,
            ..*old(hello)
        }),
{
    let forced_off = hello.mic_enabled || hello.video_enabled || hello.screen_share_enabled;
    hello.mic_enabled = false;
    hello.video_enabled = false;
    hello.screen_share_enabled = false;
    forced_off
}

/// True when more than `max_stale_secs` seconds passed since the last
/// proof; a clock that went back counts as no time passed.
pub fn escrow_proof_stale(last_proof_at_ms: u64, now_ms: u64, max_stale_secs: u64) -> (r: bool)
    ensures
        r == ((if now_ms >= last_proof_at_ms {
            now_ms - last_proof_at_ms
        } else {
            0
        }) > (if max_stale_secs * 1000 <= u64::MAX {
            max_stale_secs * 1000
        } else {
            u64::MAX as int
        })),
{
    let elapsed = if now_ms >= last_proof_at_ms {
        now_ms - last_proof_at_ms
    } else {
        0
    };
    let window = match max_stale_secs.checked_mul(1000) {
        Some(w) => w,
        None => u64::MAX,
    };
    elapsed > window
}

/// True when an anonymous connection waited longer than `max_wait_secs`
/// seconds for its hello; the same window rule as escrow proofs.
pub fn anonymous_hello_timed_out(connected_at_ms: u64, now_ms: u64, max_wait_secs: u64) -> (r: bool)
    ensures
        r == ((if now_ms >= connected_at_ms {
            now_ms - connected_at_ms
        } else {
            0
        }) > (if max_wait_secs * 1000 <= u64::MAX {
            max_wait_secs * 1000
        } else {
            u64::MAX as int
        })),
{
    escrow_proof_stale(connected_at_ms, now_ms, max_wait_secs)
}

/// The anonymous participant cap, at least one.
pub fn normalize_anon_max_participants(value: usize) -> (r: usize)
    ensures
        r == if value < 1 {
            1
        } else {
            value
        },
{
    if value < 1 {
        1
    } else {
        value
    }
}

/// Caps above the warning threshold draw a warning.
pub fn should_warn_high_anon_capacity(value: usize) -> (r: bool)
    ensures
        r == (value > WARN_ANON_MAX_PARTICIPANTS_THRESHOLD),
{
    value > WARN_ANON_MAX_PARTICIPANTS_THRESHOLD
}

/// A stale window of zero seconds turns the escrow check off.
pub fn is_anon_escrow_stale_enforcement_disabled(value: u64) -> (r: bool)
    ensures
        r == (value == 0),
{
    value == 0
}

/// Stale windows above the warning threshold draw a warning.
pub fn should_warn_high_anon_escrow_stale_secs(value: u64) -> (r: bool)
    ensures
        r == (value > WARN_ANON_ESCROW_PROOF_STALE_SECS_THRESHOLD),
{
    value > WARN_ANON_ESCROW_PROOF_STALE_SECS_THRESHOLD
}

/// The room rate under the free-call policy: unchanged when free calls are
/// allowed, otherwise at least one.
pub fn normalize_rate_for_policy(rate_per_minute_nano: u64, allow_free_calls: bool) -> (r: u64)
    ensures
        r == if allow_free_calls || rate_per_minute_nano >= 1 {
            rate_per_minute_nano
        } else {
            1
        },
{
    if allow_free_calls {
        rate_per_minute_nano
    } else if rate_per_minute_nano < 1 {
        1
    } else {
        rate_per_minute_nano
    }
}

/// The message that refuses a zero initial rate.
pub open spec fn spec_zero_rate_message() -> Seq<char> {
    "--xor-rate-per-minute-nano must be > 0 unless --allow-free-calls is set"@
}

/// The configured initial rate: a zero rate is refused unless free calls
/// are allowed.
pub fn normalize_initial_rate(rate_per_minute_nano: u64, allow_free_calls: bool) -> (r: Result<
    u64,
    String,
>)
    ensures
        rate_per_minute_nano == 0 && !allow_free_calls ==> (r matches Err(e) && e@
            == spec_zero_rate_message()),
        !(rate_per_minute_nano == 0 && !allow_free_calls) ==> r == Ok::<u64, String>(
            rate_per_minute_nano,
        ),
{
    if rate_per_minute_nano == 0 && !allow_free_calls {
        return Err("--xor-rate-per-minute-nano must be > 0 unless --allow-free-calls is set".to_owned());
    }
    Ok(normalize_rate_for_policy(rate_per_minute_nano, allow_free_calls))
}

/// The message that refuses a surcharge that overflows.
pub open spec fn spec_surcharge_overflow_message() -> Seq<char> {
    "anonymous surcharge overflow: room_rate_per_minute_nano + --anon-zk-extra-fee-per-minute-nano exceeds u64"@
}

/// The room rate once the anonymous surcharge is added; refused when the
/// sum does not fit in `u64`.
pub fn apply_anonymous_zk_surcharge(
    base_rate_per_minute_nano: u64,
    extra_fee_per_minute_nano: u64,
) -> (r: Result<u64, String>)
    ensures
        base_rate_per_minute_nano + extra_fee_per_minute_nano <= u64::MAX ==> r == Ok::<
            u64,
            String,
        >((base_rate_per_minute_nano + extra_fee_per_minute_nano) as u64),
        base_rate_per_minute_nano + extra_fee_per_minute_nano > u64::MAX ==> (r matches Err(e)
            && e@ == spec_surcharge_overflow_message()),
{
    if extra_fee_per_minute_nano == 0 {
        return Ok(base_rate_per_minute_nano);
    }
    match base_rate_per_minute_nano.checked_add(extra_fee_per_minute_nano) {
        Some(v) => Ok(v),
        None => Err(
            "anonymous surcharge overflow: room_rate_per_minute_nano + --anon-zk-extra-fee-per-minute-nano exceeds u64".to_owned(),
        ),
    }
}

/// What is wrong with an E2EE key epoch, if anything.
pub open spec fn spec_e2ee_key_epoch_error(frame: E2EEKeyEpochFrame) -> Option<Seq<char>> {
    if spec_is_blank(frame.participant_id@) {
        Some("e2ee key epoch participant_id must be non-empty"@)
    } else if frame.epoch == 0 {
        Some("e2ee key epoch must be >= 1"@)
    } else if !spec_is_valid_hex_len(frame.public_key_hex@, 32) {
        Some("e2ee key epoch public_key_hex must be 32-byte hex"@)
    } else if !spec_is_valid_hex_len(frame.signature_hex@, 32) {
        Some("e2ee key epoch signature_hex must be 32-byte hex"@)
    } else if !spec_token_matches(
        "e2ee_public_key"@,
        spec_e2ee_public_key_payload(frame),
        frame.public_key_hex@,
    ) {
        Some("e2ee key epoch public_key_hex failed verification"@)
    } else if !spec_token_matches(
        "e2ee_key_epoch"@,
        spec_e2ee_key_epoch_payload(frame),
        frame.signature_hex@,
    ) {
        Some("e2ee key epoch signature_hex failed verification"@)
    } else {
        None
    }
}

/// Checks an E2EE key epoch: a participant id, a non-zero epoch, 32-byte
/// hex key and signature, the key derived from participant and epoch, and
/// a matching signature.
pub fn validate_e2ee_key_epoch_frame(frame: &E2EEKeyEpochFrame) -> (r: Option<String>)
    ensures
        opt_text(r) == spec_e2ee_key_epoch_error(*frame),
{
    if is_blank(frame.participant_id.as_str()) {
        return Some("e2ee key epoch participant_id must be non-empty".to_owned());
    }
    if frame.epoch == 0 {
        return Some("e2ee key epoch must be >= 1".to_owned());
    }
    if !is_valid_hex_len(frame.public_key_hex.as_str(), 32) {
        return Some("e2ee key epoch public_key_hex must be 32-byte hex".to_owned());
    }
    if !is_valid_hex_len(frame.signature_hex.as_str(), 32) {
        return Some("e2ee key epoch signature_hex must be 32-byte hex".to_owned());
    }
    if !e2ee_public_key_is_valid(frame) {
        return Some("e2ee key epoch public_key_hex failed verification".to_owned());
    }
    if !e2ee_signature_is_valid(frame) {
        return Some("e2ee key epoch signature_hex failed verification".to_owned());
    }
    None
}

} // verus!
