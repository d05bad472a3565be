//! Signed role grants and revocations, signed session policy updates, and
//! the moderation sender clock: the host-only changes to a room.
use vstd::prelude::*;
use crate::codec::{is_valid_hex_len, spec_is_valid_hex_len};
use crate::hub::frames::{
    ModerationFrame, RoleChangeEntry, RoleGrantFrame, RoleKind, RoleRevokeFrame,
    SessionPolicyFrame,
};
use crate::hub::membership::{spec_bump};
use crate::hub::room::{
    enforce_signed_action_clock, spec_active_co_hosts, spec_clock_accepts, spec_clock_error,
    sync_active_co_host_bindings, ParticipantState, RoomState,
};
use crate::hub::signing::{
    role_grant_signature_is_valid, role_revoke_signature_is_valid,
    session_policy_signature_is_valid, spec_clock_key, spec_role_grant_payload,
    spec_role_revoke_payload, spec_session_policy_payload, spec_token_matches,
};
use crate::hub::table::table_layout;
use crate::text::{push_decimal, same_text, spec_decimal};

verus! {

broadcast use vstd::string::group_string_axioms;

/// The first joined connection, in table order from index `i`, whose
/// participant id is `participant_id`.
pub open spec fn spec_first_joined(
    keys: Seq<u64>,
    vals: Seq<ParticipantState>,
    participant_id: Seq<char>,
    i: int,
) -> Option<u64>
    decreases keys.len() - i,
{
    if i < 0 || i >= keys.len() {
        None
    } else if vals[i].hello_seen && vals[i].participant_id@ == participant_id {
        Some(keys[i])
    } else {
        spec_first_joined(keys, vals, participant_id, i + 1)
    }
}

/// The joined connection of a participant id (the first in table order).
pub open spec fn spec_joined_conn(room: RoomState, participant_id: Seq<char>) -> Option<u64> {
    spec_first_joined(room.participants.key_seq(), room.participants.val_seq(), participant_id, 0)
}

proof fn lemma_first_joined(
    keys: Seq<u64>,
    vals: Seq<ParticipantState>,
    participant_id: Seq<char>,
    i: int,
)
    requires
        0 <= i <= keys.len(),
        keys.len() == vals.len(),
    ensures
        match spec_first_joined(keys, vals, participant_id, i) {
            Some(c) => exists|j: int|
                i <= j < keys.len() && keys[j] == c && (#[trigger] vals[j]).hello_seen
                    && vals[j].participant_id@ == participant_id,
            None => forall|j: int|
                i <= j < keys.len() ==> !((#[trigger] vals[j]).hello_seen
                    && vals[j].participant_id@ == participant_id),
        },
    decreases keys.len() - i,
{
    if i < keys.len() {
        lemma_first_joined(keys, vals, participant_id, i + 1);
    }
}

/// Finds the joined connection of a participant id.
pub fn find_joined_conn(room: &RoomState, participant_id: &str) -> (r: Option<u64>)
    ensures
        r == spec_joined_conn(*room, participant_id@),
        r matches Some(c) ==> room.participants@.contains_key(c)
            && room.participants@[c].hello_seen && room.participants@[c].participant_id@
            == participant_id@,
        r is None ==> forall|c: u64|
            #[trigger] room.participants@.contains_key(c) ==> !(room.participants@[c].hello_seen
                && room.participants@[c].participant_id@ == participant_id@),
{
    let n = room.participants.len();
    let ghost keys = room.participants.key_seq();
    let ghost vals = room.participants.val_seq();
    let mut i: usize = 0;
    while i < n
        invariant
            i <= n,
            n == keys.len(),
            keys == room.participants.key_seq(),
            vals == room.participants.val_seq(),
            table_layout(room.participants),
            spec_first_joined(keys, vals, participant_id@, 0) == spec_first_joined(
                keys,
                vals,
                participant_id@,
                i as int,
            ),
        decreases n - i,
    {
        let p = room.participants.value_at(i);
        if p.hello_seen && same_text(p.participant_id.as_str(), participant_id) {
            let c = room.participants.key_at(i);
            assert(room.participants@[keys[i as int]] == vals[i as int]);
            return Some(c);
        }
        i = i + 1;
    }
    proof {
        lemma_first_joined(keys, vals, participant_id@, 0);
        assert forall|c: u64| #[trigger] room.participants@.contains_key(c) implies !(
        room.participants@[c].hello_seen && room.participants@[c].participant_id@
            == participant_id@) by {
            let j = keys.index_of(c);
            assert(room.participants@[keys[j]] == vals[j]);
        }
    }
    None
}

/// The checks that every host-only signed change passes first, in this
/// order: the sender is known, has joined and is the host; it names itself
/// as the actor; its signature is 32-byte hex and matches.
pub open spec fn spec_host_action_error(
    room: RoomState,
    sender_conn_id: u64,
    actor: Seq<char>,
    actor_label: Seq<char>,
    signature_hex: Seq<char>,
    signature_ok: bool,
    tag: Seq<char>,
) -> Option<Seq<char>> {
    let ps = room.participants@;
    if !ps.contains_key(sender_conn_id) {
        Some("participant missing"@)
    } else if !ps[sender_conn_id].hello_seen {
        Some("send Hello first"@)
    } else if room.host_conn_id != Some(sender_conn_id) {
        Some("host only"@)
    } else if ps[sender_conn_id].participant_id@ != actor {
        Some(actor_label + " must match sender participant_id"@)
    } else if !spec_is_valid_hex_len(signature_hex, 32) {
        Some("signature_hex must be 32-byte hex"@)
    } else if !signature_ok {
        Some("signature_hex failed "@ + tag + " verification"@)
    } else {
        None
    }
}

fn host_action_error(
    room: &RoomState,
    sender_conn_id: u64,
    actor: &str,
    actor_label: &str,
    signature_hex: &str,
    signature_ok: bool,
    tag: &str,
) -> (r: Option<String>)
    ensures
        crate::text::opt_text(r) == spec_host_action_error(
            *room,
            sender_conn_id,
            actor@,
            actor_label@,
            signature_hex@,
            signature_ok,
            tag@,
        ),
{
    let sender = match room.participants.get(&sender_conn_id) {
        Some(p) => p,
        None => {
            return Some("participant missing".to_owned());
        },
    };
    if !sender.hello_seen {
        return Some("send Hello first".to_owned());
    }
    if room.host_conn_id != Some(sender_conn_id) {
        return Some("host only".to_owned());
    }
    if !same_text(sender.participant_id.as_str(), actor) {
        let mut m = actor_label.to_owned();
        m.append(" must match sender participant_id");
        return Some(m);
    }
    if !is_valid_hex_len(signature_hex, 32) {
        return Some("signature_hex must be 32-byte hex".to_owned());
    }
    if !signature_ok {
        let mut m = "signature_hex failed ".to_owned();
        m.append(tag);
        m.append(" verification");
        return Some(m);
    }
    None
}

/// What a role change did: whether the host moved, whether permissions
/// changed, and the change to announce.
#[derive(Clone, Debug)]
pub struct RoleMutationOutcome {
    pub host_changed: bool,
    pub permissions_changed: bool,
    pub role_change: Option<RoleChangeEntry>,
}

/// Why a role grant is refused, if it is, before its effects.
pub open spec fn spec_role_grant_error(room: RoomState, sender_conn_id: u64, grant: RoleGrantFrame) -> Option<
    Seq<char>,
> {
    let pre = spec_host_action_error(
        room,
        sender_conn_id,
        grant.granted_by@,
        "granted_by"@,
        grant.signature_hex@,
        spec_token_matches("role_grant"@, spec_role_grant_payload(grant), grant.signature_hex@),
        "role_grant"@,
    );
    let target = spec_joined_conn(room, grant.target_participant_id@);
    let key = spec_clock_key("role_grant"@, grant.granted_by@);
    let clock = room.signed_action_clock_by_signer@;
    if pre is Some {
        pre
    } else if target is None {
        Some("unknown participant_id: "@ + grant.target_participant_id@)
    } else if grant.role == RoleKind::Participant {
        Some("role grant supports Host or CoHost only"@)
    } else if grant.role == RoleKind::CoHost && room.host_conn_id == target {
        Some("host already has full permissions"@)
    } else if !spec_clock_accepts(clock, key, grant.issued_at_ms) {
        Some(
            spec_clock_error(
                clock,
                "role_grant"@,
                grant.granted_by@,
                "issued_at_ms"@,
                grant.issued_at_ms,
            ),
        )
    } else {
        None
    }
}

/// Applies a host-signed role grant. Granting host makes the target's
/// participant id the host-role owner and its connection the host;
/// granting co-host adds the id to the co-host owners and binds the
/// connection. Either way the co-hosts are re-derived, the signer's
/// `role_grant` clock records the grant, and the permissions epoch moves on
/// when anything changed. A refusal leaves the room as it was.
pub fn apply_role_grant(room: &mut RoomState, sender_conn_id: u64, grant: &RoleGrantFrame) -> (r:
    Result<RoleMutationOutcome, String>)
    ensures
        spec_role_grant_error(*old(room), sender_conn_id, *grant) matches Some(e) ==> (r matches Err(
            m,
        ) && m@ == e && *final(room) == *old(room)),
        spec_role_grant_error(*old(room), sender_conn_id, *grant) is None ==> ({
            let t = spec_joined_conn(*old(room), grant.target_participant_id@).unwrap();
            let pid = grant.target_participant_id@;
            let ps = old(room).participants@;
            let host0 = old(room).host_conn_id;
            let co0 = old(room).co_host_conn_ids@;
            let owners0 = old(room).co_host_role_owners@;
            let clock = old(room).signed_action_clock_by_signer@.insert(
                spec_clock_key("role_grant"@, grant.granted_by@),
                grant.issued_at_ms,
            );
            &&& final(room).signed_action_clock_by_signer@ == clock
            &&& r matches Ok(out) && if grant.role == RoleKind::Host {
                let co = spec_active_co_hosts(ps, Some(t), owners0);
                let changed = !(old(room).host_role_owner matches Some(o) && o@ == pid) || host0
                    != Some(t) || co != co0;
                &&& final(room).host_role_owner matches Some(o) && o@ == pid
                &&& final(room).host_conn_id == Some(t)
                &&& final(room).co_host_conn_ids@ == co
                &&& final(room).permissions_epoch == if changed {
                    spec_bump(old(room).permissions_epoch)
                } else {
                    old(room).permissions_epoch
                }
                &&& out.host_changed == (host0 != Some(t))
                &&& out.permissions_changed == changed
                &&& out.role_change == if host0 != Some(t) {
                    Some(
                        RoleChangeEntry {
                            participant_id: grant.target_participant_id,
                            role: RoleKind::Host,
                            granted: true,
                        },
                    )
                } else {
                    None
                }
                &&& *final(room) == (RoomState {
                    host_role_owner: final(room).host_role_owner,
                    host_conn_id: final(room).host_conn_id,
                    co_host_conn_ids: final(room).co_host_conn_ids,
                    permissions_epoch: final(room).permissions_epoch,
                    signed_action_clock_by_signer: final(room).signed_action_clock_by_signer,
                    ..*old(room)
                })
            } else {
                let owners = owners0.insert(pid);
                let bound = if host0 != Some(t) {
                    co0.insert(t)
                } else {
                    co0
                };
                let co = spec_active_co_hosts(ps, host0, owners);
                let changed = !owners0.contains(pid) || (host0 != Some(t) && !co0.contains(t))
                    || co != bound;
                &&& final(room).co_host_role_owners@ == owners
                &&& final(room).co_host_conn_ids@ == co
                &&& final(room).permissions_epoch == if changed {
                    spec_bump(old(room).permissions_epoch)
                } else {
                    old(room).permissions_epoch
                }
                &&& !out.host_changed
                &&& out.permissions_changed == changed
                &&& out.role_change == if changed {
                    Some(
                        RoleChangeEntry {
                            participant_id: grant.target_participant_id,
                            role: RoleKind::CoHost,
                            granted: true,
                        },
                    )
                } else {
                    None
                }
                &&& *final(room) == (RoomState {
                    co_host_role_owners: final(room).co_host_role_owners,
                    co_host_conn_ids: final(room).co_host_conn_ids,
                    permissions_epoch: final(room).permissions_epoch,
                    signed_action_clock_by_signer: final(room).signed_action_clock_by_signer,
                    ..*old(room)
                })
            }
        }),
{
    let signature_ok = role_grant_signature_is_valid(grant);
    let pre = host_action_error(
        room,
        sender_conn_id,
        grant.granted_by.as_str(),
        "granted_by",
        grant.signature_hex.as_str(),
        signature_ok,
        "role_grant",
    );
    if let Some(e) = pre {
        return Err(e);
    }
    let target_conn_id = match find_joined_conn(room, grant.target_participant_id.as_str()) {
        Some(c) => c,
        None => {
            let mut m = "unknown participant_id: ".to_owned();
            m.append(grant.target_participant_id.as_str());
            return Err(m);
        },
    };
    match grant.role {
        RoleKind::Participant => {
            return Err("role grant supports Host or CoHost only".to_owned());
        },
        RoleKind::CoHost => {
            if room.host_conn_id == Some(target_conn_id) {
                return Err("host already has full permissions".to_owned());
            }
        },
        RoleKind::Host => {},
    }
    enforce_signed_action_clock(
        room,
        "role_grant",
        grant.granted_by.as_str(),
        "issued_at_ms",
        grant.issued_at_ms,
    )?;
    match grant.role {
        RoleKind::Host => {
            let mut permissions_changed = false;
            let owned = match &room.host_role_owner {
                Some(o) => same_text(o.as_str(), grant.target_participant_id.as_str()),
                None => false,
            };
            if !owned {
                room.host_role_owner = Some(grant.target_participant_id.clone());
                permissions_changed = true;
            }
            let mut host_changed = false;
            let mut role_change = None;
            if room.host_conn_id != Some(target_conn_id) {
                room.host_conn_id = Some(target_conn_id);
                host_changed = true;
                role_change = Some(
                    RoleChangeEntry {
                        participant_id: grant.target_participant_id.clone(),
                        role: RoleKind::Host,
                        granted: true,
                    },
                );
                permissions_changed = true;
            }
            if sync_active_co_host_bindings(room) {
                permissions_changed = true;
            }
            if permissions_changed {
                room.permissions_epoch = if room.permissions_epoch < u64::MAX {
                    room.permissions_epoch + 1
                } else {
                    room.permissions_epoch
                };
            }
            Ok(RoleMutationOutcome { host_changed, permissions_changed, role_change })
        },
        _ => {
            let mut permissions_changed = room.co_host_role_owners.insert(
                grant.target_participant_id.clone(),
            );
            if room.host_conn_id != Some(target_conn_id) {
                if room.co_host_conn_ids.insert(target_conn_id) {
                    permissions_changed = true;
                }
            }
            if sync_active_co_host_bindings(room) {
                permissions_changed = true;
            }
            let mut role_change = None;
            if permissions_changed {
                room.permissions_epoch = if room.permissions_epoch < u64::MAX {
                    room.permissions_epoch + 1
                } else {
                    room.permissions_epoch
                };
                role_change = Some(
                    RoleChangeEntry {
                        participant_id: grant.target_participant_id.clone(),
                        role: RoleKind::CoHost,
                        granted: true,
                    },
                );
            }
            Ok(RoleMutationOutcome { host_changed: false, permissions_changed, role_change })
        },
    }
}

/// Why a role revocation is refused, if it is, before its effects.
pub open spec fn spec_role_revoke_error(
    room: RoomState,
    sender_conn_id: u64,
    revoke: RoleRevokeFrame,
) -> Option<Seq<char>> {
    let pre = spec_host_action_error(
        room,
        sender_conn_id,
        revoke.revoked_by@,
        "revoked_by"@,
        revoke.signature_hex@,
        spec_token_matches("role_revoke"@, spec_role_revoke_payload(revoke), revoke.signature_hex@),
        "role_revoke"@,
    );
    let target = spec_joined_conn(room, revoke.target_participant_id@);
    let key = spec_clock_key("role_revoke"@, revoke.revoked_by@);
    let clock = room.signed_action_clock_by_signer@;
    if pre is Some {
        pre
    } else if target is None {
        Some("unknown participant_id: "@ + revoke.target_participant_id@)
    } else if revoke.role != RoleKind::CoHost {
        Some("role revoke supports CoHost only"@)
    } else if !spec_clock_accepts(clock, key, revoke.issued_at_ms) {
        Some(
            spec_clock_error(
                clock,
                "role_revoke"@,
                revoke.revoked_by@,
                "issued_at_ms"@,
                revoke.issued_at_ms,
            ),
        )
    } else {
        None
    }
}

/// Applies a host-signed co-host revocation: the participant id stops
/// owning a co-host role, its connection is unbound, the co-hosts are
/// re-derived, the signer's `role_revoke` clock records it, and the
/// permissions epoch moves on when anything changed. A refusal leaves the
/// room as it was.
pub fn apply_role_revoke(room: &mut RoomState, sender_conn_id: u64, revoke: &RoleRevokeFrame) -> (r:
    Result<RoleMutationOutcome, String>)
    ensures
        spec_role_revoke_error(*old(room), sender_conn_id, *revoke) matches Some(e) ==> (r matches Err(
            m,
        ) && m@ == e && *final(room) == *old(room)),
        spec_role_revoke_error(*old(room), sender_conn_id, *revoke) is None ==> ({
            let t = spec_joined_conn(*old(room), revoke.target_participant_id@).unwrap();
            let pid = revoke.target_participant_id@;
            let co0 = old(room).co_host_conn_ids@;
            let owners0 = old(room).co_host_role_owners@;
            let owners = owners0.remove(pid);
            let co = spec_active_co_hosts(old(room).participants@, old(room).host_conn_id, owners);
            let changed = owners0.contains(pid) || co0.contains(t) || co != co0.remove(t);
            &&& final(room).signed_action_clock_by_signer@
                == old(room).signed_action_clock_by_signer@.insert(
                spec_clock_key("role_revoke"@, revoke.revoked_by@),
                revoke.issued_at_ms,
            )
            &&& final(room).co_host_role_owners@ == owners
            &&& final(room).co_host_conn_ids@ == co
            &&& final(room).permissions_epoch == if changed {
                spec_bump(old(room).permissions_epoch)
            } else {
                old(room).permissions_epoch
            }
            &&& r matches Ok(out) && !out.host_changed && out.permissions_changed == changed
                && out.role_change == if changed {
                Some(
                    RoleChangeEntry {
                        participant_id: revoke.target_participant_id,
                        role: RoleKind::CoHost,
                        granted: false,
                    },
                )
            } else {
                None
            }
            &&& *final(room) == (RoomState {
                co_host_role_owners: final(room).co_host_role_owners,
                co_host_conn_ids: final(room).co_host_conn_ids,
                permissions_epoch: final(room).permissions_epoch,
                signed_action_clock_by_signer: final(room).signed_action_clock_by_signer,
                ..*old(room)
            })
        }),
{
    let signature_ok = role_revoke_signature_is_valid(revoke);
    let pre = host_action_error(
        room,
        sender_conn_id,
        revoke.revoked_by.as_str(),
        "revoked_by",
        revoke.signature_hex.as_str(),
        signature_ok,
        "role_revoke",
    );
    if let Some(e) = pre {
        return Err(e);
    }
    let target_conn_id = match find_joined_conn(room, revoke.target_participant_id.as_str()) {
        Some(c) => c,
        None => {
            let mut m = "unknown participant_id: ".to_owned();
            m.append(revoke.target_participant_id.as_str());
            return Err(m);
        },
    };
    match revoke.role {
        RoleKind::CoHost => {},
        _ => {
            return Err("role revoke supports CoHost only".to_owned());
        },
    }
    enforce_signed_action_clock(
        room,
        "role_revoke",
        revoke.revoked_by.as_str(),
        "issued_at_ms",
        revoke.issued_at_ms,
    )?;
    let mut permissions_changed = room.co_host_role_owners.remove(
        revoke.target_participant_id.as_str(),
    );
    if room.co_host_conn_ids.remove(&target_conn_id) {
        permissions_changed = true;
    }
    if sync_active_co_host_bindings(room) {
        permissions_changed = true;
    }
    let mut role_change = None;
    if permissions_changed {
        room.permissions_epoch = if room.permissions_epoch < u64::MAX {
            room.permissions_epoch + 1
        } else {
            room.permissions_epoch
        };
        role_change = Some(
            RoleChangeEntry {
                participant_id: revoke.target_participant_id.clone(),
                role: RoleKind::CoHost,
                granted: false,
            },
        );
    }
    Ok(RoleMutationOutcome { host_changed: false, permissions_changed, role_change })
}

/// Why a session policy update is refused, if it is.
pub open spec fn spec_session_policy_error(
    room: RoomState,
    sender_conn_id: u64,
    update: SessionPolicyFrame,
) -> Option<Seq<char>> {
    let pre = spec_host_action_error(
        room,
        sender_conn_id,
        update.updated_by@,
        "updated_by"@,
        update.signature_hex@,
        spec_token_matches(
            "session_policy"@,
            spec_session_policy_payload(update),
            update.signature_hex@,
        ),
        "session_policy"@,
    );
    let key = spec_clock_key("session_policy"@, update.updated_by@);
    let clock = room.signed_action_clock_by_signer@;
    if pre is Some {
        pre
    } else if update.policy_epoch <= room.policy_epoch {
        Some(
            "policy_epoch must increase: current="@ + spec_decimal(room.policy_epoch as nat)
                + " got="@ + spec_decimal(update.policy_epoch as nat),
        )
    } else if update.max_participants == 0 {
        Some("max_participants must be >= 1"@)
    } else if !spec_clock_accepts(clock, key, update.updated_at_ms) {
        Some(
            spec_clock_error(
                clock,
                "session_policy"@,
                update.updated_by@,
                "updated_at_ms"@,
                update.updated_at_ms,
            ),
        )
    } else {
        None
    }
}

/// Only the room's host, speaking for itself with a signature that
/// verifies, changes roles or the session policy: a role grant, a role
/// revocation or a session policy from any other connection, naming
/// another actor than the sender, or with a signature that does not verify
/// is refused. A session policy must also move the policy epoch forward.
pub proof fn lemma_only_the_host_signs_room_changes(
    room: RoomState,
    sender_conn_id: u64,
    grant: RoleGrantFrame,
    revoke: RoleRevokeFrame,
    update: SessionPolicyFrame,
)
    ensures
        room.host_conn_id != Some(sender_conn_id) ==> spec_role_grant_error(room, sender_conn_id, grant) is Some
            && spec_role_revoke_error(room, sender_conn_id, revoke) is Some
            && spec_session_policy_error(room, sender_conn_id, update) is Some,
        room.participants@.contains_key(sender_conn_id) ==> {
            let me = room.participants@[sender_conn_id].participant_id@;
            &&& me != grant.granted_by@ ==> spec_role_grant_error(room, sender_conn_id, grant) is Some
            &&& me != revoke.revoked_by@ ==> spec_role_revoke_error(room, sender_conn_id, revoke) is Some
            &&& me != update.updated_by@ ==> spec_session_policy_error(room, sender_conn_id, update) is Some
        },
        !spec_token_matches("role_grant"@, spec_role_grant_payload(grant), grant.signature_hex@)
            ==> spec_role_grant_error(room, sender_conn_id, grant) is Some,
        !spec_token_matches("role_revoke"@, spec_role_revoke_payload(revoke), revoke.signature_hex@)
            ==> spec_role_revoke_error(room, sender_conn_id, revoke) is Some,
        !spec_token_matches("session_policy"@, spec_session_policy_payload(update), update.signature_hex@)
            ==> spec_session_policy_error(room, sender_conn_id, update) is Some,
        update.policy_epoch <= room.policy_epoch ==> spec_session_policy_error(room, sender_conn_id, update) is Some,
{
}

/// Applies a host-signed session policy with a strictly newer epoch: the
/// room takes its flags, participant cap, epoch, updater and signature, the
/// signer's `session_policy` clock records it, and the permissions epoch
/// moves on. A refusal leaves the room as it was.
pub fn apply_session_policy_update(
    room: &mut RoomState,
    sender_conn_id: u64,
    update: &SessionPolicyFrame,
) -> (r: Result<(), String>)
    ensures
        spec_session_policy_error(*old(room), sender_conn_id, *update) matches Some(e) ==> (r matches Err(
            m,
        ) && m@ == e && *final(room) == *old(room)),
        spec_session_policy_error(*old(room), sender_conn_id, *update) is None ==> ({
            &&& r is Ok
            &&& final(room).signed_action_clock_by_signer@
                == old(room).signed_action_clock_by_signer@.insert(
                spec_clock_key("session_policy"@, update.updated_by@),
                update.updated_at_ms,
            )
            &&& *final(room) == (RoomState {
                room_lock: update.room_lock,
                waiting_room_enabled: update.waiting_room_enabled,
                guest_join_allowed: update.guest_join_allowed,
                local_recording_allowed: update.local_recording_allowed,
                e2ee_required: update.e2ee_required,
                max_participants: update.max_participants,
                policy_epoch: update.policy_epoch,
                policy_updated_at_ms: update.updated_at_ms,
                policy_updated_by: update.updated_by,
                policy_signature_hex: update.signature_hex,
                permissions_epoch: spec_bump(old(room).permissions_epoch),
                signed_action_clock_by_signer: final(room).signed_action_clock_by_signer,
                ..*old(room)
            })
        }),
{
    let signature_ok = session_policy_signature_is_valid(update);
    let pre = host_action_error(
        room,
        sender_conn_id,
        update.updated_by.as_str(),
        "updated_by",
        update.signature_hex.as_str(),
        signature_ok,
        "session_policy",
    );
    if let Some(e) = pre {
        return Err(e);
    }
    if update.policy_epoch <= room.policy_epoch {
        let mut m = "policy_epoch must increase: current=".to_owned();
        push_decimal(&mut m, room.policy_epoch);
        m.append(" got=");
        push_decimal(&mut m, update.policy_epoch);
        return Err(m);
    }
    if update.max_participants == 0 {
        return Err("max_participants must be >= 1".to_owned());
    }
    enforce_signed_action_clock(
        room,
        "session_policy",
        update.updated_by.as_str(),
        "updated_at_ms",
        update.updated_at_ms,
    )?;
    room.room_lock = update.room_lock;
    room.waiting_room_enabled = update.waiting_room_enabled;
    room.guest_join_allowed = update.guest_join_allowed;
    room.local_recording_allowed = update.local_recording_allowed;
    room.e2ee_required = update.e2ee_required;
    room.max_participants = update.max_participants;
    room.policy_epoch = update.policy_epoch;
    room.policy_updated_at_ms = update.updated_at_ms;
    room.policy_updated_by = update.updated_by.clone();
    room.policy_signature_hex = update.signature_hex.clone();
    room.permissions_epoch = if room.permissions_epoch < u64::MAX {
        room.permissions_epoch + 1
    } else {
        room.permissions_epoch
    };
    Ok(())
}

/// Runs a moderation request through its sender's `moderation` clock,
/// keyed by the sender's participant id; refused for an unknown sender.
pub fn validate_moderation_sender_clock(
    room: &mut RoomState,
    sender_conn_id: u64,
    moderation: &ModerationFrame,
) -> (r: Result<(), String>)
    ensures
        !old(room).participants@.contains_key(sender_conn_id) ==> (r matches Err(e) && e@
            == "participant missing"@ && *final(room) == *old(room)),
        old(room).participants@.contains_key(sender_conn_id) ==> ({
            let signer = old(room).participants@[sender_conn_id].participant_id@;
            let key = spec_clock_key("moderation"@, signer);
            let clock = old(room).signed_action_clock_by_signer@;
            if spec_clock_accepts(clock, key, moderation.sent_at_ms) {
                &&& r is Ok
                &&& final(room).signed_action_clock_by_signer@ == clock.insert(
                    key,
                    moderation.sent_at_ms,
                )
                &&& *final(room) == (RoomState {
                    signed_action_clock_by_signer: final(room).signed_action_clock_by_signer,
                    ..*old(room)
                })
            } else {
                &&& r matches Err(e) && e@ == spec_clock_error(
                    clock,
                    "moderation"@,
                    signer,
                    "sent_at_ms"@,
                    moderation.sent_at_ms,
                )
                &&& *final(room) == *old(room)
            }
        }),
{
    let signer_id = match room.participants.get(&sender_conn_id) {
        Some(p) => p.participant_id.clone(),
        None => {
            return Err("participant missing".to_owned());
        },
    };
    enforce_signed_action_clock(
        room,
        "moderation",
        signer_id.as_str(),
        "sent_at_ms",
        moderation.sent_at_ms,
    )
}

/// The host-signed control frames that an anonymous room refuses in the
/// clear.
#[derive(Clone, Copy, Debug, PartialEq, Eq, Structural)]
pub enum PlaintextControl {
    RoleGrant,
    RoleRevoke,
    SessionPolicy,
}

/// Why a plaintext control frame of this kind is refused before its rules
/// run, if it is: only an anonymous room refuses it.
pub open spec fn spec_plaintext_control_refusal(room: RoomState, kind: PlaintextControl) -> Option<
    Seq<char>,
> {
    if room.anonymous_mode {
        Some(
            match kind {
                PlaintextControl::RoleGrant => "anonymous mode rejects plaintext role grants"@,
                PlaintextControl::RoleRevoke => "anonymous mode rejects plaintext role revokes"@,
                PlaintextControl::SessionPolicy => "anonymous mode rejects plaintext policy updates"@,
            },
        )
    } else {
        None
    }
}

/// Checks a plaintext role grant, role revoke or policy update against the
/// room's mode; the frame's own rules come after.
pub fn plaintext_control_refusal(room: &RoomState, kind: PlaintextControl) -> (r: Option<String>)
    ensures
        crate::text::opt_text(r) == spec_plaintext_control_refusal(*room, kind),
{
    if !room.anonymous_mode {
        return None;
    }
    match kind {
        PlaintextControl::RoleGrant => Some("anonymous mode rejects plaintext role grants".to_owned()),
        PlaintextControl::RoleRevoke => Some("anonymous mode rejects plaintext role revokes".to_owned()),
        PlaintextControl::SessionPolicy => Some(
            "anonymous mode rejects plaintext policy updates".to_owned(),
        ),
    }
}

} // verus!
