//! The texts the hub sends back for decisions made while dispatching a
//! frame: refusals of frames only the hub may send, the notices of a join,
//! and the reasons given to connections that are closed.
use vstd::prelude::*;
use crate::text::concat2;
use crate::wire::ModerationTarget;

verus! {

broadcast use vstd::string::group_string_axioms;

/// The frames that only the hub sends; a client sending one is refused.
#[derive(Clone, Copy, Debug, PartialEq, Eq, Structural)]
pub enum HubManagedFrame {
    AnonGroupKeyRotate,
    PermissionsSnapshot,
    ParticipantPresenceDelta,
}

/// The refusal of a hub-managed frame sent by a client.
pub open spec fn spec_hub_managed_refusal(kind: HubManagedFrame) -> Seq<char> {
    match kind {
        HubManagedFrame::AnonGroupKeyRotate => "anonymous group-key rotation frames are hub-managed"@,
        HubManagedFrame::PermissionsSnapshot => "permissions snapshots are hub-managed"@,
        HubManagedFrame::ParticipantPresenceDelta => "presence deltas are hub-managed"@,
    }
}

/// Refuses a hub-managed frame sent by a client.
pub fn hub_managed_refusal(kind: HubManagedFrame) -> (r: String)
    ensures
        r@ == spec_hub_managed_refusal(kind),
{
    match kind {
        HubManagedFrame::AnonGroupKeyRotate => "anonymous group-key rotation frames are hub-managed".to_owned(),
        HubManagedFrame::PermissionsSnapshot => "permissions snapshots are hub-managed".to_owned(),
        HubManagedFrame::ParticipantPresenceDelta => "presence deltas are hub-managed".to_owned(),
    }
}

/// The refusal of a transparent hello in an anonymous room.
pub fn mode_conflict_message() -> (r: String)
    ensures
        r@ == "room is already in anonymous mode"@,
{
    "room is already in anonymous mode".to_owned()
}

/// The notice to a joiner whose media flags were forced off, if they were.
pub fn forced_off_notice(forced: bool) -> (r: Option<String>)
    ensures
        forced ==> (r matches Some(m) && m@ == "mic/video/screen share must start disabled; forced off"@),
        !forced ==> r is None,
{
    if forced {
        Some("mic/video/screen share must start disabled; forced off".to_owned())
    } else {
        None
    }
}

/// The notice to a host whose zero rate was turned down, if it was.
pub fn zero_rate_notice(rejected: bool) -> (r: Option<String>)
    ensures
        rejected ==> (r matches Some(m) && m@
            == "rate_per_minute_nano=0 rejected: paid calls are required unless hub started with --allow-free-calls"@),
        !rejected ==> r is None,
{
    if rejected {
        Some(
            "rate_per_minute_nano=0 rejected: paid calls are required unless hub started with --allow-free-calls".to_owned(),
        )
    } else {
        None
    }
}

/// The reason given to a kicked connection: the meeting ended when every
/// connection was kicked, otherwise the removed participant id.
pub fn kick_reason(target: &ModerationTarget) -> (r: String)
    ensures
        r@ == match target {
            ModerationTarget::All => "meeting ended by host"@,
            ModerationTarget::Participant(id) => "removed by host: "@ + id@,
        },
{
    match target {
        ModerationTarget::All => "meeting ended by host".to_owned(),
        ModerationTarget::Participant(id) => concat2("removed by host: ", id.as_str()),
    }
}

/// The reason given to a connection turned away from the waiting room.
pub fn admission_denied_reason(participant_id: &str) -> (r: String)
    ensures
        r@ == "waiting room admission denied: "@ + participant_id@,
{
    concat2("waiting room admission denied: ", participant_id)
}

} // verus!
