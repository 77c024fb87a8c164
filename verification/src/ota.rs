//! Over-the-air firmware updating.
//!
//! The updater runs once per successful network connection: it posts a
//! device-identity query, compares the advertised version timestamp with
//! the running build's, and only a strictly newer one is downloaded and
//! flashed. The HTTP transfer and the flash writes happen outside this
//! crate; the decisions — whether to download, and how the update session
//! advances — live here.

use vstd::prelude::*;
use crate::textfmt::str_equal;
use crate::version::spec_judge_version;
use crate::version::judge_version;

verus! {

/// The server's answer to an upgrade query.
#[derive(Debug, Clone)]
pub struct UpgradeQueryResponse {
    /// The newest version the server offers, as a build timestamp.
    pub version: String,
    pub device_type: String,
    pub pack_size: u64,
    pub download_url: String,
}

/// Why an upgrade query failed.
#[derive(Debug, Clone, Copy, PartialEq, Eq, Structural)]
pub enum OtaError {
    /// The query did not come back with HTTP status 200.
    BadStatus(u16),
}

/// What the query's answer decides: the response is carried forward for
/// download exactly when the status is 200, the command acknowledges the
/// query, and the advertised version is strictly newer than the running
/// build.
pub open spec fn spec_upgrade_wanted(
    status: u16,
    cmd: Seq<char>,
    version: Seq<char>,
    build_time: Seq<char>,
) -> bool {
    status == 200 && cmd == "UpgradeQuery_ACK"@ && spec_judge_version(version, build_time)
}

/// Decides an upgrade query's answer: an error for a non-200 status,
/// the response itself when the acknowledged version is strictly newer
/// than the running build, nothing otherwise.
pub fn decide_upgrade(
    status: u16,
    cmd: &str,
    upgrade: UpgradeQueryResponse,
    build_time: &str,
) -> (r: Result<Option<UpgradeQueryResponse>, OtaError>)
    ensures
        r matches Err(e) ==> e == OtaError::BadStatus(status) && status != 200,
        r is Err <==> status != 200,
        r matches Ok(Some(u)) ==> spec_upgrade_wanted(status, cmd@, u.version@, build_time@) && u
            == upgrade,
        r matches Ok(o) ==> ((o is Some) == spec_upgrade_wanted(
            status,
            cmd@,
            upgrade.version@,
            build_time@,
        )),
{
    if status != 200 {
        return Err(OtaError::BadStatus(status));
    }
    proof {
        reveal_strlit("UpgradeQuery_ACK");
    }
    if !str_equal(cmd, "UpgradeQuery_ACK") {
        return Ok(None);
    }
    if judge_version(upgrade.version.as_str(), build_time) {
        Ok(Some(upgrade))
    } else {
        Ok(None)
    }
}

/// Where an update session stands.
#[derive(Debug, Clone, Copy, PartialEq, Eq, Structural)]
pub enum OtaState {
    /// No session running.
    Idle,
    /// The identity query is out.
    Querying,
    /// The query answered: the running build is current.
    NoUpdate,
    /// A newer image is streaming into the flash update target.
    Downloading,
    /// The image copied fully; the new slot is being finalized.
    Flashing,
    /// The new slot is valid; the device restarts.
    Rebooting,
    /// The session failed; the previous firmware slot stays active.
    Aborted,
}

/// What happened to an update session.
#[derive(Debug, Clone, Copy, PartialEq, Eq, Structural)]
pub enum OtaEvent {
    /// A network connection succeeded; a session starts (or restarts: a
    /// finished session is re-triggered from the query, never resumed).
    SyncStarted,
    /// The query failed: a transport error, a bad status, or malformed
    /// data.
    QueryFailed,
    /// The query answered that no newer version exists.
    UpdateNotNeeded,
    /// The query answered with a strictly newer version.
    UpdateNeeded,
    /// The image copy failed part way.
    CopyFailed,
    /// The image copied completely.
    CopyCompleted,
    /// The new slot was marked valid.
    Finalized,
    /// Marking the new slot valid failed.
    FinalizeFailed,
}

/// The session's transition table. A connection starts a session from any
/// resting state; there is no resume of a partial download — a new
/// connection starts again from the query. Events that do not belong to
/// the current state change nothing.
pub open spec fn spec_ota_step(state: OtaState, event: OtaEvent) -> OtaState {
    match (state, event) {
        (OtaState::Idle, OtaEvent::SyncStarted) => OtaState::Querying,
        (OtaState::NoUpdate, OtaEvent::SyncStarted) => OtaState::Querying,
        (OtaState::Aborted, OtaEvent::SyncStarted) => OtaState::Querying,
        (OtaState::Querying, OtaEvent::QueryFailed) => OtaState::Aborted,
        (OtaState::Querying, OtaEvent::UpdateNotNeeded) => OtaState::NoUpdate,
        (OtaState::Querying, OtaEvent::UpdateNeeded) => OtaState::Downloading,
        (OtaState::Downloading, OtaEvent::CopyFailed) => OtaState::Aborted,
        (OtaState::Downloading, OtaEvent::CopyCompleted) => OtaState::Flashing,
        (OtaState::Flashing, OtaEvent::Finalized) => OtaState::Rebooting,
        (OtaState::Flashing, OtaEvent::FinalizeFailed) => OtaState::Aborted,
        _ => state,
    }
}

/// Advances an update session by one event.
pub fn ota_step(state: OtaState, event: OtaEvent) -> (r: OtaState)
    ensures
        r == spec_ota_step(state, event),
{
    match (state, event) {
        (OtaState::Idle, OtaEvent::SyncStarted) => OtaState::Querying,
        (OtaState::NoUpdate, OtaEvent::SyncStarted) => OtaState::Querying,
        (OtaState::Aborted, OtaEvent::SyncStarted) => OtaState::Querying,
        (OtaState::Querying, OtaEvent::QueryFailed) => OtaState::Aborted,
        (OtaState::Querying, OtaEvent::UpdateNotNeeded) => OtaState::NoUpdate,
        (OtaState::Querying, OtaEvent::UpdateNeeded) => OtaState::Downloading,
        (OtaState::Downloading, OtaEvent::CopyFailed) => OtaState::Aborted,
        (OtaState::Downloading, OtaEvent::CopyCompleted) => OtaState::Flashing,
        (OtaState::Flashing, OtaEvent::Finalized) => OtaState::Rebooting,
        (OtaState::Flashing, OtaEvent::FinalizeFailed) => OtaState::Aborted,
        _ => state,
    }
}

/// The flash is written only from `Downloading`, and the only way into
/// `Downloading` is a query that answered with a strictly newer version;
/// a failed copy never reaches `Flashing`.
pub proof fn lemma_flash_needs_download(state: OtaState, event: OtaEvent)
    ensures
        spec_ota_step(state, event) == OtaState::Flashing ==> state == OtaState::Flashing || (state
            == OtaState::Downloading && event == OtaEvent::CopyCompleted),
        spec_ota_step(state, event) == OtaState::Downloading ==> state == OtaState::Downloading || (
        state == OtaState::Querying && event == OtaEvent::UpdateNeeded),
{
}

} // verus!
