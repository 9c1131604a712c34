//! Cloud sync commands: preferences, synchronisation and its status.

use vstd::prelude::*;
use crate::clock::{start_timer, elapsed_millis};

verus! {

/// Where synchronisation stands.
#[derive(Debug, Clone)]
pub struct SyncStatus {
    pub last_sync: Option<String>,
    pub pending_changes: u32,
    pub in_progress: bool,
    pub error: Option<String>,
}

/// The outcome of one synchronisation.
#[derive(Debug, Clone)]
pub struct SyncResult {
    pub pushed: u32,
    pub pulled: u32,
    pub conflicts: u32,
    pub duration_ms: u64,
    pub success: bool,
}

#[verifier::external_type_specification]
#[verifier::external_body]
pub struct ExJsonValue(serde_json::Value);

/// Whether a JSON value is an object: what `serde_json::Value::is_object`
/// answers, a function of the value alone.
pub uninterp spec fn json_object_of(v: serde_json::Value) -> bool;

/// Calls `serde_json::Value::is_object`, which answers whether the value
/// is the `Object` variant; it reads nothing but the value.
#[verifier::external_body]
fn json_is_object(v: &serde_json::Value) -> (r: bool)
    ensures
        r == json_object_of(*v),
{
    v.is_object()
}

/// The answer to a preferences update: accepted when the preferences form
/// a JSON object, otherwise refused.
pub fn preferences_update_answer(preferences_is_object: bool) -> (r: Result<(), String>)
    ensures
        preferences_is_object ==> r is Ok,
        !preferences_is_object ==> (r matches Err(e) && e@ == "Preferences must be a JSON object"@),
{
    if !preferences_is_object {
        return Err(String::from_str("Preferences must be a JSON object"));
    }
    Ok(())
}

/// Updates the user's preferences, which must form a JSON object: they are
/// accepted when they do and refused otherwise.
pub fn cloud_update_preferences(preferences: serde_json::Value) -> (r: Result<(), String>)
    ensures
        json_object_of(preferences) ==> r is Ok,
        !json_object_of(preferences) ==> (r matches Err(e) && e@ == "Preferences must be a JSON object"@),
{
    preferences_update_answer(json_is_object(&preferences))
}

/// The report of a synchronisation that took `duration_ms` and had nothing
/// to push or pull.
pub fn cloud_sync_measured(duration_ms: u64) -> (r: SyncResult)
    ensures
        r == (SyncResult { pushed: 0, pulled: 0, conflicts: 0, duration_ms, success: true }),
{
    SyncResult { pushed: 0, pulled: 0, conflicts: 0, duration_ms, success: true }
}

/// Synchronises now, timing the work.
pub fn cloud_sync_now() -> (r: Result<SyncResult, String>)
    ensures
        r matches Ok(s) && s == (SyncResult { pushed: 0, pulled: 0, conflicts: 0, duration_ms: s.duration_ms, success: true }),
{
    let start = start_timer();
    Ok(cloud_sync_measured(elapsed_millis(&start)))
}

/// The current synchronisation status: never synchronised, nothing pending.
pub fn cloud_sync_status() -> (r: Result<SyncStatus, String>)
    ensures
        r matches Ok(s) && s == (SyncStatus { last_sync: None, pending_changes: 0, in_progress: false, error: None }),
{
    Ok(SyncStatus { last_sync: None, pending_changes: 0, in_progress: false, error: None })
}

} // verus!
