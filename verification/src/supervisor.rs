//! The monitoring control surface: target-identifier validation and the
//! single-slot supervisor that keeps at most one monitor task active.

use vstd::prelude::*;
use crate::errors::BluetoothError;

verus! {

/// The canonical (hyphenated, lower-case) form of a UUID string, or
/// `None` if the string is not a well-formed UUID.
pub uninterp spec fn uuid_canonical(s: Seq<char>) -> Option<Seq<char>>;

/// Relies on `uuid::Uuid::parse_str` and `Uuid`'s `Display` form: both
/// depend on the characters of the input alone, and the display form is
/// the 36-character hyphenated lower-case rendering.
#[verifier::external_body]
fn canonicalize_uuid(s: &str) -> (r: Result<String, String>)
    ensures
        r matches Ok(c) ==> uuid_canonical(s@) == Some(c@) && c@.len() == 36,
        r is Ok <==> uuid_canonical(s@) is Some,
{
    match uuid::Uuid::parse_str(s) {
        Ok(u) => Ok(u.to_string()),
        Err(e) => Err(e.to_string()),
    }
}

/// Everything a monitor task needs to start: the canonicalized target
/// identifier, if one is configured, and the drift threshold.
#[derive(Debug, Clone)]
pub struct MonitorConfig {
    pub target_uuid: Option<String>,
    pub rssi_delta_max: Option<i16>,
}

/// Validates a begin-monitoring request. An absent target means "match
/// any device"; a present one must be a well-formed UUID and is put in
/// canonical form, so that the discovery filter can compare it textually
/// with adapter-reported identifiers. A malformed identifier is rejected
/// without any other effect.
pub fn plan_monitoring(target_uuid: Option<String>, rssi_delta_max: Option<i16>) -> (r: Result<
    MonitorConfig,
    BluetoothError,
>)
    ensures
        target_uuid is None ==> (r matches Ok(c) && c.target_uuid is None
            && c.rssi_delta_max == rssi_delta_max),
        target_uuid matches Some(s) ==> {
            &&& uuid_canonical(s@) matches Some(canon) ==> (r matches Ok(c)
                && c.target_uuid matches Some(t) && t@ == canon
                && c.rssi_delta_max == rssi_delta_max)
            &&& uuid_canonical(s@) is None ==> (r matches Err(e) && e is UuidParse)
        },
{
    match target_uuid {
        None => Ok(MonitorConfig { target_uuid: None, rssi_delta_max }),
        Some(s) => match canonicalize_uuid(s.as_str()) {
            Ok(canon) => Ok(MonitorConfig { target_uuid: Some(canon), rssi_delta_max }),
            Err(e) => Err(BluetoothError::UuidParse(e)),
        },
    }
}

/// The process-wide slot holding at most one cancellable monitor task.
/// The caller wraps it in its own mutual exclusion; the slot itself only
/// guarantees the replace-and-hand-back discipline.
#[derive(Debug)]
pub struct BluetoothListenerHandle<H> {
    pub active: Option<H>,
}

/// The effect of registering a task: the slot holds exactly the new
/// task, and the previously registered one is handed back.
pub open spec fn spec_replace<H>(handle: BluetoothListenerHandle<H>, task: H) -> (
    BluetoothListenerHandle<H>,
    Option<H>,
) {
    (BluetoothListenerHandle { active: Some(task) }, handle.active)
}

impl<H> BluetoothListenerHandle<H> {
    /// An empty slot: no monitor task is active.
    pub fn new() -> (handle: Self)
        ensures
            handle.active is None,
    {
        BluetoothListenerHandle { active: None }
    }

    /// Registers a freshly launched task, handing back the previously
    /// active one — if any — so the caller can cancel it.
    pub fn replace(&mut self, task: H) -> (previous: Option<H>)
        ensures
            (*final(self), previous) == spec_replace(*old(self), task),
            final(self).active == Some(task),
    {
        let previous = self.active.take();
        self.active = Some(task);
        previous
    }

    /// Empties the slot, handing back the previously active task.
    pub fn take(&mut self) -> (previous: Option<H>)
        ensures
            final(self).active is None,
            previous == old(self).active,
    {
        self.active.take()
    }

    /// Whether a monitor task is currently registered.
    pub fn is_active(&self) -> (b: bool)
        ensures
            b == (self.active is Some),
    {
        self.active.is_some()
    }
}

/// Supervisor law: registering two tasks in succession leaves exactly
/// one task in the slot — the second — and the second registration hands
/// the first task back for cancellation, so its resources are released.
pub proof fn lemma_single_active_listener<H>(
    handle: BluetoothListenerHandle<H>,
    first: H,
    second: H,
)
    ensures
        ({
            let s1 = spec_replace(handle, first);
            let s2 = spec_replace(s1.0, second);
            &&& s2.0.active == Some(second)
            &&& s2.1 == Some(first)
        }),
{
}

} // verus!
