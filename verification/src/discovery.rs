//! Discovery-stream translation: raw adapter events become typed,
//! filterable device observations.

use vstd::prelude::*;
use crate::errors::BluetoothError;

verus! {

/// One BLE advertisement sighting, as handed to the proximity monitor.
///
/// `id` is the platform-level device identifier in textual form,
/// `local_name` the advertised name if any, `rssi` the reported signal
/// strength in dBm if any, and `event_type` a label telling a first
/// sighting from a refresh.
#[derive(Debug, Clone)]
pub struct DiscoveredDevice {
    pub id: String,
    pub local_name: Option<String>,
    pub rssi: Option<i16>,
    pub event_type: String,
}

/// A raw adapter event, reduced to the variants the translator cares
/// about. Everything that is neither a discovery nor an update collapses
/// into `Other` and is discarded.
#[derive(Debug, Clone)]
pub enum AdapterEvent {
    DeviceDiscovered { id: String },
    DeviceUpdated { id: String },
    Other,
}

/// Whether an observation is the first sighting of a device in the
/// current scan session or a refresh of an already-seen device.
#[derive(Debug, Clone, Copy, PartialEq, Eq, Structural)]
pub enum ObservationKind {
    FirstSeen,
    Updated,
}

/// What the translator decides to do with one raw event: drop it, or
/// look up the peripheral's advertised properties and emit an
/// observation of the given kind.
#[derive(Debug, Clone)]
pub enum TranslateStep {
    Discard,
    Lookup { id: String, kind: ObservationKind },
}

/// Advertised properties fetched for a peripheral: its name and signal
/// strength, either of which the platform may omit.
#[derive(Debug, Clone)]
pub struct PeripheralProperties {
    pub local_name: Option<String>,
    pub rssi: Option<i16>,
}

/// The label attached to an observation of the given kind.
pub open spec fn spec_event_type_label(kind: ObservationKind) -> Seq<char> {
    match kind {
        ObservationKind::FirstSeen => "Discovered device"@,
        ObservationKind::Updated => "Device updated"@,
    }
}

/// An identifier passes the filter when no target is configured or when
/// it equals the target identifier textually.
pub open spec fn spec_matches_target(id: Seq<char>, target: Option<Seq<char>>) -> bool {
    match target {
        None => true,
        Some(t) => id == t,
    }
}

/// The translation decision for one raw event: device discoveries and
/// updates that pass the target filter are looked up; everything else is
/// discarded.
pub open spec fn spec_translate(event: AdapterEvent, target: Option<Seq<char>>) -> TranslateStep {
    match event {
        AdapterEvent::DeviceDiscovered { id } => if spec_matches_target(id@, target) {
            TranslateStep::Lookup { id, kind: ObservationKind::FirstSeen }
        } else {
            TranslateStep::Discard
        },
        AdapterEvent::DeviceUpdated { id } => if spec_matches_target(id@, target) {
            TranslateStep::Lookup { id, kind: ObservationKind::Updated }
        } else {
            TranslateStep::Discard
        },
        AdapterEvent::Other => TranslateStep::Discard,
    }
}

/// The view of an optional target identifier.
pub open spec fn spec_target_view(target: Option<String>) -> Option<Seq<char>> {
    match target {
        None => None,
        Some(t) => Some(t@),
    }
}

/// The label attached to an observation of the given kind:
/// `"Discovered device"` for a first sighting, `"Device updated"` for a
/// refresh.
pub fn event_type_label(kind: ObservationKind) -> (label: String)
    ensures
        label@ == spec_event_type_label(kind),
{
    match kind {
        ObservationKind::FirstSeen => "Discovered device".to_owned(),
        ObservationKind::Updated => "Device updated".to_owned(),
    }
}

/// Whether `id` passes the filter for the configured `target`.
pub fn matches_target(id: &String, target: &Option<String>) -> (r: bool)
    ensures
        r == spec_matches_target(id@, spec_target_view(*target)),
{
    match target {
        None => true,
        Some(t) => id.eq(t),
    }
}

/// Decides what to do with one raw adapter event: discoveries and
/// updates whose identifier passes the target filter are turned into a
/// property lookup; every other event is discarded.
pub fn translate_event(event: AdapterEvent, target: &Option<String>) -> (step: TranslateStep)
    ensures
        step == spec_translate(event, spec_target_view(*target)),
{
    match event {
        AdapterEvent::DeviceDiscovered { id } => if matches_target(&id, target) {
            TranslateStep::Lookup { id, kind: ObservationKind::FirstSeen }
        } else {
            TranslateStep::Discard
        },
        AdapterEvent::DeviceUpdated { id } => if matches_target(&id, target) {
            TranslateStep::Lookup { id, kind: ObservationKind::Updated }
        } else {
            TranslateStep::Discard
        },
        AdapterEvent::Other => TranslateStep::Discard,
    }
}

/// Builds the observation for a looked-up peripheral. A failed property
/// lookup (`None`) discards this single sighting without halting the
/// stream; a successful one yields an observation carrying the
/// advertised name and signal strength as reported.
pub fn build_observation(
    id: String,
    kind: ObservationKind,
    properties: Option<PeripheralProperties>,
) -> (obs: Option<DiscoveredDevice>)
    ensures
        properties is None ==> obs is None,
        properties matches Some(p) ==> obs matches Some(d) && {
            &&& d.id == id
            &&& d.local_name == p.local_name
            &&& d.rssi == p.rssi
            &&& d.event_type@ == spec_event_type_label(kind)
        },
{
    match properties {
        None => None,
        Some(p) => Some(
            DiscoveredDevice {
                id,
                local_name: p.local_name,
                rssi: p.rssi,
                event_type: event_type_label(kind),
            },
        ),
    }
}

/// Picks the adapter to use from the platform's radio list: the first
/// one. Zero radios is a fatal acquisition error.
pub fn select_adapter(adapter_count: usize) -> (r: Result<usize, BluetoothError>)
    ensures
        adapter_count == 0 ==> (r matches Err(e) && e matches BluetoothError::Discovery(m)
            && m@ == "No Bluetooth adapters found"@),
        adapter_count > 0 ==> r == Ok::<usize, BluetoothError>(0),
{
    if adapter_count == 0 {
        Err(BluetoothError::Discovery("No Bluetooth adapters found".to_owned()))
    } else {
        Ok(0)
    }
}

/// Filtering law: with a target identifier configured, a raw event is
/// translated into a lookup exactly when it is a discovery or update
/// whose identifier equals the target; in particular every translated
/// observation in a mixed event sequence carries the target identifier.
pub proof fn lemma_target_filtering(events: Seq<AdapterEvent>, target: Seq<char>)
    ensures
        forall|i: int| 0 <= i < events.len() ==>
            (#[trigger] spec_translate(events[i], Some(target)) matches TranslateStep::Lookup { id, .. }
                ==> id@ == target),
        forall|i: int| 0 <= i < events.len() ==>
            (#[trigger] events[i] matches AdapterEvent::DeviceDiscovered { id } ==> id@ == target
                ==> spec_translate(events[i], Some(target))
                    == (TranslateStep::Lookup { id, kind: ObservationKind::FirstSeen })),
        forall|i: int| 0 <= i < events.len() ==>
            (#[trigger] events[i] matches AdapterEvent::DeviceUpdated { id } ==> id@ == target
                ==> spec_translate(events[i], Some(target))
                    == (TranslateStep::Lookup { id, kind: ObservationKind::Updated })),
{
}

} // verus!
