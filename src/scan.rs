//! The scan loop's decisions: which advertisements carry a sensor frame, and
//! what the loop does on each input it receives from the transport.

use std::collections::HashMap;
use vstd::prelude::*;
use crate::decoder::PAYLOAD_LEN;
use crate::metrics::{measure, snapshot_of, Snapshot};
use crate::sink::{published, PublicationSink};

verus! {

broadcast use vstd::std_specs::hash::group_hash_axioms;

/// The service UUID under which the sensor advertises its frame,
/// 0000fd3d-0000-1000-8000-00805f9b34fb, as a 128-bit integer.
pub const SERVICE_UUID: u128 = 0x0000fd3d_0000_1000_8000_00805f9b34fb;

/// One event of the transport's advertisement stream.
pub enum AdvertEvent {
    /// A service-data advertisement: service UUIDs, as 128-bit integers,
    /// mapped to the bytes advertised under each.
    ServiceData { service_data: HashMap<u128, Vec<u8>> },
    /// Any other kind of event.
    Other,
}

/// The bytes an event carries under the sensor's service UUID, if any.
pub open spec fn sensor_payload(e: AdvertEvent) -> Option<Seq<u8>> {
    match e {
        AdvertEvent::ServiceData { service_data } => {
            if service_data@.contains_key(SERVICE_UUID) {
                Some(service_data@[SERVICE_UUID]@)
            } else {
                None
            }
        },
        AdvertEvent::Other => None,
    }
}

/// The snapshot an event yields: only a sensor payload of exactly
/// `PAYLOAD_LEN` bytes is decoded; everything else yields nothing.
pub open spec fn snapshot_for(e: AdvertEvent) -> Option<Snapshot> {
    match sensor_payload(e) {
        Some(p) => if p.len() == PAYLOAD_LEN {
            Some(snapshot_of(p))
        } else {
            None
        },
        None => None,
    }
}

/// Filters one event and, for a well-formed sensor frame, decodes it and
/// derives its metrics. Foreign and malformed events give `None`, silently.
pub fn process_event(event: &AdvertEvent) -> (r: Option<Snapshot>)
    ensures
        r == snapshot_for(*event),
{
    match event {
        AdvertEvent::ServiceData { service_data } => {
            match service_data.get(&SERVICE_UUID) {
                Some(payload) => {
                    if payload.len() != PAYLOAD_LEN {
                        None
                    } else {
                        Some(measure(payload.as_slice()))
                    }
                },
                None => None,
            }
        },
        AdvertEvent::Other => None,
    }
}

/// Where the scan loop stands: before the scan is started, scanning, or
/// stopped for good (there is no restart).
#[derive(Clone, Copy, Debug, PartialEq, Eq, Structural)]
pub enum ScanPhase {
    Idle,
    Scanning,
    Stopped,
}

/// What the transport hands the loop.
pub enum LoopInput {
    /// The event stream is open; the scan can start.
    Subscribed,
    /// One advertisement event.
    Advert(AdvertEvent),
    /// The event stream has ended.
    StreamEnded,
}

/// What the loop asks of the transport or of the sink.
#[derive(Clone, Copy, Debug, PartialEq, Eq, Structural)]
pub enum LoopAction {
    StartScan,
    Publish(Snapshot),
    Skip,
    StopScan,
}

/// The loop's transition: the scan starts once the stream is open, events
/// count only while scanning, and the scan is stopped when the stream ends.
pub open spec fn transition(phase: ScanPhase, input: LoopInput) -> (ScanPhase, LoopAction) {
    match phase {
        ScanPhase::Idle => match input {
            LoopInput::Subscribed => (ScanPhase::Scanning, LoopAction::StartScan),
            LoopInput::Advert(_) => (ScanPhase::Idle, LoopAction::Skip),
            LoopInput::StreamEnded => (ScanPhase::Stopped, LoopAction::Skip),
        },
        ScanPhase::Scanning => match input {
            LoopInput::Subscribed => (ScanPhase::Scanning, LoopAction::Skip),
            LoopInput::Advert(e) => match snapshot_for(e) {
                Some(s) => (ScanPhase::Scanning, LoopAction::Publish(s)),
                None => (ScanPhase::Scanning, LoopAction::Skip),
            },
            LoopInput::StreamEnded => (ScanPhase::Stopped, LoopAction::StopScan),
        },
        ScanPhase::Stopped => (ScanPhase::Stopped, LoopAction::Skip),
    }
}

/// What the sink holds after `action` is carried out on a sink holding `before`.
pub open spec fn sink_after(before: Option<Snapshot>, action: LoopAction) -> Option<Snapshot> {
    match action {
        LoopAction::Publish(s) => published(before, s),
        _ => before,
    }
}

/// One step of the scan loop: the next phase and the action to carry out.
pub fn step(phase: ScanPhase, input: &LoopInput) -> (r: (ScanPhase, LoopAction))
    ensures
        r == transition(phase, *input),
{
    match phase {
        ScanPhase::Idle => match input {
            LoopInput::Subscribed => (ScanPhase::Scanning, LoopAction::StartScan),
            LoopInput::Advert(_) => (ScanPhase::Idle, LoopAction::Skip),
            LoopInput::StreamEnded => (ScanPhase::Stopped, LoopAction::Skip),
        },
        ScanPhase::Scanning => match input {
            LoopInput::Subscribed => (ScanPhase::Scanning, LoopAction::Skip),
            LoopInput::Advert(e) => match process_event(e) {
                Some(s) => (ScanPhase::Scanning, LoopAction::Publish(s)),
                None => (ScanPhase::Scanning, LoopAction::Skip),
            },
            LoopInput::StreamEnded => (ScanPhase::Stopped, LoopAction::StopScan),
        },
        ScanPhase::Stopped => (ScanPhase::Stopped, LoopAction::Skip),
    }
}

impl PublicationSink {
    /// Carries out the sink's part of an action: a `Publish` replaces the
    /// stored snapshot, every other action leaves the sink as it is.
    pub fn apply(&mut self, action: &LoopAction)
        ensures
            final(self)@ == sink_after(old(self)@, *action),
    {
        match action {
            LoopAction::Publish(s) => self.publish(*s),
            _ => {},
        }
    }
}

/// An event that is not a well-formed sensor frame (another kind of event,
/// no entry for the sensor's service UUID, or a payload of the wrong length)
/// leaves the loop's phase and the sink's content as they were.
pub proof fn lemma_foreign_events_ignored(
    phase: ScanPhase,
    e: AdvertEvent,
    held: Option<Snapshot>,
)
    requires
        match sensor_payload(e) {
            Some(p) => p.len() != PAYLOAD_LEN,
            None => true,
        },
    ensures
        transition(phase, LoopInput::Advert(e)).0 == phase,
        transition(phase, LoopInput::Advert(e)).1 == LoopAction::Skip,
        sink_after(held, transition(phase, LoopInput::Advert(e)).1) == held,
{
}

/// While scanning, a sensor payload of the right length is decoded and
/// published, and the sink then holds exactly its snapshot.
pub proof fn lemma_sensor_frames_published(e: AdvertEvent, held: Option<Snapshot>)
    requires
        sensor_payload(e) is Some,
        sensor_payload(e)->0.len() == PAYLOAD_LEN,
    ensures
        transition(ScanPhase::Scanning, LoopInput::Advert(e)) == (
            ScanPhase::Scanning,
            LoopAction::Publish(snapshot_of(sensor_payload(e)->0)),
        ),
        sink_after(held, transition(ScanPhase::Scanning, LoopInput::Advert(e)).1) == Some(
            snapshot_of(sensor_payload(e)->0),
        ),
{
}

} // verus!
