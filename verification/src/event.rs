//! Discrete events: value objects ordered by their time stamp alone.

use vstd::prelude::*;

verus! {

/// Kinds of events that can occur in the simulation.  Only generation events
/// are handled by this library's protocol; the rest are for the driver.
#[derive(Clone, Copy, Debug, PartialEq, Eq, Structural)]
pub enum EventType {
    /// Attempt to generate entanglement on a channel.
    EntanglementGeneration,
    /// Perform entanglement swapping at a node.
    EntanglementSwapping,
    /// Perform a purification operation.
    Purification,
    /// Qubit measurement.
    Measurement,
    /// Memory decoherence check.
    Decoherence,
}

/// A discrete event in the simulation; `time` is in ticks and serves only
/// as the scheduler's sort key.
#[derive(Clone, Copy, Debug)]
pub struct Event {
    /// Time at which this event should be processed, in ticks.
    pub time: u64,
    /// Kind of event.
    pub event_type: EventType,
    /// Node where this event occurs.
    pub node_id: usize,
    /// Another node involved, for channel events.
    pub target_node_id: Option<usize>,
    /// Channel or qubit involved, if any.
    pub resource_id: Option<usize>,
}

impl Event {
    /// An event with the optional fields absent.
    pub fn new(time: u64, event_type: EventType, node_id: usize) -> (e: Event)
        ensures
            e.time == time,
            e.event_type == event_type,
            e.node_id == node_id,
            e.target_node_id is None,
            e.resource_id is None,
    {
        Event { time, event_type, node_id, target_node_id: None, resource_id: None }
    }
}

} // verus!
