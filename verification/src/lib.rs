//! Discrete-event simulator for entanglement distribution in a quantum
//! network: nodes with finite quantum memory, lossy channels, a heralded
//! generation protocol, and a fixed-point quantum-state and fidelity model.
//!
//! All continuous quantities are held in fixed point: probabilities and
//! fidelities as `u64` parts per billion, state-vector amplitudes as scaled
//! `i64` complex parts, and simulation time as `u64` ticks.

pub mod amplitude;
pub mod barrett_kok;
pub mod channel;
pub mod event;
pub mod gates;
pub mod measurement;
pub mod node;
pub mod noise;
pub mod numeric;
pub mod operations;
pub mod rng;
pub mod scheduler;
pub mod state;
pub mod topology;
