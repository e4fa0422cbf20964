//! A discrete-time simulator for a network of cryptographically identified
//! nodes joined by communication channels.
//!
//! The [`simulator::Simulator`] is the state root. It owns the node
//! population, the connectivity graph, the directory from public identity to
//! graph position, and the logical clock, and keeps them consistent with one
//! another.

pub mod medium;
pub mod node;
pub mod graph;
pub mod clock;
pub mod registry;
pub mod simulator;
