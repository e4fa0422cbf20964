//! The channel between two nodes.

use vstd::prelude::*;

verus! {

/// The payload of an edge of the network graph: one communication channel
/// between two nodes. It carries no properties of its own yet; the simulator
/// only stores it.
#[derive(Debug, Clone, Copy, PartialEq, Eq, Structural)]
pub struct Medium {}

} // verus!
