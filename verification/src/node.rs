//! Node identities and the nodes that carry them.

use vstd::prelude::*;

verus! {

/// The unique cryptographic identity of each node in the network.
/// It is unrelated to the position a node takes inside the network graph.
pub type Identity = u64;

/// The public component of the unique cryptographic identity of each node in
/// the network. Other components address a node by this value.
pub type PublicIdentity = u64;

/// A participant of the simulation. It carries its identity and nothing else.
#[derive(Debug, Clone, PartialEq, Eq, Structural)]
pub struct Node {
    identity: Identity,
}

impl Node {
    /// The public identity this node carries.
    pub closed spec fn public_id(&self) -> PublicIdentity {
        self.identity
    }

    /// Create a new, otherwise empty node with the given cryptographic
    /// identity. No identity is refused here: uniqueness is a matter of the
    /// simulator a node is registered with.
    pub fn with_id(id: Identity) -> (node: Self)
        ensures
            node.public_id() == id,
    {
        Self { identity: id }
    }

    /// The public identity of this node.
    pub fn get_public_id(&self) -> (id: PublicIdentity)
        ensures
            id == self.public_id(),
    {
        self.identity
    }
}

/// The capability by which a node decides how to forward traffic along its
/// adjacent channels. It is addressed by identity only and may differ from
/// node to node. It has no operations yet.
pub trait NodeRouter {
}

} // verus!
