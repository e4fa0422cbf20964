//! The registered nodes of a simulation, as a value: a sequence of nodes in
//! the order of their registration, no two of which carry the same identity.

use vstd::prelude::*;
use crate::node::{Node, PublicIdentity};
use crate::simulator::SimulatorError;

verus! {

/// Whether one of `nodes` carries the identity `id`.
pub open spec fn holds_identity(nodes: Seq<Node>, id: PublicIdentity) -> bool {
    exists|i: int| 0 <= i < nodes.len() && #[trigger] nodes[i].public_id() == id
}

/// Whether no two of `nodes` carry the same identity.
pub open spec fn distinct_identities(nodes: Seq<Node>) -> bool {
    forall|i: int, j: int|
        0 <= i < nodes.len() && 0 <= j < nodes.len() && #[trigger] nodes[i].public_id()
            == #[trigger] nodes[j].public_id() ==> i == j
}

/// The node among `nodes` that carries the identity `id`, if there is one.
pub open spec fn lookup(nodes: Seq<Node>, id: PublicIdentity) -> Option<Node> {
    if holds_identity(nodes, id) {
        Some(nodes[choose|i: int| 0 <= i < nodes.len() && #[trigger] nodes[i].public_id() == id])
    } else {
        None
    }
}

/// What registering `node` makes of the registered `nodes`: the same nodes
/// with `node` after them, or the refusal of an identity that is taken.
pub open spec fn register(nodes: Seq<Node>, node: Node) -> Result<Seq<Node>, SimulatorError> {
    if holds_identity(nodes, node.public_id()) {
        Err(SimulatorError::DuplicateCryptographicIdentityError(node.public_id()))
    } else {
        Ok(nodes.push(node))
    }
}

/// Where no two nodes share an identity, looking up the identity of a node
/// at any position finds that very node.
pub proof fn lemma_lookup_finds_position(nodes: Seq<Node>, position: int)
    requires
        distinct_identities(nodes),
        0 <= position < nodes.len(),
    ensures
        lookup(nodes, nodes[position].public_id()) == Some(nodes[position]),
{
    assert(holds_identity(nodes, nodes[position].public_id()));
}

/// A node whose identity is not taken is accepted, and a lookup of its
/// identity then returns a node equal to it. The nodes still carry distinct
/// identities afterwards.
pub proof fn lemma_registered_node_is_found(nodes: Seq<Node>, node: Node)
    requires
        distinct_identities(nodes),
        !holds_identity(nodes, node.public_id()),
    ensures
        register(nodes, node) == Ok::<Seq<Node>, SimulatorError>(nodes.push(node)),
        distinct_identities(nodes.push(node)),
        holds_identity(nodes.push(node), node.public_id()),
        lookup(nodes.push(node), node.public_id()) == Some(node),
{
    let after = nodes.push(node);
    assert forall|i: int, j: int|
        0 <= i < after.len() && 0 <= j < after.len() && #[trigger] after[i].public_id()
            == #[trigger] after[j].public_id() implies i == j by {
        if i < nodes.len() {
            assert(nodes[i].public_id() == after[i].public_id());
        }
        if j < nodes.len() {
            assert(nodes[j].public_id() == after[j].public_id());
        }
    }
    assert(after[nodes.len() as int] == node);
    lemma_lookup_finds_position(after, nodes.len() as int);
}

/// A node whose identity is taken is refused with that identity, so the
/// registered nodes stay as they were: a registered identity can not be
/// registered a second time.
pub proof fn lemma_duplicate_is_refused(nodes: Seq<Node>, node: Node)
    requires
        holds_identity(nodes, node.public_id()),
    ensures
        register(nodes, node) == Err::<Seq<Node>, SimulatorError>(
            SimulatorError::DuplicateCryptographicIdentityError(node.public_id()),
        ),
{
}

/// A lookup of an identity that no registered node carries returns nothing;
/// in particular every lookup among no nodes does.
pub proof fn lemma_unregistered_is_not_found(nodes: Seq<Node>, id: PublicIdentity)
    ensures
        !holds_identity(nodes, id) ==> lookup(nodes, id) == None::<Node>,
        lookup(Seq::<Node>::empty(), id) == None::<Node>,
{
}

/// Registering a node changes the lookup of no other identity.
pub proof fn lemma_register_keeps_others(nodes: Seq<Node>, node: Node, id: PublicIdentity)
    requires
        distinct_identities(nodes),
        !holds_identity(nodes, node.public_id()),
        id != node.public_id(),
    ensures
        lookup(nodes.push(node), id) == lookup(nodes, id),
{
    let after = nodes.push(node);
    lemma_registered_node_is_found(nodes, node);
    if holds_identity(nodes, id) {
        let i = choose|i: int| 0 <= i < nodes.len() && #[trigger] nodes[i].public_id() == id;
        assert(after[i] == nodes[i]);
        lemma_lookup_finds_position(after, i);
        lemma_lookup_finds_position(nodes, i);
    } else {
        if holds_identity(after, id) {
            let j = choose|j: int| 0 <= j < after.len() && #[trigger] after[j].public_id() == id;
            assert(j < nodes.len());
            assert(nodes[j].public_id() == id);
        }
    }
}

} // verus!
