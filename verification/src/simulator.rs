//! The simulation state root.

use vstd::prelude::*;
use std::collections::HashMap;
use crate::graph::{graph_add_node, graph_empty, graph_node, graph_nodes, NetworkGraph};
use crate::clock::clock_after;
use crate::node::{Node, PublicIdentity};
use crate::registry::{distinct_identities, holds_identity, lookup, register};

verus! {

broadcast use vstd::std_specs::hash::group_hash_axioms;

/// What can go wrong in a simulator operation.
#[derive(Debug, PartialEq, Eq, Structural)]
pub enum SimulatorError {
    /// A node with this public identity is registered already.
    DuplicateCryptographicIdentityError(PublicIdentity),
}

/// The simulation state root, owning all other data about a simulation.
/// The simulator tracks nodes by their connections and their cryptographic
/// identities.
pub struct Simulator {
    ticks: u64,
    directory: HashMap<PublicIdentity, usize>,
    graph: NetworkGraph,
}

impl Simulator {
    /// The directory and the graph agree: each directory entry leads to the
    /// graph node that carries the entry's identity, and each graph node is
    /// found under its identity. `new` establishes this and every operation
    /// keeps it.
    pub closed spec fn well_formed(&self) -> bool {
        let nodes = graph_nodes(self.graph);
        &&& forall|id: PublicIdentity| #[trigger]
            self.directory@.contains_key(id) ==> self.directory@[id] < nodes.len()
                && nodes[self.directory@[id] as int].public_id() == id
        &&& forall|i: int|
            0 <= i < nodes.len() ==> self.directory@.contains_key(
                (#[trigger] nodes[i]).public_id(),
            ) && self.directory@[nodes[i].public_id()] == i
    }

    /// The registered nodes, in the order of their registration.
    pub closed spec fn nodes(&self) -> Seq<Node> {
        graph_nodes(self.graph)
    }

    /// The identities under which the directory holds a node.
    pub closed spec fn identities(&self) -> Set<PublicIdentity> {
        self.directory@.dom()
    }

    /// The number of ticks the clock stands at.
    pub closed spec fn ticks(&self) -> u64 {
        self.ticks
    }

    /// Create a new simulator with no state at the beginning of time.
    pub fn new() -> (simulator: Self)
        ensures
            simulator.well_formed(),
            simulator.ticks() == 0,
            simulator.nodes() == Seq::<Node>::empty(),
            simulator.identities() == Set::<PublicIdentity>::empty(),
    {
        Self { ticks: 0, directory: HashMap::new(), graph: graph_empty() }
    }

    /// Advance the simulator state by the given number of ticks. The clock
    /// saturates: once at `u64::MAX` it stays there. The nodes are untouched.
    pub fn advance(&mut self, ticks: u64)
        requires
            old(self).well_formed(),
        ensures
            final(self).well_formed(),
            final(self).ticks() == clock_after(old(self).ticks(), ticks),
            final(self).ticks() >= old(self).ticks(),
            final(self).nodes() == old(self).nodes(),
            final(self).identities() == old(self).identities(),
    {
        self.ticks = self.ticks.saturating_add(ticks);
    }

    /// Return the number of ticks that have been executed by the simulator so
    /// far.
    pub fn ticks_so_far(&self) -> (ticks: u64)
        ensures
            ticks == self.ticks(),
    {
        self.ticks
    }

    /// Create a new host in the network with the given node information.
    ///
    /// An identity that no registered node carries is accepted: the node joins
    /// the registered nodes, after those already there. An identity that is
    /// taken is refused with `DuplicateCryptographicIdentityError`, and the
    /// simulator is left as it was. The clock is untouched either way.
    pub fn add_node(&mut self, node: Node) -> (result: Result<(), SimulatorError>)
        requires
            old(self).well_formed(),
        ensures
            final(self).well_formed(),
            match register(old(self).nodes(), node) {
                Ok(nodes) => result == Ok::<(), SimulatorError>(()) && final(self).nodes() == nodes,
                Err(error) => result == Err::<(), SimulatorError>(error) && *final(self) == *old(
                    self,
                ),
            },
            final(self).identities() == if result is Ok {
                old(self).identities().insert(node.public_id())
            } else {
                old(self).identities()
            },
            final(self).ticks() == old(self).ticks(),
    {
        proof {
            self.lemma_directory_holds_identities();
        }
        let id = node.get_public_id();
        if self.directory.contains_key(&id) {
            Err(SimulatorError::DuplicateCryptographicIdentityError(id))
        } else {
            let position = graph_add_node(&mut self.graph, node);
            self.directory.insert(id, position);
            Ok(())
        }
    }

    /// Get a reference to the host with the given cryptographic ID, or nothing
    /// where no registered node carries it.
    pub fn get_node(&self, id: PublicIdentity) -> (result: Option<&Node>)
        requires
            self.well_formed(),
        ensures
            match result {
                Some(node) => lookup(self.nodes(), id) == Some(*node),
                None => lookup(self.nodes(), id) == None::<Node>,
            },
    {
        proof {
            self.lemma_directory_holds_identities();
        }
        match self.directory.get(&id) {
            Some(position) => Some(graph_node(&self.graph, *position)),
            None => None,
        }
    }

    /// The directory and the graph of a well-formed simulator match one to
    /// one: no two registered nodes carry the same identity, the directory
    /// holds exactly the identities that registered nodes carry, and it has as
    /// many entries as the graph has nodes.
    pub proof fn lemma_directory_matches_nodes(&self)
        requires
            self.well_formed(),
        ensures
            distinct_identities(self.nodes()),
            forall|id: PublicIdentity|
                self.identities().contains(id) <==> #[trigger] holds_identity(self.nodes(), id),
            self.identities().finite(),
            self.identities().len() == self.nodes().len(),
    {
        self.lemma_directory_holds_identities();
        let nodes = self.nodes();
        let ids = nodes.map_values(|node: Node| node.public_id());
        assert(ids.no_duplicates()) by {
            assert forall|i: int, j: int|
                0 <= i < ids.len() && 0 <= j < ids.len() && i != j implies ids[i] != ids[j] by {
                assert(ids[i] == nodes[i].public_id());
                assert(ids[j] == nodes[j].public_id());
            }
        }
        ids.unique_seq_to_set();
        assert(ids.to_set() =~= self.identities()) by {
            assert forall|id: PublicIdentity| ids.to_set().contains(id)
                <==> self.identities().contains(id) by {
                if ids.to_set().contains(id) {
                    let i = choose|i: int| 0 <= i < ids.len() && ids[i] == id;
                    assert(nodes[i].public_id() == id);
                }
                if self.identities().contains(id) {
                    let i = self.directory@[id] as int;
                    assert(ids[i] == id);
                }
            }
        }
    }

    /// In a well-formed simulator the directory holds exactly the identities
    /// of the graph's nodes, each at the position of its node, and no two
    /// nodes share one.
    proof fn lemma_directory_holds_identities(&self)
        requires
            self.well_formed(),
        ensures
            forall|id: PublicIdentity|
                self.directory@.contains_key(id) <==> #[trigger] holds_identity(self.nodes(), id),
            forall|id: PublicIdentity| #[trigger]
                self.directory@.contains_key(id) ==> lookup(self.nodes(), id) == Some(
                    self.nodes()[self.directory@[id] as int],
                ),
            distinct_identities(self.nodes()),
    {
        let nodes = self.nodes();
        assert forall|id: PublicIdentity| self.directory@.contains_key(id) implies holds_identity(
            nodes,
            id,
        ) by {
            assert(nodes[self.directory@[id] as int].public_id() == id);
        }
    }
}

impl Default for Simulator {
    /// A simulator with no nodes, at the beginning of time.
    fn default() -> (simulator: Self)
        ensures
            simulator.well_formed(),
            simulator.ticks() == 0,
            simulator.nodes() == Seq::<Node>::empty(),
            simulator.identities() == Set::<PublicIdentity>::empty(),
    {
        Self::new()
    }
}

} // verus!
