use netsim::node::Node;
use netsim::simulator::{Simulator, SimulatorError};

#[test]
fn run_forward_advances_ticks() {
    let mut s = Simulator::new();
    assert_eq!(s.ticks_so_far(), 0);
    s.advance(1);
    assert_eq!(s.ticks_so_far(), 1);
}

#[test]
fn add_and_retrieve_nodes() {
    let mut s = Simulator::new();
    let n = Node::with_id(0);
    let id = n.get_public_id();
    s.add_node(n.clone()).expect("Could not add node to simulator. Error");
    let r = s.get_node(id).expect("Could not get node from simulator.");
    assert_eq!(&n, r);
}

#[test]
fn cannot_add_duplicate_nodes() {
    let mut s = Simulator::new();
    let n1 = Node::with_id(0);
    let n2 = Node::with_id(0);
    s.add_node(n1).expect("Could not add first node to simulator. Error");
    s.add_node(n2).expect_err("Was able to add second node to simulator.");
}

#[test]
fn fresh_simulator_is_empty_at_time_zero() {
    let s = Simulator::new();
    assert_eq!(s.ticks_so_far(), 0);
    assert!(s.get_node(0).is_none());
    assert!(s.get_node(7).is_none());
    assert!(s.get_node(u64::MAX).is_none());
}

#[test]
fn default_simulator_is_empty_at_time_zero() {
    let s = Simulator::default();
    assert_eq!(s.ticks_so_far(), 0);
    assert!(s.get_node(7).is_none());
}

#[test]
fn register_lookup_refuse_and_advance() {
    let mut s = Simulator::new();
    assert_eq!(s.ticks_so_far(), 0);
    assert_eq!(s.add_node(Node::with_id(7)), Ok(()));
    assert_eq!(s.get_node(7).map(|n| n.get_public_id()), Some(7));
    assert_eq!(
        s.add_node(Node::with_id(7)),
        Err(SimulatorError::DuplicateCryptographicIdentityError(7))
    );
    assert_eq!(s.get_node(7), Some(&Node::with_id(7)));
    s.advance(5);
    assert_eq!(s.ticks_so_far(), 5);
    s.advance(3);
    assert_eq!(s.ticks_so_far(), 8);
}

#[test]
fn advance_adds_its_ticks() {
    let mut s = Simulator::new();
    s.advance(0);
    assert_eq!(s.ticks_so_far(), 0);
    s.advance(41);
    assert_eq!(s.ticks_so_far(), 41);
    s.advance(1_000_000_000_000);
    assert_eq!(s.ticks_so_far(), 1_000_000_000_041);
    s.advance(0);
    assert_eq!(s.ticks_so_far(), 1_000_000_000_041);
}

#[test]
fn clock_never_runs_backwards() {
    let mut s = Simulator::new();
    let mut last = s.ticks_so_far();
    for delta in [3u64, 0, 17, u64::MAX - 100, 50, 50, 50, u64::MAX, 0, 1] {
        s.advance(delta);
        let now = s.ticks_so_far();
        assert!(now >= last);
        last = now;
    }
    assert_eq!(last, u64::MAX);
}

#[test]
fn clock_saturates_at_the_limit() {
    let mut s = Simulator::new();
    s.advance(u64::MAX - 1);
    assert_eq!(s.ticks_so_far(), u64::MAX - 1);
    s.advance(1);
    assert_eq!(s.ticks_so_far(), u64::MAX);
    s.advance(1);
    assert_eq!(s.ticks_so_far(), u64::MAX);
    s.advance(u64::MAX);
    assert_eq!(s.ticks_so_far(), u64::MAX);
}

#[test]
fn advance_leaves_the_nodes_alone() {
    let mut s = Simulator::new();
    s.add_node(Node::with_id(3)).unwrap();
    s.advance(10);
    assert_eq!(s.get_node(3), Some(&Node::with_id(3)));
    assert!(s.get_node(10).is_none());
}

#[test]
fn unregistered_identity_is_not_found() {
    let mut s = Simulator::new();
    s.add_node(Node::with_id(1)).unwrap();
    s.add_node(Node::with_id(2)).unwrap();
    assert!(s.get_node(0).is_none());
    assert!(s.get_node(3).is_none());
    assert!(s.get_node(u64::MAX).is_none());
}

#[test]
fn each_identity_leads_to_its_own_node() {
    let mut s = Simulator::new();
    let ids = [50u64, 7, 0, u64::MAX, 12, 49];
    for id in ids {
        assert_eq!(s.add_node(Node::with_id(id)), Ok(()));
    }
    for id in ids {
        let found = s.get_node(id).expect("a registered node is found");
        assert_eq!(found.get_public_id(), id);
        assert_eq!(found, &Node::with_id(id));
    }
}

#[test]
fn lookups_survive_later_registrations() {
    let mut s = Simulator::new();
    s.add_node(Node::with_id(100)).unwrap();
    assert_eq!(s.get_node(100).map(|n| n.get_public_id()), Some(100));
    for id in 0..64u64 {
        s.add_node(Node::with_id(id)).unwrap();
        assert_eq!(s.get_node(100).map(|n| n.get_public_id()), Some(100));
        assert_eq!(s.get_node(id).map(|n| n.get_public_id()), Some(id));
    }
}

#[test]
fn duplicate_is_refused_and_leaves_no_trace() {
    let mut s = Simulator::new();
    s.add_node(Node::with_id(1)).unwrap();
    s.add_node(Node::with_id(2)).unwrap();
    s.advance(4);
    assert_eq!(
        s.add_node(Node::with_id(2)),
        Err(SimulatorError::DuplicateCryptographicIdentityError(2))
    );
    assert_eq!(
        s.add_node(Node::with_id(1)),
        Err(SimulatorError::DuplicateCryptographicIdentityError(1))
    );
    assert_eq!(s.ticks_so_far(), 4);
    assert_eq!(s.get_node(1), Some(&Node::with_id(1)));
    assert_eq!(s.get_node(2), Some(&Node::with_id(2)));
    // A node registered after the refusals takes the next free place: the
    // refused nodes did not take one.
    s.add_node(Node::with_id(3)).unwrap();
    assert_eq!(s.get_node(3), Some(&Node::with_id(3)));
    assert_eq!(s.get_node(1), Some(&Node::with_id(1)));
    assert_eq!(s.get_node(2), Some(&Node::with_id(2)));
}

#[test]
fn refused_node_can_be_retried_under_another_identity() {
    let mut s = Simulator::new();
    s.add_node(Node::with_id(9)).unwrap();
    assert!(s.add_node(Node::with_id(9)).is_err());
    assert_eq!(s.add_node(Node::with_id(10)), Ok(()));
    assert_eq!(s.get_node(10).map(|n| n.get_public_id()), Some(10));
}

#[test]
fn simulators_are_independent() {
    let mut a = Simulator::new();
    let mut b = Simulator::new();
    a.add_node(Node::with_id(5)).unwrap();
    a.advance(2);
    assert!(b.get_node(5).is_none());
    assert_eq!(b.ticks_so_far(), 0);
    assert_eq!(b.add_node(Node::with_id(5)), Ok(()));
    b.advance(9);
    assert_eq!(a.ticks_so_far(), 2);
    assert_eq!(b.ticks_so_far(), 9);
}
