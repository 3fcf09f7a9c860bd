//! Tests of the navigation graph store and its shortest-path queries.

use ascendancy_lib::faction::FactionID;
use ascendancy_lib::pathfinding::GraphError;
use ascendancy_lib::pathfinding::SystemGraph;
use ascendancy_lib::solar_system::EntityList;
use ascendancy_lib::solar_system::SolarSystem;
use ascendancy_lib::solar_system::SystemAttributes;
use ascendancy_lib::stargate::Stargate;

fn sys(id: u32, name: &str) -> SolarSystem {
    SolarSystem {
        attributes: SystemAttributes {
            id,
            name: name.to_owned(),
            owner: FactionID { id: 0 },
        },
        entities: EntityList(Vec::new()),
    }
}

fn gate(id: u32, distance: u32, origin: u32, destination: u32) -> Stargate {
    Stargate::new(
        id,
        format!("gate-{}", id),
        distance,
        id + 1000,
        origin,
        destination,
        true,
    )
}

/// A line of `n` systems with ids 1..=n, one stargate pair between each
/// consecutive pair, each hop at the given distance.
fn line_graph(n: u32, distances: &[u32]) -> SystemGraph {
    let mut graph = SystemGraph::new();
    let mut nodes = Vec::new();
    for id in 1..=n {
        nodes.push(graph.add_node(sys(id, &format!("system-{}", id))));
    }
    for i in 0..(n - 1) as usize {
        let d = distances[i];
        let a = i as u32 + 1;
        let b = i as u32 + 2;
        graph.add_edge(nodes[i], nodes[i + 1], gate(100 + i as u32, d, a, b));
        graph.add_edge(nodes[i + 1], nodes[i], gate(200 + i as u32, d, b, a));
    }
    graph
}

#[test]
fn adding_two_nodes_both_retrievable() {
    let mut graph = SystemGraph::new();
    let n1 = graph.add_node(sys(1, "Sol"));
    let n2 = graph.add_node(sys(2, "Alpha"));
    assert_ne!(n1, n2);
    assert!(graph.contains_system(&sys(1, "Sol")));
    assert!(graph.contains_system(&sys(2, "Alpha")));
    let s1 = graph.system_by_id(&1).unwrap();
    assert_eq!(s1.attributes.id, 1);
    assert_eq!(s1.attributes.name, "Sol");
    let s2 = graph.system_by_id(&2).unwrap();
    assert_eq!(s2.attributes.id, 2);
    assert_eq!(graph.node_by_id(&1), Some(&n1));
    assert_eq!(graph.node_by_id(&2), Some(&n2));
    assert_eq!(graph.system_by_node(&n2).unwrap().attributes.name, "Alpha");
}

#[test]
fn removing_node_removes_it_and_missing_remove_is_noop() {
    let mut graph = SystemGraph::new();
    graph.add_node(sys(1, "Sol"));
    graph.add_node(sys(2, "Alpha"));
    assert!(graph.contains_system(&sys(1, "Sol")));
    graph.remove_node(&sys(1, "Sol"));
    assert!(!graph.contains_system(&sys(1, "Sol")));
    assert!(graph.contains_system(&sys(2, "Alpha")));
    // Removing a system that is not there is a no-op, not an error.
    graph.remove_node(&sys(42, "Nowhere"));
    assert!(graph.contains_system(&sys(2, "Alpha")));
    assert!(graph.system_by_id(&1).is_none());
}

#[test]
fn removing_node_invalidates_its_edges() {
    let mut graph = SystemGraph::new();
    let n1 = graph.add_node(sys(1, "Sol"));
    let n2 = graph.add_node(sys(2, "Alpha"));
    let e = graph.add_edge(n1, n2, gate(7, 10, 1, 2));
    assert!(graph.contains_gate(e));
    graph.remove_node(&sys(2, "Alpha"));
    assert!(!graph.contains_gate(e));
}

#[test]
fn removing_edge_only_removes_that_edge() {
    let mut graph = SystemGraph::new();
    let n1 = graph.add_node(sys(1, "Sol"));
    let n2 = graph.add_node(sys(2, "Alpha"));
    let e1 = graph.add_edge(n1, n2, gate(7, 10, 1, 2));
    let e2 = graph.add_edge(n2, n1, gate(8, 10, 2, 1));
    graph.remove_edge(e1);
    assert!(!graph.contains_gate(e1));
    assert!(graph.contains_gate(e2));
    graph.remove_edge(e1);
    assert!(graph.contains_gate(e2));
}

#[test]
fn path_from_system_to_itself_is_empty() {
    let graph = line_graph(3, &[5, 5]);
    let path = graph.get_pathfinding_between(&sys(2, "system-2"), &sys(2, "system-2"));
    assert_eq!(path, Ok(Vec::new()));
}

#[test]
fn disconnected_systems_give_no_path() {
    let mut graph = SystemGraph::new();
    graph.add_node(sys(1, "Sol"));
    graph.add_node(sys(2, "Alpha"));
    let r = graph.get_pathfinding_between(&sys(1, "Sol"), &sys(2, "Alpha"));
    assert_eq!(r, Err(GraphError::NoPath));
}

#[test]
fn one_way_gates_are_directed() {
    let mut graph = SystemGraph::new();
    let n1 = graph.add_node(sys(1, "Sol"));
    let n2 = graph.add_node(sys(2, "Alpha"));
    graph.add_edge(n1, n2, gate(7, 10, 1, 2));
    let forward = graph.get_pathfinding_between(&sys(1, "Sol"), &sys(2, "Alpha"));
    assert!(forward.is_ok());
    let backward = graph.get_pathfinding_between(&sys(2, "Alpha"), &sys(1, "Sol"));
    assert_eq!(backward, Err(GraphError::NoPath));
}

#[test]
fn unknown_systems_give_system_not_found() {
    let graph = line_graph(2, &[5]);
    let r = graph.get_pathfinding_between(&sys(9, "Ghost"), &sys(1, "system-1"));
    assert_eq!(r, Err(GraphError::SystemNotFound));
    let r = graph.get_pathfinding_between(&sys(1, "system-1"), &sys(9, "Ghost"));
    assert_eq!(r, Err(GraphError::SystemNotFound));
    let r = graph.get_pathfinding_to_random_system(&sys(9, "Ghost"));
    assert_eq!(r, Err(GraphError::SystemNotFound));
}

#[test]
fn line_topology_path_crosses_every_gate() {
    let distances = [3u32, 1, 4, 1];
    let graph = line_graph(5, &distances);
    let path = graph
        .get_pathfinding_between(&sys(1, "system-1"), &sys(5, "system-5"))
        .unwrap();
    assert_eq!(path.len(), 4);
    let total: u32 = path.iter().map(|g| g.distance()).sum();
    assert_eq!(total, distances.iter().sum::<u32>());
    // The gates chain from the origin to the destination, in order.
    assert_eq!(path[0].origin_system_id(), 1);
    for w in path.windows(2) {
        assert_eq!(w[0].destination_system_id(), w[1].origin_system_id());
    }
    assert_eq!(path[3].destination_system_id(), 5);
}

#[test]
fn shortest_route_wins_over_heavier_route() {
    // A diamond: 1 -> 2 -> 4 weighs 2 + 2; 1 -> 3 -> 4 weighs 10 + 10.
    let mut graph = SystemGraph::new();
    let n1 = graph.add_node(sys(1, "a"));
    let n2 = graph.add_node(sys(2, "b"));
    let n3 = graph.add_node(sys(3, "c"));
    let n4 = graph.add_node(sys(4, "d"));
    graph.add_edge(n1, n2, gate(12, 2, 1, 2));
    graph.add_edge(n2, n4, gate(24, 2, 2, 4));
    graph.add_edge(n1, n3, gate(13, 10, 1, 3));
    graph.add_edge(n3, n4, gate(34, 10, 3, 4));
    let path = graph
        .get_pathfinding_between(&sys(1, "a"), &sys(4, "d"))
        .unwrap();
    let total: u32 = path.iter().map(|g| g.distance()).sum();
    assert_eq!(total, 4);
    assert_eq!(path.len(), 2);
    assert_eq!(path[0].id(), 12);
    assert_eq!(path[1].id(), 24);
}

#[test]
fn parallel_gates_and_self_loops_are_permitted() {
    let mut graph = SystemGraph::new();
    let n1 = graph.add_node(sys(1, "a"));
    let n2 = graph.add_node(sys(2, "b"));
    graph.add_edge(n1, n2, gate(1, 9, 1, 2));
    graph.add_edge(n1, n2, gate(2, 3, 1, 2));
    graph.add_edge(n1, n1, gate(3, 1, 1, 1));
    let path = graph
        .get_pathfinding_between(&sys(1, "a"), &sys(2, "b"))
        .unwrap();
    // Of the two parallel gates the lighter one is taken.
    assert_eq!(path.len(), 1);
    assert_eq!(path[0].distance(), 3);
}

#[test]
fn random_destination_never_fails_on_known_connected_system() {
    let graph = line_graph(4, &[2, 2, 2]);
    for _ in 0..20 {
        let path = graph
            .get_pathfinding_to_random_system(&sys(1, "system-1"))
            .unwrap();
        // Every destination is reachable, so a path always comes back;
        // if it is not empty it starts at the origin and chains.
        if !path.is_empty() {
            assert_eq!(path[0].origin_system_id(), 1);
            for w in path.windows(2) {
                assert_eq!(w[0].destination_system_id(), w[1].origin_system_id());
            }
        }
    }
}

#[test]
fn selected_pair_path_needs_exactly_two() {
    let graph = line_graph(3, &[5, 5]);
    let mut selection = ascendancy_lib::selection::Selection::new();
    assert!(ascendancy_lib::pathfinding::get_stargate_path_between_systems(&selection, &graph).is_none());
    selection.set(sys(1, "system-1"));
    assert!(ascendancy_lib::pathfinding::get_stargate_path_between_systems(&selection, &graph).is_none());
    selection.set(sys(3, "system-3"));
    let path = ascendancy_lib::pathfinding::get_stargate_path_between_systems(&selection, &graph)
        .unwrap()
        .unwrap();
    assert_eq!(path.len(), 2);
    assert_eq!(path[0].origin_system_id(), 1);
    assert_eq!(path[1].destination_system_id(), 3);
    selection.set(sys(2, "system-2"));
    assert!(ascendancy_lib::pathfinding::get_stargate_path_between_systems(&selection, &graph).is_none());
}

#[test]
fn random_pair_path_on_empty_graph_finds_no_system() {
    let graph = SystemGraph::new();
    let r = ascendancy_lib::pathfinding::get_random_path_between_two_systems(&graph);
    assert_eq!(r, Err(GraphError::SystemNotFound));
}

#[test]
fn random_pair_path_on_connected_graph_chains() {
    let graph = line_graph(4, &[2, 2, 2]);
    for _ in 0..20 {
        let path = ascendancy_lib::pathfinding::get_random_path_between_two_systems(&graph).unwrap();
        for w in path.windows(2) {
            assert_eq!(w[0].destination_system_id(), w[1].origin_system_id());
        }
    }
}

#[test]
fn duplicate_id_shadows_older_mapping() {
    let mut graph = SystemGraph::new();
    let n1 = graph.add_node(sys(1, "old"));
    let n2 = graph.add_node(sys(1, "new"));
    // Both nodes exist, but the id lookup reaches the newer one.
    assert_eq!(graph.system_by_node(&n1).unwrap().attributes.name, "old");
    assert_eq!(graph.system_by_node(&n2).unwrap().attributes.name, "new");
    assert_eq!(graph.system_by_id(&1).unwrap().attributes.name, "new");
    // Removing the id removes the mapped node; the older namesake stays
    // live but unmapped.
    graph.remove_node(&sys(1, "new"));
    assert!(graph.system_by_id(&1).is_none());
    assert_eq!(graph.system_by_node(&n1).unwrap().attributes.name, "old");
    assert!(graph.system_by_node(&n2).is_none());
}
