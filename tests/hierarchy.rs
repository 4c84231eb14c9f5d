use asteroid_shooter::hierarchy::{external_force_to_update, force_update_chain, ForceNode};

fn node(parent: Option<usize>, has_force: bool) -> ForceNode {
    ForceNode { parent, has_force }
}

/// A ship (0) with an engine controller (1) holding two engines (2, 3), and an
/// asteroid (4) on its own.
fn ship_and_asteroid() -> Vec<ForceNode> {
    vec![
        node(None, true),
        node(Some(0), true),
        node(Some(1), true),
        node(Some(1), true),
        node(None, true),
    ]
}

#[test]
fn chain_climbs_to_the_top() {
    let nodes = ship_and_asteroid();
    assert_eq!(force_update_chain(&nodes, 1), vec![1, 0]);
    assert_eq!(force_update_chain(&nodes, 2), vec![2, 1, 0]);
    assert_eq!(force_update_chain(&nodes, 0), vec![0]);
}

#[test]
fn chain_stops_at_entity_without_force() {
    let mut nodes = ship_and_asteroid();
    nodes[1].has_force = false;
    assert_eq!(force_update_chain(&nodes, 2), vec![2, 1]);
}

#[test]
fn chain_stops_at_unseen_entity() {
    let nodes = vec![node(Some(7), true)];
    assert_eq!(force_update_chain(&nodes, 0), vec![0, 7]);
    assert_eq!(force_update_chain(&nodes, 9), vec![9]);
}

#[test]
fn cyclic_links_do_not_hang() {
    let nodes = vec![node(Some(1), true), node(Some(0), true)];
    assert_eq!(force_update_chain(&nodes, 0), vec![0, 1, 0]);
}

#[test]
fn chains_are_listed_in_order() {
    let nodes = ship_and_asteroid();
    assert_eq!(external_force_to_update(&nodes, &vec![1, 4, 0]), vec![1, 0, 4, 0]);
    assert!(external_force_to_update(&nodes, &vec![]).is_empty());
}
