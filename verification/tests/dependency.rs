use std::collections::HashMap;

use vigil::engine::dependency::{compute_effective_status, recompute_all_effective_statuses};
use vigil::models::node::Node;
use vigil::models::status::{EffectiveStatus, NodeStatus};

fn node(name: &str, address: &str, status: NodeStatus, parent: Option<u128>) -> Node {
    let mut n = Node::new(name, vec![address.to_string()]).unwrap();
    n.status = status;
    n.parent_node_id = parent;
    n
}

#[test]
fn test_node_with_no_parent() {
    let mut nodes = HashMap::new();
    let n = Node::new("test-node", vec!["192.168.1.1".to_string()]).unwrap();
    let node_id = n.id;
    nodes.insert(node_id, n);
    assert_eq!(compute_effective_status(&node_id, &nodes), EffectiveStatus::Unknown);
}

#[test]
fn test_node_with_up_parent() {
    let mut nodes = HashMap::new();
    let parent = node("parent", "192.168.1.1", NodeStatus::Up, None);
    let parent_id = parent.id;
    nodes.insert(parent_id, parent);
    let child = node("child", "192.168.1.2", NodeStatus::Up, Some(parent_id));
    let child_id = child.id;
    nodes.insert(child_id, child);
    assert_eq!(compute_effective_status(&child_id, &nodes), EffectiveStatus::Up);
}

#[test]
fn test_node_with_down_parent() {
    let mut nodes = HashMap::new();
    let parent = node("parent", "192.168.1.1", NodeStatus::Down, None);
    let parent_id = parent.id;
    nodes.insert(parent_id, parent);
    let child = node("child", "192.168.1.2", NodeStatus::Up, Some(parent_id));
    let child_id = child.id;
    nodes.insert(child_id, child);
    assert_eq!(compute_effective_status(&child_id, &nodes), EffectiveStatus::Suppressed);
}

#[test]
fn test_node_with_unknown_parent() {
    let mut nodes = HashMap::new();
    let parent = node("parent", "192.168.1.1", NodeStatus::Unknown, None);
    let parent_id = parent.id;
    nodes.insert(parent_id, parent);
    let child = node("child", "192.168.1.2", NodeStatus::Up, Some(parent_id));
    let child_id = child.id;
    nodes.insert(child_id, child);
    assert_eq!(compute_effective_status(&child_id, &nodes), EffectiveStatus::Up);
}

#[test]
fn test_missing_parent_node() {
    let mut nodes = HashMap::new();
    let absent_parent = Node::new("absent", vec![]).unwrap().id;
    let child = node("child", "192.168.1.2", NodeStatus::Up, Some(absent_parent));
    let child_id = child.id;
    nodes.insert(child_id, child);
    assert_eq!(compute_effective_status(&child_id, &nodes), EffectiveStatus::Up);
}

#[test]
fn test_child_internal_status_unchanged() {
    let mut nodes = HashMap::new();
    let parent = node("parent", "192.168.1.1", NodeStatus::Down, None);
    let parent_id = parent.id;
    nodes.insert(parent_id, parent);
    let child = node("child", "192.168.1.2", NodeStatus::Up, Some(parent_id));
    let child_id = child.id;
    nodes.insert(child_id, child);

    let _effective = compute_effective_status(&child_id, &nodes);
    assert_eq!(nodes.get(&child_id).unwrap().status, NodeStatus::Up);
}

#[test]
fn test_recompute_all() {
    let mut nodes = HashMap::new();
    let parent = node("parent", "192.168.1.1", NodeStatus::Down, None);
    let parent_id = parent.id;
    nodes.insert(parent_id, parent);
    let child1 = node("child1", "192.168.1.2", NodeStatus::Up, Some(parent_id));
    let child1_id = child1.id;
    nodes.insert(child1_id, child1);
    let independent = node("independent", "192.168.1.3", NodeStatus::Up, None);
    let independent_id = independent.id;
    nodes.insert(independent_id, independent);

    let results = recompute_all_effective_statuses(&nodes);
    assert_eq!(results.len(), 3);
    let result_map: HashMap<u128, EffectiveStatus> = results.into_iter().collect();
    assert_eq!(result_map.get(&parent_id), Some(&EffectiveStatus::Down));
    assert_eq!(result_map.get(&child1_id), Some(&EffectiveStatus::Suppressed));
    assert_eq!(result_map.get(&independent_id), Some(&EffectiveStatus::Up));
}

#[test]
fn test_down_child_of_down_parent() {
    let mut nodes = HashMap::new();
    let parent = node("parent", "192.168.1.1", NodeStatus::Down, None);
    let parent_id = parent.id;
    nodes.insert(parent_id, parent);
    let child = node("child", "192.168.1.2", NodeStatus::Down, Some(parent_id));
    let child_id = child.id;
    nodes.insert(child_id, child);
    assert_eq!(compute_effective_status(&child_id, &nodes), EffectiveStatus::Suppressed);
}

#[test]
fn missing_node_is_unknown() {
    let nodes: HashMap<u128, Node> = HashMap::new();
    assert_eq!(compute_effective_status(&42, &nodes), EffectiveStatus::Unknown);
    assert!(recompute_all_effective_statuses(&nodes).is_empty());
}

#[test]
fn only_the_immediate_parent_counts() {
    // grandparent Down -> parent Suppressed (status Up) -> child sees parent Up.
    let mut nodes = HashMap::new();
    let gp = node("gp", "10.0.0.1", NodeStatus::Down, None);
    let gp_id = gp.id;
    nodes.insert(gp_id, gp);
    let p = node("p", "10.0.0.2", NodeStatus::Up, Some(gp_id));
    let p_id = p.id;
    nodes.insert(p_id, p);
    let c = node("c", "10.0.0.3", NodeStatus::Up, Some(p_id));
    let c_id = c.id;
    nodes.insert(c_id, c);
    assert_eq!(compute_effective_status(&p_id, &nodes), EffectiveStatus::Suppressed);
    assert_eq!(compute_effective_status(&c_id, &nodes), EffectiveStatus::Up);
}

#[test]
fn a_self_parented_down_node_is_suppressed() {
    // No cycle detection: a node that is its own parent and Down is suppressed.
    let mut nodes = HashMap::new();
    let mut n = Node::new("loop", vec!["10.0.0.9".to_string()]).unwrap();
    n.status = NodeStatus::Down;
    n.parent_node_id = Some(n.id);
    let id = n.id;
    nodes.insert(id, n);
    assert_eq!(compute_effective_status(&id, &nodes), EffectiveStatus::Suppressed);
}
