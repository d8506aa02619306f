use std::collections::HashMap;
use vstd::prelude::*;
use vstd::std_specs::iter::IteratorSpec;

use crate::models::node::Node;
use crate::models::status::{effective_of, EffectiveStatus, NodeStatus};

verus! {

/// The effective status of node `node_id` among `nodes` (simple uplink model).
///
/// A node whose parent is present and `Down` is `Suppressed`; otherwise its
/// effective status is its own status. Only the immediate parent is looked
/// at, and a missing parent counts as not down. A node that is not in `nodes`
/// is `Unknown`.
pub open spec fn effective_status_in(nodes: Map<u128, Node>, node_id: u128) -> EffectiveStatus {
    if !nodes.contains_key(node_id) {
        EffectiveStatus::Unknown
    } else {
        match nodes[node_id].parent_node_id {
            Some(parent_id) => if nodes.contains_key(parent_id) && nodes[parent_id].status
                == NodeStatus::Down {
                EffectiveStatus::Suppressed
            } else {
                effective_of(nodes[node_id].status)
            },
            None => effective_of(nodes[node_id].status),
        }
    }
}

/// Compute the effective status for a specific node.
///
/// If the node has a parent and that parent's status is `Down` the node is
/// `Suppressed`; otherwise its effective status is its own status. Only the
/// immediate parent is checked (no deep traversal, no cycle detection), a
/// missing parent is ignored, and a missing node is `Unknown`.
pub fn compute_effective_status(node_id: &u128, nodes: &HashMap<u128, Node>) -> (e: EffectiveStatus)
    ensures
        e == effective_status_in(nodes@, *node_id),
{
    broadcast use vstd::std_specs::hash::group_hash_axioms;
    let node = match nodes.get(node_id) {
        Some(n) => n,
        None => return EffectiveStatus::Unknown,
    };
    if let Some(parent_id) = &node.parent_node_id {
        if let Some(parent) = nodes.get(parent_id) {
            if parent.status == NodeStatus::Down {
                return EffectiveStatus::Suppressed;
            }
        }
    }
    EffectiveStatus::from(node.status)
}

/// Recompute the effective status of every node.
///
/// Returns one `(node_id, effective_status)` pair per node, each id once, in
/// the order in which the map yields its keys.
pub fn recompute_all_effective_statuses(nodes: &HashMap<u128, Node>) -> (r: Vec<(u128, EffectiveStatus)>)
    ensures
        r@.len() == nodes@.dom().len(),
        forall|i: int|
            0 <= i < r@.len() ==> nodes@.contains_key(#[trigger] r@[i].0) && r@[i].1
                == effective_status_in(nodes@, r@[i].0),
        forall|k: u128|
            nodes@.contains_key(k) ==> exists|i: int| 0 <= i < r@.len() && #[trigger] r@[i].0 == k,
        forall|i: int, j: int| 0 <= i < j < r@.len() ==> r@[i].0 != r@[j].0,
{
    broadcast use vstd::std_specs::hash::group_hash_axioms;
    let mut out: Vec<(u128, EffectiveStatus)> = Vec::new();
    let ghost keys = vstd::std_specs::hash::spec_keys_iter(nodes).remaining();
    for id in it: nodes.keys()
        invariant
            it.seq() == keys,
            out@.len() == it.index(),
            forall|i: int|
                0 <= i < it.index() ==> #[trigger] out@[i] == (*it.seq()[i], effective_status_in(
                    nodes@,
                    *it.seq()[i],
                )),
    {
        let e = compute_effective_status(id, nodes);
        out.push((*id, e));
    }
    assert(keys.unref().to_set() == nodes@.dom());
    assert(keys.no_duplicates());
    assert forall|k: u128| nodes@.contains_key(k) implies exists|i: int|
        0 <= i < out@.len() && #[trigger] out@[i].0 == k by {
        assert(keys.unref().to_set().contains(k));
        let i = choose|i: int| 0 <= i < keys.unref().len() && keys.unref()[i] == k;
        assert(out@[i].0 == k);
    }
    assert forall|i: int| 0 <= i < out@.len() implies nodes@.contains_key(#[trigger] out@[i].0) && out@[i].1
                == effective_status_in(nodes@, out@[i].0) by {
        assert(out@[i] == (*keys[i], effective_status_in(nodes@, *keys[i])));
        assert(keys.unref()[i] == *keys[i]);
        assert(keys.unref().to_set().contains(keys.unref()[i]));
    }
    out
}

/// The node map with every node's effective status recomputed from the
/// statuses and parents in it; nothing else about any node changes.
pub open spec fn with_effective(nodes: Map<u128, Node>) -> Map<u128, Node> {
    Map::new(
        |k: u128| nodes.contains_key(k),
        |k: u128| Node { effective_status: effective_status_in(nodes, k), ..nodes[k] },
    )
}

/// Every node's stored effective status is the one that propagation gives.
pub open spec fn effective_consistent(nodes: Map<u128, Node>) -> bool {
    forall|k: u128|
        nodes.contains_key(k) ==> #[trigger] nodes[k].effective_status == effective_status_in(nodes, k)
}

/// Two node maps that hold the same nodes with the same statuses and parents.
pub open spec fn same_links(a: Map<u128, Node>, b: Map<u128, Node>) -> bool {
    &&& a.dom() == b.dom()
    &&& forall|k: u128|
        a.contains_key(k) ==> #[trigger] a[k].status == b[k].status && a[k].parent_node_id
            == b[k].parent_node_id
}

/// Effective statuses depend only on which nodes exist, their statuses and
/// their parents.
pub proof fn lemma_same_links_same_effective(a: Map<u128, Node>, b: Map<u128, Node>)
    requires
        same_links(a, b),
    ensures
        forall|k: u128| #[trigger] effective_status_in(a, k) == effective_status_in(b, k),
{
    assert forall|k: u128| #[trigger] effective_status_in(a, k) == effective_status_in(b, k) by {
        if a.contains_key(k) {
            assert(a[k].status == b[k].status);
            if let Some(p) = a[k].parent_node_id {
                if a.contains_key(p) {
                    assert(a[p].status == b[p].status);
                }
            }
        }
    }
}

/// Propagation only overlays: recomputing effective statuses never changes a
/// node's own status, counters, parent or any other field but the effective
/// status; afterwards every effective status is consistent, and recomputing
/// again changes nothing.
pub proof fn lemma_propagation_only_overlays(nodes: Map<u128, Node>)
    ensures
        same_links(nodes, with_effective(nodes)),
        forall|k: u128|
            nodes.contains_key(k) ==> (#[trigger] with_effective(nodes)[k]) == (Node {
                effective_status: effective_status_in(nodes, k),
                ..nodes[k]
            }),
        effective_consistent(with_effective(nodes)),
        with_effective(with_effective(nodes)) == with_effective(nodes),
{
    let w = with_effective(nodes);
    assert(w.dom() =~= nodes.dom());
    assert(same_links(nodes, w));
    lemma_same_links_same_effective(nodes, w);
    assert(with_effective(w) =~= w);
}

/// Suppression follows the parent: a node's effective status is `Suppressed`
/// exactly when its parent is registered and `Down`; otherwise it is the
/// node's own status. A node's own status is never what propagation changes.
pub proof fn lemma_suppressed_iff_parent_down(nodes: Map<u128, Node>, node_id: u128)
    requires
        nodes.contains_key(node_id),
    ensures
        (effective_status_in(nodes, node_id) == EffectiveStatus::Suppressed) == (nodes[node_id].parent_node_id
            matches Some(p) && nodes.contains_key(p) && nodes[p].status == NodeStatus::Down),
        effective_status_in(nodes, node_id) != EffectiveStatus::Suppressed ==> effective_status_in(
            nodes,
            node_id,
        ) == effective_of(nodes[node_id].status),
        with_effective(nodes)[node_id].status == nodes[node_id].status,
{
}

} // verus!
