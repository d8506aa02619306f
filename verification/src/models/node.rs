use std::collections::HashMap;
use vstd::prelude::*;

use super::ident::{is_random_uuid, new_random_id};
use super::status::{EffectiveStatus, NodeStatus};

verus! {

/// A monitored network node (a device or a service).
///
/// Identifiers are the 128-bit values of UUIDs.
#[derive(Debug, Clone)]
pub struct Node {
    /// Unique identifier for the node
    pub id: u128,
    /// Human-readable name
    pub name: String,
    /// IP addresses or hostnames to poll
    pub addresses: Vec<String>,
    /// Reference to polling configuration profile
    pub polling_profile: String,
    /// Current status based on poll results
    pub status: NodeStatus,
    /// Effective status including dependency propagation
    pub effective_status: EffectiveStatus,
    /// Optional parent node for dependency propagation (single uplink)
    pub parent_node_id: Option<u128>,
    /// Optional arbitrary metadata
    pub metadata: Option<HashMap<String, String>>,
    /// Tags for categorization/filtering
    pub tags: Vec<String>,
    /// Counter for consecutive poll failures
    pub consecutive_failures: u32,
    /// Counter for consecutive poll successes
    pub consecutive_successes: u32,
}

impl Node {
    /// Create a new node with default values: a fresh random (version 4) id, the
    /// `"default"` polling profile, status `Unknown`, no parent, no metadata,
    /// no tags and zero counters. `None` when no random id can be drawn (the
    /// operating system's random source failed).
    pub fn new(name: &str, addresses: Vec<String>) -> (r: Option<Self>)
        ensures
            r matches Some(node) ==> {
                &&& is_random_uuid(node.id)
                &&& node.name@ == name@
                &&& node.addresses@ == addresses@
                &&& node.polling_profile@ == "default"@
                &&& node.status == NodeStatus::Unknown
                &&& node.effective_status == EffectiveStatus::Unknown
                &&& node.parent_node_id is None
                &&& node.metadata is None
                &&& node.tags@.len() == 0
                &&& node.consecutive_failures == 0
                &&& node.consecutive_successes == 0
            },
    {
        broadcast use vstd::string::group_string_axioms;
        let id = match new_random_id() {
            Some(id) => id,
            None => return None,
        };
        Some(
            Node {
                id,
                name: name.to_string(),
                addresses,
                polling_profile: "default".to_string(),
                status: NodeStatus::Unknown,
                effective_status: EffectiveStatus::Unknown,
                parent_node_id: None,
                metadata: None,
                tags: Vec::new(),
                consecutive_failures: 0,
                consecutive_successes: 0,
            },
        )
    }
}

} // verus!
