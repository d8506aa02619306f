use vigil::api::handlers::{
    id_text, node_from_request, parse_id, poll_from_request, status_code_for, CreateNodeRequest,
    CreatePollRequest,
    NodeResponse, PollResponse, StatusResponse,
};
use vigil::engine::monitor::EngineError;
use vigil::models::node::Node;
use vigil::models::poll::PollProtocol;
use vigil::models::status::{EffectiveStatus, NodeStatus};

#[test]
fn create_node_requires_addresses() {
    let req = CreateNodeRequest {
        name: "r".to_string(),
        addresses: Vec::new(),
        polling_profile: "default".to_string(),
        parent_node_id: None,
        metadata: None,
        tags: None,
    };
    let err = node_from_request(req).unwrap_err();
    assert_eq!(err.error, "addresses must not be empty");
}

#[test]
fn create_node_copies_the_request() {
    let req = CreateNodeRequest {
        name: "test-router".to_string(),
        addresses: vec!["127.0.0.1".to_string()],
        polling_profile: "fast".to_string(),
        parent_node_id: Some(5),
        metadata: None,
        tags: Some(vec!["core".to_string()]),
    };
    let node = node_from_request(req).unwrap().unwrap();
    assert_eq!(node.name, "test-router");
    assert_eq!(node.addresses, vec!["127.0.0.1".to_string()]);
    assert_eq!(node.polling_profile, "fast");
    assert_eq!(node.parent_node_id, Some(5));
    assert_eq!(node.tags, vec!["core".to_string()]);
    assert_eq!(node.status, NodeStatus::Unknown);
}

#[test]
fn create_poll_applies_defaults() {
    let req = CreatePollRequest {
        protocol: PollProtocol::TcpConnect { port: 22 },
        interval_secs: 30,
        timeout_ms: 5000,
        retries: None,
        failure_threshold: None,
        recovery_threshold: Some(2),
    };
    let poll = poll_from_request(9, &req).unwrap();
    assert_eq!(poll.node_id, 9);
    assert_eq!(poll.interval_ms, 30_000);
    assert_eq!(poll.timeout_ms, 5000);
    assert_eq!(poll.retries, 0);
    assert_eq!(poll.failure_threshold, 3);
    assert_eq!(poll.recovery_threshold, 2);
    let resp = PollResponse::from_poll(poll);
    assert_eq!(resp.interval_secs, 30);
    assert_eq!(resp.protocol, PollProtocol::TcpConnect { port: 22 });
    let huge = CreatePollRequest { interval_secs: u64::MAX, ..req };
    let huge_poll = poll_from_request(9, &huge).unwrap();
    assert_eq!(huge_poll.interval_ms, u64::MAX as u128 * 1000);
    assert_eq!(PollResponse::from_poll(huge_poll).interval_secs, u64::MAX);
}

#[test]
fn responses_use_text_statuses() {
    let mut node = Node::new("sw", vec!["10.0.0.1".to_string()]).unwrap();
    node.status = NodeStatus::Down;
    node.effective_status = EffectiveStatus::Suppressed;
    node.consecutive_failures = 4;
    let status = StatusResponse::from_node(&node);
    assert_eq!(status.status, "Down");
    assert_eq!(status.effective_status, "Suppressed");
    assert_eq!(status.consecutive_failures, 4);
    let id = node.id;
    let resp = NodeResponse::from_node(node);
    assert_eq!(resp.id, id);
    assert_eq!(resp.status, "Down");
    assert_eq!(resp.effective_status, "Suppressed");
    assert_eq!(resp.name, "sw");
}

#[test]
fn engine_errors_map_to_http_status() {
    assert_eq!(status_code_for(EngineError::NodeNotFound(1)), 404);
    assert_eq!(status_code_for(EngineError::NoAddress), 500);
}

#[test]
fn ids_are_served_as_uuid_texts() {
    let id = 0xa1a2a3a4_b1b2_c1c2_d1d2_d3d4d5d6d7d8u128;
    assert_eq!(id_text(id), "a1a2a3a4-b1b2-c1c2-d1d2-d3d4d5d6d7d8");
    assert_eq!(parse_id("a1a2a3a4-b1b2-c1c2-d1d2-d3d4d5d6d7d8"), Some(id));
    assert_eq!(parse_id("A1A2A3A4B1B2C1C2D1D2D3D4D5D6D7D8"), Some(id));
    assert_eq!(parse_id("not-a-uuid"), None);
    assert_eq!(parse_id(&id_text(7)), Some(7));
}
