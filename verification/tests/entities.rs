use ferrisfleet::cluster::{Cluster, K3sCluster, K3sClusterStatus};
use ferrisfleet::error::FleetError;
use ferrisfleet::node::{Node, NodeRole, NodeStatus};

#[test]
fn node_new_starts_provisioning() {
    let n = Node::new("id-1".to_string(), "demo-cp-0".to_string(), NodeRole::ControlPlane);
    assert_eq!(n.id, "id-1");
    assert_eq!(n.name, "demo-cp-0");
    assert_eq!(n.role, NodeRole::ControlPlane);
    assert_eq!(n.status, NodeStatus::Provisioning);
}

#[test]
fn node_mark_ready_and_failed() {
    let mut n = Node::new("a".to_string(), "a".to_string(), NodeRole::Worker);
    n.mark_ready();
    assert_eq!(n.status, NodeStatus::Ready);
    assert_eq!(n.name, "a");
    n.mark_failed();
    assert_eq!(n.status, NodeStatus::Failed);
    assert_eq!(n.role, NodeRole::Worker);
}

#[test]
fn node_clone_is_equal() {
    let n = Node::new("a".to_string(), "b".to_string(), NodeRole::Worker);
    let c = n.clone();
    assert_eq!(c.id, n.id);
    assert_eq!(c.name, n.name);
    assert_eq!(c.role, n.role);
    assert_eq!(c.status, n.status);
}

#[test]
fn cluster_new_is_empty() {
    let c = Cluster::new("cid".to_string(), "demo".to_string());
    assert_eq!(c.id, "cid");
    assert_eq!(c.name, "demo");
    assert!(c.nodes.is_empty());
}

#[test]
fn cluster_add_node_keeps_order() {
    let mut c = Cluster::new("cid".to_string(), "demo".to_string());
    c.add_node(Node::new("x".to_string(), "x".to_string(), NodeRole::ControlPlane));
    c.add_node(Node::new("y".to_string(), "y".to_string(), NodeRole::Worker));
    assert_eq!(c.nodes.len(), 2);
    assert_eq!(c.nodes[0].name, "x");
    assert_eq!(c.nodes[1].name, "y");
    let copy = c.clone();
    assert_eq!(copy.nodes.len(), 2);
    assert_eq!(copy.nodes[1].name, "y");
}

#[test]
fn k3s_cluster_new_is_creating() {
    let c = K3sCluster::new("cid".to_string(), "demo".to_string());
    assert_eq!(c.id, "cid");
    assert_eq!(c.name, "demo");
    assert!(c.control_plane_nodes.is_empty());
    assert!(c.worker_nodes.is_empty());
    assert_eq!(c.status, K3sClusterStatus::Creating);
    assert!(c.kubeconfig.is_none());
    assert!(c.api_endpoint.is_none());
    assert!(!c.is_ready());
}

#[test]
fn k3s_cluster_is_ready_tracks_status() {
    let mut c = K3sCluster::new("cid".to_string(), "demo".to_string());
    c.status = K3sClusterStatus::Ready;
    assert!(c.is_ready());
    c.status = K3sClusterStatus::Updating;
    assert!(!c.is_ready());
}

#[test]
fn fleet_error_carries_message() {
    let e = FleetError::InternalServerError { message: "boom".to_string() };
    assert_eq!(e.message().as_str(), "boom");
    let c = e.clone();
    assert_eq!(c.message().as_str(), "boom");
}
