use ferrisfleet::node::{Node, NodeRole, NodeStatus};
use ferrisfleet::ports::ClusterService;
use ferrisfleet::scripted::ScriptedProvider;
use ferrisfleet::services::FerrisFleetService;

fn always_succeeding() -> ScriptedProvider {
    ScriptedProvider::new(Vec::new(), Vec::new(), "192.168.64.2".to_string())
}

#[test]
fn create_cluster_one_cp_two_workers() {
    let mut service = FerrisFleetService::new(always_succeeding());
    let cluster = service.create_cluster("demo", 1, 2).expect("all calls succeed");
    assert_eq!(cluster.name, "demo");
    assert_eq!(cluster.id.len(), 36);
    assert_eq!(cluster.nodes.len(), 3);
    assert_eq!(cluster.nodes[0].name, "demo-cp-0");
    assert_eq!(cluster.nodes[0].role, NodeRole::ControlPlane);
    assert_eq!(cluster.nodes[1].name, "demo-worker-0");
    assert_eq!(cluster.nodes[1].role, NodeRole::Worker);
    assert_eq!(cluster.nodes[2].name, "demo-worker-1");
    assert_eq!(cluster.nodes[2].role, NodeRole::Worker);
    for node in &cluster.nodes {
        assert_eq!(node.status, NodeStatus::Provisioning);
    }
    assert_eq!(service.iaas_repository.call_count(), 3);
}

#[test]
fn create_cluster_empty_counts() {
    let mut service = FerrisFleetService::new(always_succeeding());
    let cluster = service.create_cluster("demo", 0, 0).expect("no calls needed");
    assert_eq!(cluster.nodes.len(), 0);
    assert_eq!(service.iaas_repository.call_count(), 0);
}

#[test]
fn create_cluster_control_planes_before_workers() {
    let mut service = FerrisFleetService::new(always_succeeding());
    let cluster = service.create_cluster("fleet", 2, 2).expect("all calls succeed");
    let names: Vec<&str> = cluster.nodes.iter().map(|n| n.name.as_str()).collect();
    assert_eq!(names, vec!["fleet-cp-0", "fleet-cp-1", "fleet-worker-0", "fleet-worker-1"]);
    for (i, node) in cluster.nodes.iter().enumerate() {
        let expected = if i < 2 { NodeRole::ControlPlane } else { NodeRole::Worker };
        assert_eq!(node.role, expected);
    }
    let recorded: Vec<&str> =
        service.iaas_repository.calls.iter().map(|c| c.name.as_str()).collect();
    assert_eq!(recorded, vec!["fleet-cp-0", "fleet-cp-1", "fleet-worker-0", "fleet-worker-1"]);
}

#[test]
fn create_cluster_stops_at_second_failure() {
    let provider = ScriptedProvider::new(
        vec![None, Some("quota exceeded".to_string())],
        Vec::new(),
        "192.168.64.2".to_string(),
    );
    let mut service = FerrisFleetService::new(provider);
    let err = service.create_cluster("demo", 2, 0).expect_err("second call fails");
    assert!(err.message().contains("quota exceeded"));
    assert_eq!(service.iaas_repository.call_count(), 2);
}

#[test]
fn create_cluster_stops_at_first_failure() {
    let provider = ScriptedProvider::new(
        vec![Some("no space".to_string())],
        Vec::new(),
        "192.168.64.2".to_string(),
    );
    let mut service = FerrisFleetService::new(provider);
    let err = service.create_cluster("demo", 3, 4).expect_err("first call fails");
    assert_eq!(err.message().as_str(), "no space");
    assert_eq!(service.iaas_repository.call_count(), 1);
}

#[test]
fn list_vms_returns_backend_listing_unmodified() {
    let listed = vec![
        Node::new("1".to_string(), "demo-cp-0".to_string(), NodeRole::ControlPlane),
        Node::new("2".to_string(), "demo-worker-0".to_string(), NodeRole::Worker),
    ];
    let provider = ScriptedProvider::new(Vec::new(), listed, "192.168.64.2".to_string());
    let mut service = FerrisFleetService::new(provider);
    let nodes = service.list_vms().expect("listing succeeds");
    assert_eq!(nodes.len(), 2);
    assert_eq!(nodes[0].name, "demo-cp-0");
    assert_eq!(nodes[1].name, "demo-worker-0");
    assert_eq!(service.iaas_repository.call_count(), 0);
}

#[test]
fn cluster_ids_are_uuid_shaped() {
    let mut service = FerrisFleetService::new(always_succeeding());
    let a = service.create_cluster("a", 0, 0).expect("no calls needed");
    let b = service.create_cluster("b", 0, 0).expect("no calls needed");
    assert_eq!(a.id.len(), 36);
    assert_eq!(b.id.len(), 36);
    assert_eq!(a.id.matches('-').count(), 4);
    assert_ne!(a.id, b.id);
}
