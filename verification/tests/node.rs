//! Nodes.
use loom::domain::capability::Backend;
use loom::domain::capability::BackendSet;
use loom::domain::capability::IsolationTier;
use loom::domain::capability::MemoryKind;
use loom::domain::capability::MemoryModel;
use loom::domain::capability::Version;
use loom::domain::ids::HostId;
use loom::domain::ids::NodeId;
use loom::domain::node::Node;
use loom::domain::node::NodeStatus;
use loom::domain::time::Timestamp;

fn m3_max() -> Node {
    Node {
        id: NodeId::new("node-m3"),
        host: HostId::new("host-founder"),
        status: NodeStatus::Available,
        gpu_model: "M3 Max".to_owned(),
        memory: MemoryModel::new(MemoryKind::Unified, 48_000),
        backends: BackendSet::from_backends(&[Backend::Mlx, Backend::Cpu]),
        driver: Version::new(1, 0, 0),
        cuda: None,
        isolation: IsolationTier::B,
        region: "local".to_owned(),
        reliability_milli: 900,
        price_per_sec_micro_usd: 0,
        last_heartbeat_at: Some(Timestamp::from_millis(1_000)),
    }
}

#[test]
fn only_available_nodes_are_schedulable() {
    assert!(NodeStatus::Available.is_schedulable());
    assert!(!NodeStatus::Offline.is_schedulable());
    assert!(!NodeStatus::Leased.is_schedulable());
    assert!(!NodeStatus::Draining.is_schedulable());
    assert!(!NodeStatus::OwnerEjected.is_schedulable());
}

#[test]
fn node_advertises_its_capability_tuple() {
    let node = m3_max();
    assert!(node.backends.contains(Backend::Mlx));
    assert_eq!(node.memory.kind, MemoryKind::Unified);
    assert_eq!(node.memory.size_mb(), 48_000);
    assert!(node.status.is_schedulable());
}
