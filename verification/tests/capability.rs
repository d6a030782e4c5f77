//! Capabilities.
use loom::domain::capability::Backend;
use loom::domain::capability::BackendSet;
use loom::domain::capability::IsolationTier;
use loom::domain::capability::MemoryKind;
use loom::domain::capability::MemoryModel;
use loom::domain::capability::Version;

#[test]
fn backend_priority_order_is_mlx_cuda_cpu_rocm() {
    assert!(Backend::Mlx.priority() < Backend::Cuda.priority());
    assert!(Backend::Cuda.priority() < Backend::Cpu.priority());
    assert!(Backend::Cpu.priority() < Backend::Rocm.priority());
    assert_eq!(Backend::all().len(), 4);
}

#[test]
fn backend_set_membership_and_intersection() {
    let node = BackendSet::from_backends(&[Backend::Mlx, Backend::Cpu]);
    assert!(node.contains(Backend::Mlx));
    assert!(node.contains(Backend::Cpu));
    assert!(!node.contains(Backend::Cuda));
    assert!(!node.is_empty());
    assert!(BackendSet::empty().is_empty());

    let recipe = BackendSet::from_backends(&[Backend::Cuda, Backend::Cpu]);
    let common = node.intersect(recipe);
    assert!(common.contains(Backend::Cpu));
    assert!(!common.contains(Backend::Mlx));
}

#[test]
fn best_by_priority_picks_highest_priority_member() {
    let set = BackendSet::from_backends(&[Backend::Cpu, Backend::Cuda]);
    assert_eq!(set.best_by_priority(), Some(Backend::Cuda));
    assert_eq!(BackendSet::empty().best_by_priority(), None);
}

#[test]
fn backend_set_iterates_in_priority_order() {
    let set = BackendSet::from_backends(&[Backend::Rocm, Backend::Mlx, Backend::Cpu]);
    let collected: Vec<Backend> = set.iter();
    assert_eq!(collected, vec![Backend::Mlx, Backend::Cpu, Backend::Rocm]);
}

#[test]
fn isolation_tiers_order_weakest_to_strongest() {
    assert!(IsolationTier::B < IsolationTier::A);
    assert!(IsolationTier::A < IsolationTier::C);
    assert!(IsolationTier::A.satisfies(IsolationTier::B));
    assert!(!IsolationTier::B.satisfies(IsolationTier::A));
    assert!(IsolationTier::C.satisfies(IsolationTier::C));
}

#[test]
fn versions_compare_component_wise() {
    assert!(Version::new(1, 2, 3) < Version::new(1, 3, 0));
    assert!(Version::new(2, 0, 0) > Version::new(1, 9, 9));
    assert_eq!(Version::new(525, 60, 13).to_string(), "525.60.13");
}

#[test]
fn memory_model_reports_size() {
    let unified = MemoryModel::new(MemoryKind::Unified, 48_000);
    assert_eq!(unified.size_mb(), 48_000);
    assert_eq!(unified.kind, MemoryKind::Unified);
}

#[test]
fn capabilities_are_shown_in_words() {
    let names: Vec<String> = Backend::all().iter().map(|b| b.to_string()).collect();
    assert_eq!(names, ["mlx", "cuda", "cpu", "rocm"]);
    assert!(BackendSet::default().with(Backend::Rocm).contains(Backend::Rocm));
    assert!(Version::new(1, 2, 3).at_least(Version::new(1, 2, 3)));
    assert!(!Version::new(1, 2, 3).at_least(Version::new(1, 2, 4)));
    assert_eq!(MemoryModel::default().size_mb(), 0);
    assert_eq!(IsolationTier::default(), IsolationTier::B);
}

#[test]
fn sets_are_equal_by_their_members() {
    let a = BackendSet::from_backends(&[Backend::Cpu, Backend::Mlx]);
    let b = BackendSet::empty().with(Backend::Mlx).with(Backend::Cpu).with(Backend::Mlx);
    assert_eq!(a, b);
    assert_ne!(a, b.with(Backend::Rocm));
    assert_eq!(a.intersect(BackendSet::empty()), BackendSet::empty());
}

#[test]
fn a_set_is_shown_by_its_members() {
    assert_eq!(BackendSet::empty().shown(), "{}");
    assert_eq!(BackendSet::empty().with(Backend::Rocm).shown(), "{Rocm}");
    let set = BackendSet::from_backends(&[Backend::Cpu, Backend::Cuda, Backend::Mlx]);
    assert_eq!(set.shown(), "{Mlx, Cuda, Cpu}");
}
