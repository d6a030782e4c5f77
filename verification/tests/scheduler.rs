//! Placement.
use loom::domain::capability::Backend;
use loom::domain::capability::BackendSet;
use loom::domain::capability::IsolationTier;
use loom::domain::capability::MemoryKind;
use loom::domain::capability::MemoryModel;
use loom::domain::capability::Version;
use loom::domain::ids::HostId;
use loom::domain::ids::NodeId;
use loom::domain::job::BackendSelector;
use loom::domain::job::ResourceClaim;
use loom::domain::node::Node;
use loom::domain::node::NodeStatus;
use loom::domain::scheduler::is_feasible;
use loom::domain::scheduler::plan_placement;
use loom::domain::scheduler::resolve_backend;
use loom::domain::scheduler::score;
use loom::domain::scheduler::NodeOffer;
use loom::domain::scheduler::PlacementSignals;
use loom::domain::scheduler::Score;
use loom::domain::scheduler::ScoreWeights;
use loom::domain::time::Timestamp;

fn node(id: &str) -> Node {
    Node {
        id: NodeId::new(id),
        host: HostId::new("h"),
        status: NodeStatus::Available,
        gpu_model: "M3 Max".to_owned(),
        memory: MemoryModel::new(MemoryKind::Unified, 48_000),
        backends: BackendSet::from_backends(&[Backend::Mlx, Backend::Cpu]),
        driver: Version::new(2, 0, 0),
        cuda: None,
        isolation: IsolationTier::B,
        region: "local".to_owned(),
        reliability_milli: 900,
        price_per_sec_micro_usd: 100,
        last_heartbeat_at: Some(Timestamp::from_millis(0)),
    }
}

fn claim() -> ResourceClaim {
    ResourceClaim {
        min_memory_mb: 20_000,
        max_price_per_sec_micro_usd: 1_000,
        backend: BackendSelector::Auto,
        supported_backends: BackendSet::from_backends(&[Backend::Mlx, Backend::Cuda]),
        ..ResourceClaim::default()
    }
}

#[test]
fn auto_resolves_to_highest_priority_shared_backend() {
    let mut n = node("n");
    n.backends = BackendSet::from_backends(&[Backend::Cpu, Backend::Cuda, Backend::Mlx]);
    let c = ResourceClaim {
        supported_backends: BackendSet::from_backends(&[Backend::Cuda, Backend::Cpu]),
        ..claim()
    };
    // Node has mlx too, but the recipe does not support it → cuda wins.
    assert_eq!(resolve_backend(&c, &n), Some(Backend::Cuda));
}

#[test]
fn explicit_backend_requires_the_node_to_advertise_it() {
    let n = node("n"); // advertises [mlx, cpu]
    let mlx = ResourceClaim {
        backend: BackendSelector::Only(Backend::Mlx),
        ..claim()
    };
    let cuda = ResourceClaim {
        backend: BackendSelector::Only(Backend::Cuda),
        ..claim()
    };
    assert_eq!(resolve_backend(&mlx, &n), Some(Backend::Mlx));
    assert_eq!(resolve_backend(&cuda, &n), None);
    assert!(!is_feasible(&cuda, &n));
}

#[test]
fn each_hard_constraint_can_exclude_a_node() {
    let base = claim();

    let mut offline = node("n");
    offline.status = NodeStatus::Leased;
    assert!(!is_feasible(&base, &offline));

    let mut too_small = node("n");
    too_small.memory = MemoryModel::new(MemoryKind::Unified, 10_000);
    assert!(!is_feasible(&base, &too_small));

    let mut too_pricey = node("n");
    too_pricey.price_per_sec_micro_usd = 5_000;
    assert!(!is_feasible(&base, &too_pricey));

    let mut flaky = node("n");
    flaky.reliability_milli = 100;
    let strict = ResourceClaim {
        min_reliability_milli: 500,
        ..claim()
    };
    assert!(!is_feasible(&strict, &flaky));

    let weak_tier = ResourceClaim {
        min_isolation: IsolationTier::A,
        ..claim()
    };
    assert!(!is_feasible(&weak_tier, &node("n"))); // node is Tier B

    let wrong_region = ResourceClaim {
        region_pref: Some("us-east".to_owned()),
        ..claim()
    };
    assert!(!is_feasible(&wrong_region, &node("n"))); // node is "local"

    let old_driver = ResourceClaim {
        min_driver: Some(Version::new(9, 0, 0)),
        ..claim()
    };
    assert!(!is_feasible(&old_driver, &node("n"))); // node driver 2.0.0

    let wrong_model = ResourceClaim {
        gpu_model: Some("RTX 4090".to_owned()),
        ..claim()
    };
    assert!(!is_feasible(&wrong_model, &node("n"))); // node is "M3 Max"

    // CUDA floor: enforced only when the placement resolves to CUDA
    //. Pin the claim to CUDA and give each node a
    // CUDA backend so the floor is what's under test — a node with no CUDA line, and
    // one below the floor, are excluded; a node meeting the floor passes.
    let needs_cuda = ResourceClaim {
        backend: BackendSelector::Only(Backend::Cuda),
        min_cuda: Some(Version::new(12, 0, 0)),
        ..claim()
    };
    let mut no_cuda_line = node("n");
    no_cuda_line.backends = BackendSet::from_backends(&[Backend::Cuda]);
    no_cuda_line.cuda = None;
    assert!(!is_feasible(&needs_cuda, &no_cuda_line)); // CUDA backend but no CUDA line

    let mut old_cuda = node("n");
    old_cuda.backends = BackendSet::from_backends(&[Backend::Cuda]);
    old_cuda.cuda = Some(Version::new(11, 8, 0));
    assert!(!is_feasible(&needs_cuda, &old_cuda)); // CUDA present but below the floor

    let mut ok_cuda = node("n");
    ok_cuda.backends = BackendSet::from_backends(&[Backend::Cuda]);
    ok_cuda.cuda = Some(Version::new(12, 4, 0));
    assert!(is_feasible(&needs_cuda, &ok_cuda)); // meets the CUDA floor

    // The unmodified node passes every floor.
    assert!(is_feasible(&base, &node("n")));
}

#[test]
fn an_mlx_placement_ignores_the_cuda_floor() {
    // An `Auto` claim that resolves to MLX must place even with a CUDA floor set:
    // the floor gates CUDA placements only. The
    // node advertises MLX and no CUDA line at all, yet a `min_cuda` claim still fits.
    let mut mlx_node = node("mlx");
    mlx_node.backends = BackendSet::from_backends(&[Backend::Mlx, Backend::Cpu]);
    mlx_node.cuda = None;
    let c = ResourceClaim {
        backend: BackendSelector::Auto,
        supported_backends: BackendSet::from_backends(&[Backend::Mlx, Backend::Cuda]),
        min_cuda: Some(Version::new(12, 0, 0)),
        ..claim()
    };
    assert_eq!(resolve_backend(&c, &mlx_node), Some(Backend::Mlx));
    assert!(
        is_feasible(&c, &mlx_node),
        "an MLX placement must ignore the CUDA floor"
    );
}

#[test]
fn a_default_claim_is_feasible_on_a_plain_node() {
    // `ResourceClaim::default()` is the no-constraints claim, so it must place on any
    // schedulable node — the manual `Default` exists precisely so this holds (a
    // derived one would be unplaceable). See `job` for the field-level guard.
    assert!(is_feasible(&ResourceClaim::default(), &node("n")));
}

#[test]
fn cache_warm_beats_a_cheaper_cold_node() {
    let weights = ScoreWeights::default();
    let c = claim();

    let mut cheap_cold = node("cold");
    cheap_cold.price_per_sec_micro_usd = 1; // maximal price headroom
    let mut pricey_warm = node("warm");
    pricey_warm.price_per_sec_micro_usd = 900;

    let offers = [
        NodeOffer {
            node: &cheap_cold,
            signals: PlacementSignals::default(),
        },
        NodeOffer {
            node: &pricey_warm,
            signals: PlacementSignals {
                cache_warm: true,
                data_local: false,
            },
        },
    ];
    let Some(pick) = plan_placement(&c, &offers, &weights) else {
        panic!("expected a placement");
    };
    assert_eq!(pick.node.id, NodeId::new("warm"));
    assert_eq!(pick.backend, Backend::Mlx);
}

#[test]
fn ties_break_by_smaller_node_id() {
    let weights = ScoreWeights::default();
    let c = claim();
    // Two identical nodes (same score) with different ids.
    let a = node("aaa");
    let b = node("bbb");
    let offers = [
        NodeOffer {
            node: &b,
            signals: PlacementSignals::default(),
        },
        NodeOffer {
            node: &a,
            signals: PlacementSignals::default(),
        },
    ];
    let Some(pick) = plan_placement(&c, &offers, &weights) else {
        panic!("expected a placement");
    };
    assert_eq!(pick.node.id, NodeId::new("aaa"));
}

#[test]
fn no_feasible_offer_yields_no_placement() {
    let weights = ScoreWeights::default();
    let c = ResourceClaim {
        min_memory_mb: 1_000_000,
        ..claim()
    };
    let n = node("n");
    let offers = [NodeOffer {
        node: &n,
        signals: PlacementSignals::default(),
    }];
    assert!(plan_placement(&c, &offers, &weights).is_none());
    assert!(plan_placement(&c, &[], &weights).is_none());
}

/// Draws numbers for the offers below.
struct Draws(u64);

impl Draws {
    fn below(&mut self, n: u64) -> u64 {
        self.0 = self.0.wrapping_mul(6_364_136_223_846_793_005).wrapping_add(1);
        (self.0 >> 33) % n
    }
}

/// Placement returns the best-scored feasible node, tie-broken by identifier, and
/// nothing exactly when nothing is feasible.
#[test]
fn plan_placement_selects_the_argmax_feasible_node() {
    let claim = ResourceClaim {
        min_memory_mb: 20_000,
        max_price_per_sec_micro_usd: 1_000,
        backend: BackendSelector::Auto,
        supported_backends: BackendSet::from_backends(&[Backend::Cuda]),
        min_cuda: Some(Version::new(12, 0, 0)),
        ..ResourceClaim::default()
    };
    let weights = ScoreWeights::default();
    for seed in 0..200 {
        let mut draws = Draws(seed);
        let mut nodes: Vec<Node> = Vec::new();
        let mut signals: Vec<PlacementSignals> = Vec::new();
        for i in 0..draws.below(24) {
            let mut n = node(&format!("node-{i:04}"));
            if draws.below(2) == 0 {
                n.status = NodeStatus::Leased;
            }
            n.memory = MemoryModel::new(MemoryKind::Discrete, draws.below(80_000));
            n.backends = BackendSet::from_backends(&[Backend::Cuda, Backend::Cpu]);
            n.price_per_sec_micro_usd = draws.below(2_000) as i64;
            n.reliability_milli = draws.below(1_001) as u16;
            n.cuda = match draws.below(5) {
                0 => None,
                major => Some(Version::new(9 + major as u32, 0, 0)),
            };
            nodes.push(n);
            signals.push(PlacementSignals {
                cache_warm: draws.below(2) == 0,
                data_local: draws.below(2) == 0,
            });
        }
        let offers: Vec<NodeOffer> = nodes
            .iter()
            .zip(signals.iter())
            .map(|(node, &signals)| NodeOffer { node, signals })
            .collect();

        let plan = plan_placement(&claim, &offers, &weights);
        let any_feasible = offers.iter().any(|o| is_feasible(&claim, o.node));
        assert_eq!(plan.is_some(), any_feasible);

        if let Some(pick) = plan {
            assert!(is_feasible(&claim, pick.node));
            for offer in &offers {
                if is_feasible(&claim, offer.node) {
                    let other = score(&claim, offer.node, offer.signals, &weights);
                    assert!(pick.score >= other, "winner is not the max score");
                    if other == pick.score {
                        assert!(pick.node.id <= offer.node.id, "tie not broken by min id");
                    }
                }
            }
            // The order of the offers does not matter.
            let mut reversed = offers.clone();
            reversed.reverse();
            let again = plan_placement(&claim, &reversed, &weights).expect("a placement");
            assert_eq!(again.node.id, pick.node.id);
        }
    }
}

#[test]
fn a_score_is_the_weighted_sum() {
    let n = node("n");
    let signals = PlacementSignals { cache_warm: true, data_local: true };
    // 900 of headroom, 900 of reliability, and both bonuses.
    let total = 900 + 900 * 1_000 + 10_000_000 + 1_000_000;
    assert_eq!(score(&claim(), &n, signals, &ScoreWeights::default()), Score(total));
    let mut dear = node("d");
    dear.price_per_sec_micro_usd = 5_000;
    let none = PlacementSignals::default();
    assert_eq!(score(&claim(), &dear, none, &ScoreWeights::default()), Score(900_000));
}
