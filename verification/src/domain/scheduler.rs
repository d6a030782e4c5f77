//! The scheduler's decision logic: filter, score, select.
//!
//! The hard-constraint filter, the soft-preference score and the choice of a
//! winner are functions of their inputs alone. Scoring is integer arithmetic,
//! never floating point: placement must be reproducible.
use crate::domain::capability::IsolationTier;
use crate::domain::capability::Version;
use crate::domain::capability::best;
use crate::domain::capability::Backend;
use crate::domain::job::BackendSelector;
use crate::domain::job::ResourceClaim;
use crate::domain::node::Node;
use crate::domain::node::NodeStatus;
use crate::number::clamp_i64;
use crate::number::saturate;
use crate::text::less;
use crate::text::same;
use crate::text::text_less;
use crate::text::text_less_total;
use vstd::prelude::*;

verus! {

/// Soft-preference signals of a job on a node that the node itself does not
/// carry.
#[derive(Debug, Clone, Copy, PartialEq, Eq, Structural)]
pub struct PlacementSignals {
    /// The node already holds the required weights or image.
    pub cache_warm: bool,
    /// The node is close to the job's input data or checkpoint store.
    pub data_local: bool,
}

impl Default for PlacementSignals {
    fn default() -> (s: Self)
        ensures
            s == (PlacementSignals { cache_warm: false, data_local: false }),
    {
        PlacementSignals { cache_warm: false, data_local: false }
    }
}

/// Integer weights of the soft-preference score.
#[derive(Debug, Clone, Copy, PartialEq, Eq, Structural)]
pub struct ScoreWeights {
    /// Weight per micro-USD of price headroom under the ceiling.
    pub price: i64,
    /// Weight per thousandth of reliability.
    pub reliability: i64,
    /// Flat bonus when the node is cache-warm.
    pub cache_warm: i64,
    /// Flat bonus when the node is data-local.
    pub data_local: i64,
}

impl Default for ScoreWeights {
    /// Cache locality dominates, then data affinity, then reliability, then
    /// price headroom.
    fn default() -> (w: Self)
        ensures
            w == default_weights(),
    {
        ScoreWeights {
            price: 1,
            reliability: 1_000,
            cache_warm: 10_000_000,
            data_local: 1_000_000,
        }
    }
}

/// The default weights.
pub open spec fn default_weights() -> ScoreWeights {
    ScoreWeights { price: 1, reliability: 1_000, cache_warm: 10_000_000, data_local: 1_000_000 }
}

/// A placement score. Higher is better.
#[derive(Debug, Clone, Copy, PartialEq, Eq, PartialOrd, Ord, Structural)]
pub struct Score(pub i128);

/// A node under consideration for a job, with its soft-preference signals.
#[derive(Debug, Clone, Copy)]
pub struct NodeOffer<'a> {
    /// The candidate node.
    pub node: &'a Node,
    /// The signals feeding the score.
    pub signals: PlacementSignals,
}

/// The scheduler's selection: which node won, which backend it runs, its score.
#[derive(Debug, Clone, Copy, PartialEq, Eq)]
pub struct Placement<'a> {
    /// The winning node.
    pub node: &'a Node,
    /// The backend that the job resolves to on this node.
    pub backend: Backend,
    /// The winning score.
    pub score: Score,
}

/// The backend that a job would use on a node: the pinned one where the node has
/// it, else the best that both the recipe and the node support.
pub open spec fn resolved(claim: ResourceClaim, node: Node) -> Option<Backend> {
    match claim.backend {
        BackendSelector::Only(b) => if node.backends@.contains(b) {
            Some(b)
        } else {
            None
        },
        BackendSelector::Auto => best(claim.supported_backends@.intersect(node.backends@)),
    }
}

/// Whether a node meets every floor of a claim when it runs `backend`. The CUDA
/// floor gates CUDA placements only.
pub open spec fn meets_floors(claim: ResourceClaim, node: Node, backend: Backend) -> bool {
    &&& node.status == NodeStatus::Available
    &&& node.memory.size_mb >= claim.min_memory_mb
    &&& (claim.gpu_model is Some ==> node.gpu_model@ == claim.gpu_model->0@)
    &&& (claim.min_driver is Some ==> node.driver.reaches(claim.min_driver->0))
    &&& (backend == Backend::Cuda && claim.min_cuda is Some ==> node.cuda is Some
        && node.cuda->0.reaches(claim.min_cuda->0))
    &&& node.isolation.strength() >= claim.min_isolation.strength()
    &&& (claim.region_pref is Some ==> node.region@ == claim.region_pref->0@)
    &&& node.reliability_milli >= claim.min_reliability_milli
    &&& node.price_per_sec_micro_usd <= claim.max_price_per_sec_micro_usd
}

/// Whether a node can run the job: some backend resolves, and every floor is met.
pub open spec fn feasible(claim: ResourceClaim, node: Node) -> bool {
    match resolved(claim, node) {
        Some(backend) => meets_floors(claim, node, backend),
        None => false,
    }
}

/// Price headroom under the ceiling, never negative.
pub open spec fn headroom(claim: ResourceClaim, node: Node) -> int {
    let h = clamp_i64(claim.max_price_per_sec_micro_usd - node.price_per_sec_micro_usd);
    if h < 0 {
        0
    } else {
        h
    }
}

/// The soft-preference score of a node.
pub open spec fn score_of(
    claim: ResourceClaim,
    node: Node,
    signals: PlacementSignals,
    weights: ScoreWeights,
) -> int {
    headroom(claim, node) * weights.price + node.reliability_milli * weights.reliability + (
    if signals.cache_warm {
        weights.cache_warm as int
    } else {
        0
    }) + (if signals.data_local {
        weights.data_local as int
    } else {
        0
    })
}

/// Whether offer `x` is preferred over offer `y`: a higher score, or the same
/// score and a smaller node identifier.
pub open spec fn preferred(
    claim: ResourceClaim,
    weights: ScoreWeights,
    x: NodeOffer,
    y: NodeOffer,
) -> bool {
    let sx = score_of(claim, *x.node, x.signals, weights);
    let sy = score_of(claim, *y.node, y.signals, weights);
    sx > sy || (sx == sy && text_less(x.node.id@, y.node.id@))
}

/// Whether offer `i` is the winner among the first `n`: it is feasible, it is
/// preferred over every feasible offer before it, and no feasible offer after it
/// is preferred over it.
pub open spec fn wins(
    claim: ResourceClaim,
    offers: Seq<NodeOffer>,
    weights: ScoreWeights,
    n: int,
    i: int,
) -> bool {
    &&& 0 <= i < n
    &&& feasible(claim, *offers[i].node)
    &&& forall|j: int|
        0 <= j < i && feasible(claim, *(#[trigger] offers[j]).node) ==> preferred(
            claim,
            weights,
            offers[i],
            offers[j],
        )
    &&& forall|j: int|
        i < j < n && feasible(claim, *(#[trigger] offers[j]).node) ==> !preferred(
            claim,
            weights,
            offers[j],
            offers[i],
        )
}

/// Resolves which backend a job would use on a node, or `None` where no backend
/// is viable on it.
#[must_use]
pub fn resolve_backend(claim: &ResourceClaim, node: &Node) -> (r: Option<Backend>)
    ensures
        r == resolved(*claim, *node),
{
    match claim.backend {
        BackendSelector::Only(backend) => if node.backends.contains(backend) {
            Some(backend)
        } else {
            None
        },
        BackendSelector::Auto => claim.supported_backends.intersect(
            node.backends,
        ).best_by_priority(),
    }
}

/// The hard-constraint filter: a node is feasible only if it is available, can
/// run a viable backend and meets every resource floor.
#[must_use]
pub fn is_feasible(claim: &ResourceClaim, node: &Node) -> (r: bool)
    ensures
        r == feasible(*claim, *node),
{
    match resolve_backend(claim, node) {
        Some(backend) => is_feasible_with(claim, node, backend),
        None => false,
    }
}

/// The resource-floor half of [`is_feasible`], for a backend already resolved.
fn is_feasible_with(claim: &ResourceClaim, node: &Node, backend: Backend) -> (r: bool)
    ensures
        r == meets_floors(*claim, *node, backend),
{
    let model_ok: bool = match &claim.gpu_model {
        Some(model) => same(node.gpu_model.as_str(), model.as_str()),
        None => true,
    };
    let driver_ok: bool = match claim.min_driver {
        Some(floor) => node.driver.at_least(floor),
        None => true,
    };
    let cuda_ok: bool = match (backend, claim.min_cuda) {
        (Backend::Cuda, Some(floor)) => match node.cuda {
            Some(have) => have.at_least(floor),
            None => false,
        },
        _ => true,
    };
    let region_ok: bool = match &claim.region_pref {
        Some(region) => same(node.region.as_str(), region.as_str()),
        None => true,
    };
    node.status.is_schedulable() && node.memory.size_mb() >= claim.min_memory_mb && model_ok
        && driver_ok && cuda_ok && node.isolation.satisfies(claim.min_isolation) && region_ok
        && node.reliability_milli >= claim.min_reliability_milli && node.price_per_sec_micro_usd
        <= claim.max_price_per_sec_micro_usd
}

/// The soft-preference score for a node.
#[must_use]
pub fn score(
    claim: &ResourceClaim,
    node: &Node,
    signals: PlacementSignals,
    weights: &ScoreWeights,
) -> (s: Score)
    ensures
        s.0 == score_of(*claim, *node, signals, *weights),
{
    let difference: i64 = saturate(
        claim.max_price_per_sec_micro_usd as i128 - node.price_per_sec_micro_usd as i128,
    );
    let room: i64 = if difference < 0 {
        0
    } else {
        difference
    };
    let reliability: u16 = node.reliability_milli;
    let wp: i64 = weights.price;
    let wr: i64 = weights.reliability;
    proof {
        assert(-0x8000_0000_0000_0000 * 0x8000_0000_0000_0000 <= room * wp <= 0x8000_0000_0000_0000
            * 0x8000_0000_0000_0000) by (nonlinear_arith)
            requires
                0 <= room <= 0x8000_0000_0000_0000,
                -0x8000_0000_0000_0000 <= wp <= 0x8000_0000_0000_0000,
        ;
        assert(-0x1_0000 * 0x8000_0000_0000_0000 <= reliability * wr <= 0x1_0000
            * 0x8000_0000_0000_0000) by (nonlinear_arith)
            requires
                0 <= reliability <= 0x1_0000,
                -0x8000_0000_0000_0000 <= wr <= 0x8000_0000_0000_0000,
        ;
    }
    let mut total: i128 = 0;
    total = total + room as i128 * wp as i128;
    total = total + reliability as i128 * wr as i128;
    if signals.cache_warm {
        total = total + weights.cache_warm as i128;
    }
    if signals.data_local {
        total = total + weights.data_local as i128;
    }
    Score(total)
}

/// Filters, scores and selects over `offers`, returning the best placement.
///
/// Ties on score break by the smaller node identifier, so the choice never
/// depends on input order. `None` where no offer is feasible.
#[must_use]
pub fn plan_placement<'a>(
    claim: &ResourceClaim,
    offers: &[NodeOffer<'a>],
    weights: &ScoreWeights,
) -> (r: Option<Placement<'a>>)
    ensures
        match r {
            Some(p) => exists|i: int|
                {
                    &&& #[trigger] wins(*claim, offers@, *weights, offers@.len() as int, i)
                    &&& p.node == offers@[i].node
                    &&& Some(p.backend) == resolved(*claim, *offers@[i].node)
                    &&& p.score.0 == score_of(
                        *claim,
                        *offers@[i].node,
                        offers@[i].signals,
                        *weights,
                    )
                },
            None => forall|j: int|
                0 <= j < offers@.len() ==> !feasible(*claim, *(#[trigger] offers@[j]).node),
        },
{
    let mut winner: Option<Placement<'a>> = None;
    let mut i: usize = 0;
    let ghost mut at: int = 0;
    while i < offers.len()
        invariant
            i <= offers@.len(),
            match winner {
                Some(p) => {
                    &&& wins(*claim, offers@, *weights, i as int, at)
                    &&& p.node == offers@[at].node
                    &&& Some(p.backend) == resolved(*claim, *offers@[at].node)
                    &&& p.score.0 == score_of(
                        *claim,
                        *offers@[at].node,
                        offers@[at].signals,
                        *weights,
                    )
                },
                None => forall|j: int|
                    0 <= j < i ==> !feasible(*claim, *(#[trigger] offers@[j]).node),
            },
        decreases offers@.len() - i,
    {
        let offer = offers[i];
        match resolve_backend(claim, offer.node) {
            None => {},
            Some(backend) => {
                if is_feasible_with(claim, offer.node, backend) {
                    let candidate = Placement {
                        node: offer.node,
                        backend,
                        score: score(claim, offer.node, offer.signals, weights),
                    };
                    let takes: bool = match &winner {
                        None => true,
                        Some(current) => candidate.score.0 > current.score.0 || (candidate.score.0
                            == current.score.0 && less(
                            candidate.node.id.as_str(),
                            current.node.id.as_str(),
                        )),
                    };
                    if takes {
                        proof {
                            if winner is Some {
                                assert forall|j: int|
                                    0 <= j < i && feasible(
                                        *claim,
                                        *(#[trigger] offers@[j]).node,
                                    ) implies preferred(
                                    *claim,
                                    *weights,
                                    offers@[i as int],
                                    offers@[j],
                                ) by {
                                    preference_chains(
                                        *claim,
                                        *weights,
                                        offers@[i as int],
                                        offers@[at],
                                        offers@[j],
                                    );
                                    if j == at {
                                    } else if j < at {
                                        assert(preferred(*claim, *weights, offers@[at], offers@[j]));
                                    }
                                }
                            }
                            at = i as int;
                        }
                        winner = Some(candidate);
                    }
                }
            },
        }
        i = i + 1;
    }
    winner
}

/// An offer preferred over a second that is not beaten by a third is preferred
/// over the third.
proof fn preference_chains(
    claim: ResourceClaim,
    weights: ScoreWeights,
    x: NodeOffer,
    y: NodeOffer,
    z: NodeOffer,
)
    requires
        preferred(claim, weights, x, y),
    ensures
        preferred(claim, weights, y, z) || !preferred(claim, weights, z, y) ==> preferred(
            claim,
            weights,
            x,
            z,
        ),
{
    text_less_total(y.node.id@, z.node.id@);
    if text_less(x.node.id@, y.node.id@) && text_less(y.node.id@, z.node.id@) {
        crate::text::text_less_transitive(x.node.id@, y.node.id@, z.node.id@);
    }
}

/// No offer is preferred over the winner, and the winner is the only offer of
/// its score and identifier up to repetition: every feasible offer scores less,
/// or scores the same and has the winner's identifier or a greater one.
pub proof fn the_winner_is_the_best_feasible_offer(
    claim: ResourceClaim,
    offers: Seq<NodeOffer>,
    weights: ScoreWeights,
    i: int,
    j: int,
)
    requires
        wins(claim, offers, weights, offers.len() as int, i),
        0 <= j < offers.len(),
        feasible(claim, *offers[j].node),
    ensures
        ({
            let top = score_of(claim, *offers[i].node, offers[i].signals, weights);
            let other = score_of(claim, *offers[j].node, offers[j].signals, weights);
            &&& other <= top
            &&& other == top ==> offers[i].node.id@ == offers[j].node.id@ || text_less(
                offers[i].node.id@,
                offers[j].node.id@,
            )
        }),
{
    text_less_total(offers[i].node.id@, offers[j].node.id@);
    if j < i {
        assert(preferred(claim, weights, offers[i], offers[j]));
    } else if j > i {
        assert(!preferred(claim, weights, offers[j], offers[i]));
    }
}

/// The choice does not depend on the order of the offers: two lists that hold
/// the same offers have winners of the same score and the same node identifier.
pub proof fn the_choice_ignores_input_order(
    claim: ResourceClaim,
    xs: Seq<NodeOffer>,
    ys: Seq<NodeOffer>,
    weights: ScoreWeights,
    i: int,
    k: int,
)
    requires
        xs.to_multiset() == ys.to_multiset(),
        wins(claim, xs, weights, xs.len() as int, i),
        wins(claim, ys, weights, ys.len() as int, k),
    ensures
        xs[i].node.id@ == ys[k].node.id@,
        score_of(claim, *xs[i].node, xs[i].signals, weights) == score_of(
            claim,
            *ys[k].node,
            ys[k].signals,
            weights,
        ),
{
    broadcast use vstd::seq_lib::group_to_multiset_ensures;

    assert(ys.to_multiset().count(ys[k]) > 0) by {
        assert(ys.contains(ys[k]));
    }
    assert(xs.contains(ys[k]));
    let j = choose|j: int| 0 <= j < xs.len() && xs[j] == ys[k];
    assert(xs.to_multiset().count(xs[i]) > 0) by {
        assert(xs.contains(xs[i]));
    }
    assert(ys.contains(xs[i]));
    let m = choose|m: int| 0 <= m < ys.len() && ys[m] == xs[i];
    the_winner_is_the_best_feasible_offer(claim, xs, weights, i, j);
    the_winner_is_the_best_feasible_offer(claim, ys, weights, k, m);
    if xs[i].node.id@ != ys[k].node.id@ {
        crate::text::text_less_transitive(xs[i].node.id@, ys[k].node.id@, xs[i].node.id@);
        crate::text::text_less_irreflexive(xs[i].node.id@);
    }
}

/// The claim that constrains nothing is feasible on every available node that
/// advertises a backend.
pub proof fn an_unconstrained_claim_fits_any_available_node(
    claim: ResourceClaim,
    node: Node,
    b: Backend,
)
    requires
        claim.is_unconstrained(),
        node.status == NodeStatus::Available,
        node.backends@.contains(b),
    ensures
        feasible(claim, node),
{
    let both = claim.supported_backends@.intersect(node.backends@);
    assert(both.contains(b));
    crate::domain::capability::best_is_the_highest_priority_member(both, b);
}

/// Under the default weights a cache-warm node beats any cold one that is not
/// ahead by more than the whole cache bonus in price headroom, reliability and
/// data locality together.
pub proof fn cache_locality_dominates(
    claim: ResourceClaim,
    warm: Node,
    cold: Node,
    near: bool,
    far: bool,
)
    requires
        headroom(claim, cold) - headroom(claim, warm) + 1000 * (cold.reliability_milli
            - warm.reliability_milli) + 1_000_000 < 10_000_000,
    ensures
        score_of(
            claim,
            warm,
            PlacementSignals { cache_warm: true, data_local: near },
            default_weights(),
        ) > score_of(
            claim,
            cold,
            PlacementSignals { cache_warm: false, data_local: far },
            default_weights(),
        ),
{
    let w = default_weights();
    assert(headroom(claim, warm) * w.price == headroom(claim, warm)) by (nonlinear_arith)
        requires
            w.price == 1,
    ;
    assert(headroom(claim, cold) * w.price == headroom(claim, cold)) by (nonlinear_arith)
        requires
            w.price == 1,
    ;
    assert(warm.reliability_milli * w.reliability == 1000 * warm.reliability_milli)
        by (nonlinear_arith)
        requires
            w.reliability == 1000,
    ;
    assert(cold.reliability_milli * w.reliability == 1000 * cold.reliability_milli)
        by (nonlinear_arith)
        requires
            w.reliability == 1000,
    ;
}

/// A node's region alone answers a region preference: with one added, a claim is feasible
/// exactly where it is without one and the preference is the node's region.
pub proof fn the_region_answers_a_region_preference(
    claim: ResourceClaim,
    node: Node,
    region: String,
    with: bool,
    without: bool,
)
    requires
        call_ensures(
            is_feasible,
            (&ResourceClaim { region_pref: Some(region), ..claim }, &node),
            with,
        ),
        call_ensures(is_feasible, (&ResourceClaim { region_pref: None, ..claim }, &node), without),
    ensures
        with <==> without && node.region@ == region@,
{
}

/// Changing a node's GPU model changes what is feasible on it only for claims that name
/// one, whatever else they ask.
pub proof fn the_model_matters_only_where_it_is_named(
    claim: ResourceClaim,
    node: Node,
    model: String,
    r: bool,
    s: bool,
)
    requires
        claim.gpu_model is None,
        call_ensures(is_feasible, (&claim, &node), r),
        call_ensures(is_feasible, (&claim, &Node { gpu_model: model, ..node }), s),
    ensures
        r == s,
{
}

/// A node's GPU model alone answers a model requirement.
pub proof fn the_model_answers_a_model_requirement(
    claim: ResourceClaim,
    node: Node,
    model: String,
)
    ensures
        feasible(ResourceClaim { gpu_model: Some(model), ..claim }, node) <==> feasible(
            ResourceClaim { gpu_model: None, ..claim },
            node,
        ) && node.gpu_model@ == model@,
{
}

/// A node's driver alone answers a driver floor.
pub proof fn the_driver_answers_a_driver_floor(claim: ResourceClaim, node: Node, floor: Version)
    ensures
        feasible(ResourceClaim { min_driver: Some(floor), ..claim }, node) <==> feasible(
            ResourceClaim { min_driver: None, ..claim },
            node,
        ) && node.driver.reaches(floor),
{
}

/// A CUDA floor is answered by the node's CUDA line, and is asked of CUDA placements
/// alone.
pub proof fn the_cuda_line_answers_a_cuda_floor(claim: ResourceClaim, node: Node, floor: Version)
    ensures
        ({
            let with = feasible(ResourceClaim { min_cuda: Some(floor), ..claim }, node);
            let without = feasible(ResourceClaim { min_cuda: None, ..claim }, node);
            if resolved(claim, node) == Some(Backend::Cuda) {
                with <==> without && node.cuda is Some && node.cuda->0.reaches(floor)
            } else {
                with <==> without
            }
        }),
{
}

/// The numeric floors and the price ceiling are each answered by one field of the node,
/// the bound itself included.
pub proof fn each_bound_is_answered_by_its_field(
    claim: ResourceClaim,
    node: Node,
    memory: u64,
    reliability: u16,
    price: i64,
    tier: IsolationTier,
)
    ensures
        feasible(ResourceClaim { min_memory_mb: memory, ..claim }, node) <==> feasible(
            ResourceClaim { min_memory_mb: 0, ..claim },
            node,
        ) && memory <= node.memory.size_mb,
        feasible(ResourceClaim { min_reliability_milli: reliability, ..claim }, node) <==> feasible(
            ResourceClaim { min_reliability_milli: 0, ..claim },
            node,
        ) && reliability <= node.reliability_milli,
        feasible(ResourceClaim { max_price_per_sec_micro_usd: price, ..claim }, node)
            <==> feasible(
            ResourceClaim { max_price_per_sec_micro_usd: i64::MAX, ..claim },
            node,
        ) && node.price_per_sec_micro_usd <= price,
        feasible(ResourceClaim { min_isolation: tier, ..claim }, node) <==> feasible(
            ResourceClaim { min_isolation: IsolationTier::B, ..claim },
            node,
        ) && tier.strength() <= node.isolation.strength(),
{
}

/// Only an available node is feasible, for any claim; and what a claim does not ask about
/// does not matter, nor do a node's identifier, host, last heartbeat and kind of memory.
pub proof fn what_is_not_asked_does_not_matter(claim: ResourceClaim, a: Node, b: Node)
    requires
        a.status == b.status,
        a.backends@ == b.backends@,
        a.memory.size_mb == b.memory.size_mb,
        a.isolation == b.isolation,
        a.reliability_milli == b.reliability_milli,
        a.price_per_sec_micro_usd == b.price_per_sec_micro_usd,
        claim.gpu_model is None || a.gpu_model@ == b.gpu_model@,
        claim.region_pref is None || a.region@ == b.region@,
        claim.min_driver is None || a.driver == b.driver,
        claim.min_cuda is None || a.cuda == b.cuda,
    ensures
        feasible(claim, a) == feasible(claim, b),
        feasible(claim, a) ==> a.status == NodeStatus::Available,
        resolved(claim, a) == resolved(claim, b),
{
}

/// A backend resolves exactly where the node has one that the claim allows, and then to
/// one that both have; a claim that pins one gets that one or none, and an open claim the
/// best of those shared.
pub proof fn a_job_runs_on_a_backend_that_both_sides_have(
    claim: ResourceClaim,
    node: Node,
    b: Backend,
)
    ensures
        resolved(claim, node) == Some(b) ==> node.backends@.contains(b),
        resolved(claim, node) == Some(b) && claim.backend == BackendSelector::Auto
            ==> claim.supported_backends@.contains(b),
        claim.backend is Only && resolved(claim, node) == Some(b) ==> claim.backend
            == BackendSelector::Only(b),
        claim.backend == BackendSelector::Only(b) && node.backends@.contains(b) ==> resolved(
            claim,
            node,
        ) == Some(b),
        claim.backend == BackendSelector::Auto && claim.supported_backends@.contains(b)
            && node.backends@.contains(b) ==> resolved(claim, node) is Some && resolved(
            claim,
            node,
        )->0.rank() <= b.rank(),
        feasible(claim, node) ==> resolved(claim, node) is Some,
{
    let both = claim.supported_backends@.intersect(node.backends@);
    crate::domain::capability::best_is_the_highest_priority_member(both, b);
}

/// Each signal adds exactly its weight to a score, and a node scores nothing where every
/// weight is zero.
pub proof fn each_signal_adds_its_weight(
    claim: ResourceClaim,
    node: Node,
    flag: bool,
    weights: ScoreWeights,
)
    ensures
        score_of(claim, node, PlacementSignals { cache_warm: true, data_local: flag }, weights)
            - score_of(
            claim,
            node,
            PlacementSignals { cache_warm: false, data_local: flag },
            weights,
        ) == weights.cache_warm,
        score_of(claim, node, PlacementSignals { cache_warm: flag, data_local: true }, weights)
            - score_of(
            claim,
            node,
            PlacementSignals { cache_warm: flag, data_local: false },
            weights,
        ) == weights.data_local,
        score_of(
            claim,
            node,
            PlacementSignals { cache_warm: flag, data_local: flag },
            ScoreWeights { price: 0, reliability: 0, cache_warm: 0, data_local: 0 },
        ) == 0,
{
}

/// Reliability counts by its thousandths: two nodes of one price differ in score by the
/// weight for each thousandth between them.
pub proof fn reliability_counts_by_its_thousandths(
    claim: ResourceClaim,
    a: Node,
    b: Node,
    signals: PlacementSignals,
    weights: ScoreWeights,
)
    requires
        a.price_per_sec_micro_usd == b.price_per_sec_micro_usd,
    ensures
        score_of(claim, a, signals, weights) - score_of(claim, b, signals, weights) == (
        a.reliability_milli - b.reliability_milli) * weights.reliability,
{
    let w = weights.reliability;
    let x = a.reliability_milli;
    let y = b.reliability_milli;
    assert(x * w - y * w == (x - y) * w) by (nonlinear_arith);
}

/// Price counts by its distance under the ceiling: of two nodes of one reliability that
/// are within it, the cheaper is ahead by the weight for each unit between them, and one
/// above the ceiling has no headroom at all.
pub proof fn price_counts_by_its_headroom(
    claim: ResourceClaim,
    a: Node,
    b: Node,
    signals: PlacementSignals,
    weights: ScoreWeights,
)
    requires
        a.reliability_milli == b.reliability_milli,
        claim.max_price_per_sec_micro_usd - a.price_per_sec_micro_usd <= i64::MAX,
        claim.max_price_per_sec_micro_usd - b.price_per_sec_micro_usd <= i64::MAX,
        a.price_per_sec_micro_usd <= claim.max_price_per_sec_micro_usd,
    ensures
        b.price_per_sec_micro_usd <= claim.max_price_per_sec_micro_usd ==> score_of(
            claim,
            a,
            signals,
            weights,
        ) - score_of(claim, b, signals, weights) == (b.price_per_sec_micro_usd
            - a.price_per_sec_micro_usd) * weights.price,
        b.price_per_sec_micro_usd > claim.max_price_per_sec_micro_usd ==> score_of(
            claim,
            a,
            signals,
            weights,
        ) - score_of(claim, b, signals, weights) == (claim.max_price_per_sec_micro_usd
            - a.price_per_sec_micro_usd) * weights.price,
{
    let w = weights.price;
    let x = headroom(claim, a);
    let y = headroom(claim, b);
    assert(x * w - y * w == (x - y) * w) by (nonlinear_arith);
}

/// The default weights put cache locality before data affinity, that before a thousandth
/// of reliability, and that before a unit of price; none counts against a node.
pub proof fn the_default_weights_are_in_their_documented_order(w: ScoreWeights)
    requires
        call_ensures(ScoreWeights::default, (), w),
    ensures
        w.cache_warm > w.data_local > w.reliability > w.price > 0,
        w.data_local >= 1000 * w.reliability,
{
}

/// A placement is one of the offers that can run the job, on a backend that the node has,
/// with no offer ahead of it; and there is one wherever an offer can run the job.
pub proof fn a_placement_is_the_best_offer_that_can_run_the_job<'a>(
    claim: ResourceClaim,
    offers: &[NodeOffer<'a>],
    weights: ScoreWeights,
    r: Option<Placement<'a>>,
    j: int,
)
    requires
        call_ensures(plan_placement, (&claim, offers, &weights), r),
        0 <= j < offers@.len(),
        feasible(claim, *offers@[j].node),
    ensures
        r is Some,
        feasible(claim, *r->0.node),
        r->0.node.backends@.contains(r->0.backend),
        r->0.score.0 >= score_of(claim, *offers@[j].node, offers@[j].signals, weights),
        exists|i: int| 0 <= i < offers@.len() && r->0.node == (#[trigger] offers@[i]).node,
{
    let i = choose|i: int|
        {
            &&& #[trigger] wins(claim, offers@, weights, offers@.len() as int, i)
            &&& r->0.node == offers@[i].node
            &&& Some(r->0.backend) == resolved(claim, *offers@[i].node)
            &&& r->0.score.0 == score_of(
                claim,
                *offers@[i].node,
                offers@[i].signals,
                weights,
            )
        };
    the_winner_is_the_best_feasible_offer(claim, offers@, weights, i, j);
    a_job_runs_on_a_backend_that_both_sides_have(claim, *offers@[i].node, r->0.backend);
    assert(r->0.node == offers@[i].node);
}

} // verus!
