//! Reconnecting: exponential backoff with full jitter.
use crate::duration::Duration;
use crate::hostd::config::ReconnectConfig;
use crate::text::IntoText;
use vstd::arithmetic::power2::lemma_pow2_pos;
use vstd::arithmetic::power2::lemma_pow2_unfold;
use vstd::arithmetic::power2::pow2;
use vstd::prelude::*;

verus! {

/// Backoff bounds.
#[derive(Debug, Clone, Copy, PartialEq, Eq, Structural)]
pub struct BackoffPolicy {
    base: Duration,
    cap: Duration,
}

/// The smaller of two numbers.
pub open spec fn smaller(a: nat, b: nat) -> nat {
    if a <= b {
        a
    } else {
        b
    }
}

impl BackoffPolicy {
    /// The first ceiling, in nanoseconds.
    pub closed spec fn base_nanos(self) -> nat {
        self.base@
    }

    /// The bound on every ceiling, in nanoseconds.
    pub closed spec fn cap_nanos(self) -> nat {
        self.cap@
    }

    /// The ceiling of an attempt, in nanoseconds: the base doubled once for each
    /// attempt before, up to the cap.
    pub open spec fn ceiling_nanos(self, attempt: u32) -> nat {
        smaller(self.cap_nanos(), self.base_nanos() * pow2(attempt as nat))
    }

    /// Constructs a policy, raising `cap` to at least `base`.
    #[must_use]
    pub fn new(base: Duration, cap: Duration) -> (p: Self)
        ensures
            p.base_nanos() == base@,
            p.cap_nanos() == (if cap@ >= base@ {
                cap@
            } else {
                base@
            }),
    {
        BackoffPolicy { base, cap: cap.longer(base) }
    }

    /// The delay ceiling before jitter for a zero-based `attempt`: the smaller of the
    /// cap and `base * 2^attempt`. A large `attempt` pins at the cap.
    #[must_use]
    pub fn ceiling(&self, attempt: u32) -> (d: Duration)
        ensures
            d@ == self.ceiling_nanos(attempt),
    {
        if self.base.as_nanos() == 0 {
            proof {
                assert(self.base_nanos() * pow2(attempt as nat) == 0) by (nonlinear_arith)
                    requires
                        self.base_nanos() == 0,
                ;
            }
            return Duration::zero();
        }
        let mut d = if self.base.as_nanos() <= self.cap.as_nanos() {
            self.base
        } else {
            self.cap
        };
        let mut i: u32 = 0;
        proof {
            vstd::arithmetic::power2::lemma2_to64();
            assert(self.base_nanos() * pow2(0) == self.base_nanos()) by (nonlinear_arith)
                requires
                    pow2(0) == 1,
            ;
        }
        while i < attempt && d.as_nanos() < self.cap.as_nanos()
            invariant
                i <= attempt,
                self.base_nanos() > 0,
                d@ == smaller(self.cap_nanos(), self.base_nanos() * pow2(i as nat)),
            decreases attempt - i,
        {
            d = d.doubled_within(self.cap);
            proof {
                lemma_pow2_unfold((i + 1) as nat);
                let b = self.base_nanos();
                let p = pow2(i as nat);
                assert(b * (2 * p) == 2 * (b * p)) by (nonlinear_arith);
            }
            i = i + 1;
        }
        proof {
            if i < attempt {
                stays_at_the_cap(self.base_nanos(), self.cap_nanos(), i as nat, attempt as nat);
            }
        }
        d
    }

    /// The actual backoff for `attempt`: full jitter up to the ceiling, in whole
    /// milliseconds.
    #[must_use]
    pub fn delay(&self, attempt: u32, jitter: &mut Jitter) -> (d: Duration)
        ensures
            drawn(self.ceiling_nanos(attempt), old(jitter)@, final(jitter)@, d@),
            d@ <= self.ceiling_nanos(attempt),
    {
        jitter.full(self.ceiling(attempt))
    }
}

proof fn stays_at_the_cap(base: nat, cap: nat, i: nat, n: nat)
    requires
        i <= n,
        base * pow2(i) >= cap,
    ensures
        base * pow2(n) >= cap,
    decreases n - i,
{
    if i < n {
        lemma_pow2_unfold(i + 1);
        lemma_pow2_pos(i);
        let p = pow2(i);
        assert(base * (2 * p) >= base * p) by (nonlinear_arith)
            requires
                p > 0,
        ;
        stays_at_the_cap(base, cap, i + 1, n);
    }
}

impl From<ReconnectConfig> for BackoffPolicy {
    fn from(rc: ReconnectConfig) -> (p: Self)
        ensures
            p.base_nanos() == rc.base_ms * 1_000_000,
            p.cap_nanos() == (if rc.cap_ms >= rc.base_ms {
                rc.cap_ms * 1_000_000
            } else {
                rc.base_ms * 1_000_000
            }),
    {
        BackoffPolicy::new(rc.base(), rc.cap())
    }
}

impl vstd::std_specs::convert::FromSpecImpl<ReconnectConfig> for BackoffPolicy {
    open spec fn obeys_from_spec() -> bool {
        false
    }

    open spec fn from_spec(rc: ReconnectConfig) -> Self {
        arbitrary()
    }
}

/// The state of the generator after one draw.
pub open spec fn next_state(state: u64) -> u64 {
    state.wrapping_add(0x9E37_79B9_7F4A_7C15)
}

/// The value that the generator draws in a state (`splitmix64`).
pub open spec fn mixed(state: u64) -> u64 {
    let a = (state ^ (state >> 30)).wrapping_mul(0xBF58_476D_1CE4_E5B9);
    let b = (a ^ (a >> 27)).wrapping_mul(0x94D0_49BB_1331_11EB);
    b ^ (b >> 31)
}

/// Whether `drawn` nanoseconds is what the generator gives under a ceiling: nothing,
/// without a draw, under a ceiling below a millisecond, else one draw reduced to the
/// whole milliseconds from none up to and including the ceiling. A ceiling past the
/// generator's range counts as the largest draw.
pub open spec fn drawn(ceiling: nat, before: u64, after: u64, drawn: nat) -> bool {
    let millis = smaller(ceiling / 1_000_000, u64::MAX as nat);
    if millis == 0 {
        after == before && drawn == 0
    } else {
        after == next_state(before) && drawn == (mixed(after) as nat % (millis + 1)) * 1_000_000
    }
}

/// A tiny deterministic generator for full-jitter selection, seedable so that runs
/// are reproducible.
#[derive(Debug, Clone, PartialEq, Eq)]
pub struct Jitter {
    state: u64,
}

impl View for Jitter {
    type V = u64;

    closed spec fn view(&self) -> u64 {
        self.state
    }
}

impl Jitter {
    /// A generator seeded with `seed`.
    #[must_use]
    pub fn new(seed: u64) -> (j: Self)
        ensures
            j@ == seed,
    {
        Jitter { state: seed }
    }

    /// The next raw value.
    fn next_u64(&mut self) -> (z: u64)
        ensures
            final(self)@ == next_state(old(self)@),
            z == mixed(final(self)@),
    {
        self.state = self.state.wrapping_add(0x9E37_79B9_7F4A_7C15);
        let mut z: u64 = self.state;
        z = (z ^ (z >> 30)).wrapping_mul(0xBF58_476D_1CE4_E5B9);
        z = (z ^ (z >> 27)).wrapping_mul(0x94D0_49BB_1331_11EB);
        z ^ (z >> 31)
    }

    /// A draw from nothing up to and including `ceiling`, in whole milliseconds.
    #[must_use]
    pub fn full(&mut self, ceiling: Duration) -> (d: Duration)
        ensures
            drawn(ceiling@, old(self)@, final(self)@, d@),
            d@ <= ceiling@,
    {
        let ceil_ms: u128 = ceiling.as_millis();
        if ceil_ms == 0 {
            return Duration::zero();
        }
        let z: u64 = self.next_u64();
        if ceil_ms >= u64::MAX as u128 {
            proof {
                vstd::arithmetic::div_mod::lemma_small_mod(z as nat, u64::MAX as nat + 1);
            }
            return Duration::from_millis(z);
        }
        Duration::from_millis(z % (ceil_ms as u64 + 1))
    }
}

/// Ceilings never shrink from one attempt to the next, and never pass the cap.
pub proof fn ceilings_grow_up_to_the_cap(p: BackoffPolicy, attempt: u32)
    requires
        attempt < u32::MAX,
    ensures
        p.ceiling_nanos(attempt) <= p.ceiling_nanos((attempt + 1) as u32) <= p.cap_nanos(),
{
    lemma_pow2_unfold((attempt + 1) as nat);
    lemma_pow2_pos(attempt as nat);
    let b = p.base_nanos();
    let q = pow2(attempt as nat);
    assert(b * (2 * q) >= b * q) by (nonlinear_arith)
        requires
            q > 0,
    ;
}

/// Every draw is a whole number of milliseconds, within the ceiling; a generated
/// value that is within the ceiling is drawn as it is.
pub proof fn draws_stay_within_the_ceiling(ceiling: nat, before: u64, after: u64, d: nat)
    requires
        drawn(ceiling, before, after, d),
    ensures
        d <= ceiling,
        d % 1_000_000 == 0,
        ceiling >= 1_000_000 && mixed(after) <= ceiling / 1_000_000 ==> d == mixed(after)
            * 1_000_000,
{
    let millis = smaller(ceiling / 1_000_000, u64::MAX as nat);
    let z = mixed(after) as nat;
    if millis > 0 {
        vstd::arithmetic::div_mod::lemma_mod_bound(z as int, (millis + 1) as int);
        if z <= millis {
            vstd::arithmetic::div_mod::lemma_small_mod(z, millis + 1);
        }
        let k = z % (millis + 1);
        assert(k <= millis);
        assert(k * 1_000_000 <= ceiling) by (nonlinear_arith)
            requires
                k <= millis,
                millis <= ceiling / 1_000_000,
        ;
        assert((k * 1_000_000) % 1_000_000 == 0) by (nonlinear_arith);
    }
}

/// Two generators in one state draw the same under the same ceiling.
pub proof fn draws_are_reproducible(
    ceiling: nat,
    before: u64,
    after_a: u64,
    a: nat,
    after_b: u64,
    b: nat,
)
    requires
        drawn(ceiling, before, after_a, a),
        drawn(ceiling, before, after_b, b),
    ensures
        a == b,
        after_a == after_b,
{
}

/// Where the gateway is reached.
#[derive(Debug, Clone, PartialEq, Eq)]
pub struct WssConnector {
    endpoint: String,
}

impl View for WssConnector {
    type V = Seq<char>;

    closed spec fn view(&self) -> Seq<char> {
        self.endpoint@
    }
}

impl WssConnector {
    /// A connector targeting `endpoint`.
    #[must_use]
    pub fn new(endpoint: impl IntoText) -> (c: Self)
        ensures
            c@ == endpoint.text(),
    {
        WssConnector { endpoint: endpoint.into_text() }
    }

    /// The endpoint.
    #[must_use]
    pub fn endpoint(&self) -> (s: &str)
        ensures
            s@ == self@,
    {
        self.endpoint.as_str()
    }
}

/// The ceilings double from one attempt to the next, until the cap stops them.
pub proof fn ceilings_double_up_to_the_cap(
    p: BackoffPolicy,
    attempt: u32,
    d: Duration,
    next: Duration,
)
    requires
        attempt < u32::MAX,
        call_ensures(BackoffPolicy::ceiling, (&p, attempt), d),
        call_ensures(BackoffPolicy::ceiling, (&p, (attempt + 1) as u32), next),
    ensures
        2 * d@ <= p.cap_nanos() ==> next@ == 2 * d@,
        2 * d@ > p.cap_nanos() ==> next@ == p.cap_nanos(),
{
    lemma_pow2_unfold((attempt + 1) as nat);
    lemma_pow2_pos(attempt as nat);
    let b = p.base_nanos();
    let q = pow2(attempt as nat);
    assert(b * (2 * q) == 2 * (b * q)) by (nonlinear_arith);
}

/// The first attempt is waited off for up to the base, even where the cap was given
/// shorter, and no attempt for longer than the longer of the two.
pub proof fn the_first_ceiling_is_the_base(
    base: Duration,
    cap: Duration,
    p: BackoffPolicy,
    attempt: u32,
    first: Duration,
    d: Duration,
)
    requires
        call_ensures(BackoffPolicy::new, (base, cap), p),
        call_ensures(BackoffPolicy::ceiling, (&p, 0u32), first),
        call_ensures(BackoffPolicy::ceiling, (&p, attempt), d),
    ensures
        first@ == base@,
        base@ <= d@,
        d@ <= base@ || d@ <= cap@,
{
    vstd::arithmetic::power2::lemma2_to64();
    lemma_pow2_pos(attempt as nat);
    let b = p.base_nanos();
    let q = pow2(attempt as nat);
    assert(b * pow2(0) == b) by (nonlinear_arith)
        requires
            pow2(0) == 1,
    ;
    assert(b * q >= b) by (nonlinear_arith)
        requires
            q > 0,
    ;
}

/// A configured backoff starts at the configured base and stays within the configured cap.
pub proof fn a_configured_backoff_keeps_its_bounds(
    rc: ReconnectConfig,
    p: BackoffPolicy,
    attempt: u32,
    first: Duration,
    d: Duration,
)
    requires
        rc.base_ms <= rc.cap_ms,
        call_ensures(BackoffPolicy::from, (rc,), p),
        call_ensures(BackoffPolicy::ceiling, (&p, 0u32), first),
        call_ensures(BackoffPolicy::ceiling, (&p, attempt), d),
    ensures
        first@ == rc.base_ms * 1_000_000,
        first@ <= d@ <= rc.cap_ms * 1_000_000,
        p.cap_nanos() == rc.cap_ms * 1_000_000,
{
    vstd::arithmetic::power2::lemma2_to64();
    lemma_pow2_pos(attempt as nat);
    let b = p.base_nanos();
    let q = pow2(attempt as nat);
    assert(b * pow2(0) == b) by (nonlinear_arith)
        requires
            pow2(0) == 1,
    ;
    assert(b * q >= b) by (nonlinear_arith)
        requires
            q > 0,
    ;
}

/// A draw moves the generator on, unless nothing can be drawn but nothing; and the state
/// that it moves on to is another one.
pub proof fn a_draw_moves_the_generator_on(ceiling: nat, before: u64, after: u64, d: nat)
    requires
        drawn(ceiling, before, after, d),
    ensures
        after != before <==> ceiling >= 1_000_000,
        ceiling < 1_000_000 ==> d == 0,
{
}

/// Generators in different states are in different states after a draw of each: no draw
/// makes two of them the same.
pub proof fn draws_keep_generators_apart(a: u64, b: u64)
    ensures
        next_state(a) == next_state(b) ==> a == b,
{
}

/// A connector tells the endpoint that it was made of.
pub proof fn a_connector_tells_its_endpoint(endpoint: &str, c: WssConnector, told: &str)
    requires
        call_ensures(WssConnector::new, (endpoint,), c),
        call_ensures(WssConnector::endpoint, (&c,), told),
    ensures
        told@ == endpoint@,
{
}

} // verus!
