//! Node capability vocabulary: compute backends, the memory model, isolation
//! tiers and comparable versions.
//!
//! A node advertises which [`Backend`]s it can execute and how much memory it
//! exposes ([`MemoryModel`]); a job filters against them.
use crate::decimal::decimal;
use crate::decimal::unsigned;
use vstd::prelude::*;

verus! {

/// A compute backend: which stack the workload computes on. The `auto` choice
/// prefers MLX, then CUDA, then CPU, then `ROCm`.
#[derive(Debug, Clone, Copy, PartialEq, Eq, Hash, PartialOrd, Ord, Structural)]
pub enum Backend {
    /// Apple silicon, Metal via unified memory.
    Mlx,
    /// NVIDIA CUDA.
    Cuda,
    /// The always-available CPU baseline.
    Cpu,
    /// AMD `ROCm`.
    Rocm,
}

impl Backend {
    /// The rank that `auto` resolution goes by (lower wins).
    pub open spec fn rank(self) -> u8 {
        match self {
            Backend::Mlx => 0,
            Backend::Cuda => 1,
            Backend::Cpu => 2,
            Backend::Rocm => 3,
        }
    }

    /// All backends, best first.
    pub open spec fn in_order() -> Seq<Backend> {
        seq![Backend::Mlx, Backend::Cuda, Backend::Cpu, Backend::Rocm]
    }

    /// All backends in `auto`-resolution priority order.
    #[must_use]
    pub fn all() -> (r: [Backend; 4])
        ensures
            r@ == Backend::in_order(),
    {
        [Backend::Mlx, Backend::Cuda, Backend::Cpu, Backend::Rocm]
    }

    /// The priority rank used by `auto` resolution (lower wins).
    #[must_use]
    pub fn priority(self) -> (r: u8)
        ensures
            r == self.rank(),
    {
        match self {
            Backend::Mlx => 0,
            Backend::Cuda => 1,
            Backend::Cpu => 2,
            Backend::Rocm => 3,
        }
    }

    /// The lower-case name of the backend.
    pub open spec fn name(self) -> Seq<char> {
        match self {
            Backend::Mlx => "mlx"@,
            Backend::Cuda => "cuda"@,
            Backend::Cpu => "cpu"@,
            Backend::Rocm => "rocm"@,
        }
    }

    /// The backend as shown in diagnostics.
    pub open spec fn variant_name(self) -> Seq<char> {
        match self {
            Backend::Mlx => "Mlx"@,
            Backend::Cuda => "Cuda"@,
            Backend::Cpu => "Cpu"@,
            Backend::Rocm => "Rocm"@,
        }
    }

    /// The backend as shown in diagnostics.
    fn variant(&self) -> (s: &'static str)
        ensures
            s@ == self.variant_name(),
    {
        match self {
            Backend::Mlx => "Mlx",
            Backend::Cuda => "Cuda",
            Backend::Cpu => "Cpu",
            Backend::Rocm => "Rocm",
        }
    }

    /// The backend as shown to a reader: its lower-case name.
    #[must_use]
    pub fn to_string(&self) -> (s: String)
        ensures
            s@ == self.name(),
    {
        match self {
            Backend::Mlx => "mlx".to_owned(),
            Backend::Cuda => "cuda".to_owned(),
            Backend::Cpu => "cpu".to_owned(),
            Backend::Rocm => "rocm".to_owned(),
        }
    }
}

/// The list of [`Backend::in_order`] holds every backend once, at its rank.
pub proof fn the_order_is_the_ranks(b: Backend)
    ensures
        Backend::in_order()[b.rank() as int] == b,
        b.rank() < Backend::in_order().len(),
        Backend::in_order().len() == 4,
{
}

/// The member of a set that `auto` picks: the one of the lowest rank.
pub open spec fn best(s: Set<Backend>) -> Option<Backend> {
    if s.contains(Backend::Mlx) {
        Some(Backend::Mlx)
    } else if s.contains(Backend::Cuda) {
        Some(Backend::Cuda)
    } else if s.contains(Backend::Cpu) {
        Some(Backend::Cpu)
    } else if s.contains(Backend::Rocm) {
        Some(Backend::Rocm)
    } else {
        None
    }
}

/// The pick of [`best`] is the member that no other member outranks, and there
/// is a pick exactly where there is a member.
pub proof fn best_is_the_highest_priority_member(s: Set<Backend>, b: Backend)
    ensures
        s.contains(b) ==> best(s) is Some && s.contains(best(s)->0) && best(s)->0.rank()
            <= b.rank(),
        best(s) is Some ==> s.contains(best(s)->0),
{
}

/// Backends as shown in diagnostics, between commas.
pub open spec fn listed(backends: Seq<Backend>) -> Seq<char>
    decreases backends.len(),
{
    if backends.len() == 0 {
        Seq::empty()
    } else if backends.len() == 1 {
        backends[0].variant_name()
    } else {
        listed(backends.drop_last()) + ", "@ + backends.last().variant_name()
    }
}

/// A small `Copy` set of [`Backend`]s, one bit for each. Its diagnostic form is
/// [`BackendSet::shown`].
#[derive(Debug, Clone, Copy, Eq, Hash)]
pub struct BackendSet(u8);

spec fn bit(b: Backend) -> u8 {
    match b {
        Backend::Mlx => 1,
        Backend::Cuda => 2,
        Backend::Cpu => 4,
        Backend::Rocm => 8,
    }
}

fn flag(b: Backend) -> (r: u8)
    ensures
        r == bit(b),
{
    match b {
        Backend::Mlx => 1,
        Backend::Cuda => 2,
        Backend::Cpu => 4,
        Backend::Rocm => 8,
    }
}

impl View for BackendSet {
    type V = Set<Backend>;

    closed spec fn view(&self) -> Set<Backend> {
        Set::new(|b: Backend| self.0 & bit(b) != 0)
    }
}

impl PartialEq for BackendSet {
    fn eq(&self, other: &Self) -> (r: bool) {
        let x: u8 = self.0;
        let y: u8 = other.0;
        proof {
            use_type_invariant(self);
            use_type_invariant(other);
            if self@ == other@ {
                same_flags(x, y);
            }
        }
        x == y
    }
}

impl vstd::std_specs::cmp::PartialEqSpecImpl for BackendSet {
    open spec fn obeys_eq_spec() -> bool {
        true
    }

    open spec fn eq_spec(&self, other: &Self) -> bool {
        self@ == other@
    }
}

impl Default for BackendSet {
    fn default() -> (s: Self)
        ensures
            s@ == Set::<Backend>::empty(),
    {
        BackendSet::empty()
    }
}

impl BackendSet {
    /// Only the four flags are ever set.
    #[verifier::type_invariant]
    spec fn flags_only(self) -> bool {
        self.0 < 16
    }

    /// The empty set.
    #[must_use]
    pub fn empty() -> (s: Self)
        ensures
            s@ == Set::<Backend>::empty(),
    {
        let s = BackendSet(0);
        proof {
            assert(forall|x: u8| #[trigger] (0u8 & x) == 0) by (bit_vector);
            assert(s@ =~= Set::<Backend>::empty());
        }
        s
    }

    /// Builds a set from a slice of backends.
    #[must_use]
    pub fn from_backends(backends: &[Backend]) -> (s: Self)
        ensures
            s@ == backends@.to_set(),
    {
        let mut set = BackendSet::empty();
        let mut i: usize = 0;
        proof {
            assert(backends@.take(0).to_set() =~= Set::<Backend>::empty());
        }
        while i < backends.len()
            invariant
                i <= backends@.len(),
                set@ == backends@.take(i as int).to_set(),
            decreases backends@.len() - i,
        {
            set = set.with(backends[i]);
            proof {
                let before = backends@.take(i as int);
                let after = backends@.take(i + 1);
                assert(after =~= before.push(backends@[i as int]));
                assert forall|b: Backend|
                    after.to_set().contains(b) == before.to_set().insert(
                        backends@[i as int],
                    ).contains(b) by {
                    if before.contains(b) {
                        let k = choose|k: int| 0 <= k < before.len() && before[k] == b;
                        assert(after[k] == b);
                    }
                    if b == backends@[i as int] {
                        assert(after[i as int] == b);
                    }
                    if after.contains(b) && b != backends@[i as int] {
                        let k = choose|k: int| 0 <= k < after.len() && after[k] == b;
                        assert(before[k] == b);
                    }
                }
                assert(after.to_set() =~= before.to_set().insert(backends@[i as int]));
            }
            i = i + 1;
        }
        proof {
            assert(backends@.take(backends@.len() as int) =~= backends@);
        }
        set
    }

    /// The set with `backend` added.
    #[must_use]
    pub fn with(self, backend: Backend) -> (s: Self)
        ensures
            s@ == self@.insert(backend),
    {
        let x: u8 = self.0;
        let y: u8 = flag(backend);
        proof {
            use_type_invariant(&self);
            assert(x < 16 && y < 16 ==> x | y < 16) by (bit_vector);
            bits_union(x, backend);
        }
        let s = BackendSet(x | y);
        proof {
            assert(s@ =~= self@.insert(backend));
        }
        s
    }

    /// Whether `backend` is a member.
    #[must_use]
    pub fn contains(self, backend: Backend) -> (r: bool)
        ensures
            r == self@.contains(backend),
    {
        self.0 & flag(backend) != 0
    }

    /// The set intersection.
    #[must_use]
    pub fn intersect(self, other: Self) -> (s: Self)
        ensures
            s@ == self@.intersect(other@),
    {
        let x: u8 = self.0;
        let y: u8 = other.0;
        proof {
            use_type_invariant(&self);
            assert(x < 16 ==> x & y < 16) by (bit_vector);
            bits_meet(x, y);
        }
        let s = BackendSet(x & y);
        proof {
            assert(s@ =~= self@.intersect(other@));
        }
        s
    }

    /// Whether the set has no members.
    #[must_use]
    pub fn is_empty(self) -> (r: bool)
        ensures
            r == (self@ == Set::<Backend>::empty()),
    {
        let x: u8 = self.0;
        proof {
            use_type_invariant(&self);
            assert(0u8 & 1 == 0 && 0u8 & 2 == 0 && 0u8 & 4 == 0 && 0u8 & 8 == 0) by (bit_vector);
            assert(x < 16 && x & 1 == 0 && x & 2 == 0 && x & 4 == 0 && x & 8 == 0 ==> x == 0)
                by (bit_vector);
            if x == 0 {
                assert(self@ =~= Set::<Backend>::empty());
            } else {
                if self@ == Set::<Backend>::empty() {
                    assert(!self@.contains(Backend::Mlx));
                    assert(!self@.contains(Backend::Cuda));
                    assert(!self@.contains(Backend::Cpu));
                    assert(!self@.contains(Backend::Rocm));
                }
            }
        }
        x == 0
    }

    /// The members, in priority order.
    pub fn iter(self) -> (v: Vec<Backend>)
        ensures
            v@ == Backend::in_order().filter(|b: Backend| self@.contains(b)),
    {
        let all = Backend::all();
        let mut v: Vec<Backend> = Vec::new();
        let mut i: usize = 0;
        let ghost member = |b: Backend| self@.contains(b);
        proof {
            reveal(Seq::filter);
            assert(all@.take(0).filter(member) =~= Seq::<Backend>::empty());
        }
        while i < 4
            invariant
                i <= 4,
                all@ == Backend::in_order(),
                member == (|b: Backend| self@.contains(b)),
                v@ == all@.take(i as int).filter(member),
            decreases 4 - i,
        {
            let b = all[i];
            proof {
                reveal(Seq::filter);
                assert(all@.take(i + 1).drop_last() =~= all@.take(i as int));
                assert(all@.take(i + 1).last() == b);
            }
            if self.contains(b) {
                v.push(b);
            }
            i = i + 1;
        }
        proof {
            assert(all@.take(4) =~= all@);
        }
        v
    }

    /// The set for diagnostics: its members, in priority order, in braces.
    #[must_use]
    pub fn shown(self) -> (s: String)
        ensures
            s@ == "{"@ + listed(Backend::in_order().filter(|b: Backend| self@.contains(b)))
                + "}"@,
    {
        let members = self.iter();
        let mut s = "{".to_owned();
        let mut i: usize = 0;
        proof {
            assert(s@ =~= "{"@ + listed(members@.take(0)));
        }
        while i < members.len()
            invariant
                i <= members@.len(),
                s@ == "{"@ + listed(members@.take(i as int)),
            decreases members@.len() - i,
        {
            if i > 0 {
                s.append(", ");
            }
            s.append(members[i].variant());
            proof {
                assert(members@.take(i + 1).drop_last() =~= members@.take(i as int));
                assert(s@ =~= "{"@ + listed(members@.take(i + 1)));
            }
            i = i + 1;
        }
        proof {
            assert(members@.take(members@.len() as int) =~= members@);
        }
        s.append("}");
        s
    }

    /// The highest-priority member, if any (the `auto` pick).
    #[must_use]
    pub fn best_by_priority(self) -> (r: Option<Backend>)
        ensures
            r == best(self@),
    {
        let all = Backend::all();
        if self.contains(all[0]) {
            Some(all[0])
        } else if self.contains(all[1]) {
            Some(all[1])
        } else if self.contains(all[2]) {
            Some(all[2])
        } else if self.contains(all[3]) {
            Some(all[3])
        } else {
            None
        }
    }
}

proof fn same_flags(x: u8, y: u8)
    requires
        x < 16,
        y < 16,
        BackendSet(x)@ == BackendSet(y)@,
    ensures
        x == y,
{
    assert(BackendSet(x)@.contains(Backend::Mlx) == (x & 1u8 != 0));
    assert(BackendSet(y)@.contains(Backend::Mlx) == (y & 1u8 != 0));
    assert(BackendSet(x)@.contains(Backend::Cuda) == (x & 2u8 != 0));
    assert(BackendSet(y)@.contains(Backend::Cuda) == (y & 2u8 != 0));
    assert(BackendSet(x)@.contains(Backend::Cpu) == (x & 4u8 != 0));
    assert(BackendSet(y)@.contains(Backend::Cpu) == (y & 4u8 != 0));
    assert(BackendSet(x)@.contains(Backend::Rocm) == (x & 8u8 != 0));
    assert(BackendSet(y)@.contains(Backend::Rocm) == (y & 8u8 != 0));
    assert(x < 16 && y < 16 && (x & 1 != 0) == (y & 1 != 0) && (x & 2 != 0) == (y & 2 != 0) && (x
        & 4 != 0) == (y & 4 != 0) && (x & 8 != 0) == (y & 8 != 0) ==> x == y) by (bit_vector);
}

proof fn bits_union(x: u8, added: Backend)
    ensures
        forall|b: Backend|
            ((x | bit(added)) & #[trigger] bit(b) != 0) == (x & bit(b) != 0 || b == added),
{
    assert forall|b: Backend| ((x | bit(added)) & #[trigger] bit(b) != 0) == (x & bit(b) != 0 || b
        == added) by {
        let p = bit(added);
        let q = bit(b);
        assert((p == 1 || p == 2 || p == 4 || p == 8) && (q == 1 || q == 2 || q == 4 || q == 8)
            ==> ((x | p) & q != 0) == (x & q != 0 || p == q)) by (bit_vector);
    }
}

proof fn bits_meet(x: u8, y: u8)
    ensures
        forall|b: Backend|
            ((x & y) & #[trigger] bit(b) != 0) == (x & bit(b) != 0 && y & bit(b) != 0),
{
    assert forall|b: Backend| ((x & y) & #[trigger] bit(b) != 0) == (x & bit(b) != 0 && y & bit(b)
        != 0) by {
        let q = bit(b);
        assert((q == 1 || q == 2 || q == 4 || q == 8) ==> ((x & y) & q != 0) == (x & q != 0 && y
            & q != 0)) by (bit_vector);
    }
}

/// How a node's memory is organized.
#[derive(Debug, Clone, Copy, PartialEq, Eq, Hash, Structural)]
pub enum MemoryKind {
    /// Apple silicon: one pool shared by CPU and GPU.
    Unified,
    /// NVIDIA/AMD: a fixed VRAM size distinct from host RAM.
    Discrete,
}

impl Default for MemoryKind {
    fn default() -> (k: Self)
        ensures
            k == MemoryKind::Unified,
    {
        MemoryKind::Unified
    }
}

/// A node's advertised memory: its organization plus a size in megabytes. A
/// unified pool counts whole, a discrete card counts its VRAM.
#[derive(Debug, Clone, Copy, PartialEq, Eq, Hash, Structural)]
pub struct MemoryModel {
    /// Whether the pool is unified or discrete.
    pub kind: MemoryKind,
    /// The usable size in megabytes.
    pub size_mb: u64,
}

impl Default for MemoryModel {
    fn default() -> (m: Self)
        ensures
            m == (MemoryModel { kind: MemoryKind::Unified, size_mb: 0 }),
    {
        MemoryModel { kind: MemoryKind::Unified, size_mb: 0 }
    }
}

impl MemoryModel {
    /// Constructs a memory model.
    #[must_use]
    pub fn new(kind: MemoryKind, size_mb: u64) -> (m: Self)
        ensures
            m == (MemoryModel { kind, size_mb }),
    {
        MemoryModel { kind, size_mb }
    }

    /// The usable size in megabytes.
    #[must_use]
    pub fn size_mb(self) -> (r: u64)
        ensures
            r == self.size_mb,
    {
        self.size_mb
    }
}

/// Sandbox isolation strength, ordered weakest to strongest: Tier B (hardened
/// container), Tier A (dedicated microVM), Tier C (confidential).
#[derive(Debug, Clone, Copy, PartialEq, Eq, Hash, PartialOrd, Ord, Structural)]
pub enum IsolationTier {
    /// Hardened container: the baseline.
    B,
    /// Dedicated-rig microVM with GPU passthrough.
    A,
    /// Confidential microVM: the strongest.
    C,
}

impl Default for IsolationTier {
    fn default() -> (t: Self)
        ensures
            t == IsolationTier::B,
    {
        IsolationTier::B
    }
}

impl IsolationTier {
    /// The strength of the tier.
    pub open spec fn strength(self) -> int {
        match self {
            IsolationTier::B => 0,
            IsolationTier::A => 1,
            IsolationTier::C => 2,
        }
    }

    /// Whether this tier is strong enough to satisfy `minimum`.
    #[must_use]
    pub fn satisfies(self, minimum: Self) -> (r: bool)
        ensures
            r == (self.strength() >= minimum.strength()),
    {
        match minimum {
            IsolationTier::B => true,
            IsolationTier::A => !matches!(self, IsolationTier::B),
            IsolationTier::C => matches!(self, IsolationTier::C),
        }
    }
}

/// A comparable `major.minor.patch` version (driver and CUDA floors).
#[derive(Debug, Clone, Copy, PartialEq, Eq, Hash, PartialOrd, Ord, Structural)]
pub struct Version {
    /// Major component (compared first).
    pub major: u32,
    /// Minor component.
    pub minor: u32,
    /// Patch component.
    pub patch: u32,
}

impl Default for Version {
    fn default() -> (v: Self)
        ensures
            v == (Version { major: 0, minor: 0, patch: 0 }),
    {
        Version { major: 0, minor: 0, patch: 0 }
    }
}

impl Version {
    /// Constructs a version.
    #[must_use]
    pub fn new(major: u32, minor: u32, patch: u32) -> (v: Self)
        ensures
            v == (Version { major, minor, patch }),
    {
        Version { major, minor, patch }
    }

    /// Whether this version is `floor` or a later one, component by component.
    pub open spec fn reaches(self, floor: Version) -> bool {
        ||| self.major > floor.major
        ||| self.major == floor.major && self.minor > floor.minor
        ||| self.major == floor.major && self.minor == floor.minor && self.patch >= floor.patch
    }

    /// Whether this version is `floor` or a later one.
    #[must_use]
    pub fn at_least(self, floor: Version) -> (r: bool)
        ensures
            r == self.reaches(floor),
    {
        if self.major != floor.major {
            self.major > floor.major
        } else if self.minor != floor.minor {
            self.minor > floor.minor
        } else {
            self.patch >= floor.patch
        }
    }

    /// The version as shown to a reader: `major.minor.patch`.
    #[must_use]
    pub fn to_string(&self) -> (s: String)
        ensures
            s@ == decimal(self.major as nat) + "."@ + decimal(self.minor as nat) + "."@ + decimal(
                self.patch as nat,
            ),
    {
        let mut s = unsigned(self.major as u64);
        s.append(".");
        s.append(unsigned(self.minor as u64).as_str());
        s.append(".");
        s.append(unsigned(self.patch as u64).as_str());
        s
    }
}

/// Versions are ordered: each reaches itself, of two different ones exactly one reaches
/// the other, and what reaches a version reaches whatever that one reaches.
pub proof fn versions_are_totally_ordered(a: Version, b: Version, c: Version)
    ensures
        a.reaches(a),
        a.reaches(b) || b.reaches(a),
        a.reaches(b) && b.reaches(a) ==> a == b,
        a.reaches(b) && b.reaches(c) ==> a.reaches(c),
{
}

/// A later component counts only where all before it are equal: a higher major reaches
/// every lower one whatever follows, then a higher minor, then a higher patch.
pub proof fn an_earlier_component_decides(a: Version, b: Version)
    ensures
        a.major > b.major ==> !b.reaches(a),
        a.major == b.major && a.minor > b.minor ==> !b.reaches(a),
        a.major == b.major && a.minor == b.minor && a.patch > b.patch ==> !b.reaches(a),
{
}

/// Every tier is at least as strong as the baseline container and at most as strong as
/// the confidential one, and a dedicated microVM lies strictly between the two.
pub proof fn tiers_run_from_the_container_to_the_confidential_vm(t: IsolationTier)
    ensures
        IsolationTier::B.strength() <= t.strength() <= IsolationTier::C.strength(),
        IsolationTier::B.strength() < IsolationTier::A.strength() < IsolationTier::C.strength(),
        forall|r: bool| #[trigger]
            call_ensures(IsolationTier::satisfies, (t, t), r) ==> r,
{
}

/// A tier satisfies exactly the minimums that are no stronger than itself: what satisfies
/// a tier satisfies all that the tier satisfies, and two that satisfy each other are one.
pub proof fn satisfying_a_tier_is_an_order(
    a: IsolationTier,
    b: IsolationTier,
    c: IsolationTier,
    ab: bool,
    ba: bool,
    bc: bool,
    ac: bool,
)
    requires
        call_ensures(IsolationTier::satisfies, (a, b), ab),
        call_ensures(IsolationTier::satisfies, (b, a), ba),
        call_ensures(IsolationTier::satisfies, (b, c), bc),
        call_ensures(IsolationTier::satisfies, (a, c), ac),
    ensures
        ab || ba,
        ab && ba ==> a == b,
        ab && bc ==> ac,
        a == IsolationTier::C ==> ab,
        b == IsolationTier::B ==> ab,
{
}

/// The pick among shared backends is the first of the documented order that is shared:
/// MLX, CUDA, CPU, `ROCm`.
pub proof fn the_pick_follows_the_documented_order(s: Set<Backend>)
    ensures
        s.contains(Backend::Mlx) ==> best(s) == Some(Backend::Mlx),
        best(s) == Some(Backend::Cuda) ==> !s.contains(Backend::Mlx),
        best(s) == Some(Backend::Cpu) ==> !s.contains(Backend::Mlx) && !s.contains(Backend::Cuda),
        best(s) == Some(Backend::Rocm) ==> forall|b: Backend|
            s.contains(b) ==> b == Backend::Rocm,
        best(s) is None ==> forall|b: Backend| !s.contains(b),
        Backend::Mlx.rank() < Backend::Cuda.rank() < Backend::Cpu.rank() < Backend::Rocm.rank(),
{
    if best(s) == Some(Backend::Rocm) || best(s) is None {
        assert forall|b: Backend| s.contains(b) implies best(s) is Some && b == Backend::Rocm by {
            match b {
                Backend::Mlx => {},
                Backend::Cuda => {},
                Backend::Cpu => {},
                Backend::Rocm => {},
            }
        }
    }
}

/// A set holds what was put in and nothing else: a member of a set with one added is that
/// one or was in before, and a set made of a list has just the list's members.
pub proof fn a_set_holds_what_was_put_in(
    s: BackendSet,
    added: Backend,
    asked: Backend,
    with: BackendSet,
    before: bool,
    after: bool,
    list: &[Backend],
    of_list: BackendSet,
    in_list: bool,
)
    requires
        call_ensures(BackendSet::with, (s, added), with),
        call_ensures(BackendSet::contains, (s, asked), before),
        call_ensures(BackendSet::contains, (with, asked), after),
        call_ensures(BackendSet::from_backends, (list,), of_list),
        call_ensures(BackendSet::contains, (of_list, asked), in_list),
    ensures
        after <==> before || asked == added,
        in_list <==> exists|i: int| 0 <= i < list@.len() && #[trigger] list@[i] == asked,
{
}

/// What two sets share is what both hold, whichever comes first, and a set is empty
/// exactly where it holds nothing.
pub proof fn what_two_sets_share_is_in_both(
    a: BackendSet,
    b: BackendSet,
    ab: BackendSet,
    ba: BackendSet,
    asked: Backend,
    in_a: bool,
    in_b: bool,
    in_ab: bool,
    empty: bool,
)
    requires
        call_ensures(BackendSet::intersect, (a, b), ab),
        call_ensures(BackendSet::intersect, (b, a), ba),
        call_ensures(BackendSet::contains, (a, asked), in_a),
        call_ensures(BackendSet::contains, (b, asked), in_b),
        call_ensures(BackendSet::contains, (ab, asked), in_ab),
        call_ensures(BackendSet::is_empty, (ab,), empty),
    ensures
        in_ab <==> in_a && in_b,
        ab@ == ba@,
        empty ==> !in_ab,
        (forall|b: Backend| !ab@.contains(b)) ==> empty,
{
    assert(ab@ =~= ba@);
    if forall|b: Backend| !ab@.contains(b) {
        assert(ab@ =~= Set::<Backend>::empty());
    }
}

/// A new set is empty, and equal sets hold the same.
pub proof fn a_new_set_is_empty(
    s: BackendSet,
    d: BackendSet,
    asked: Backend,
    held: bool,
    empty: bool,
    t: BackendSet,
    same: bool,
)
    requires
        call_ensures(BackendSet::empty, (), s),
        call_ensures(BackendSet::default, (), d),
        call_ensures(BackendSet::contains, (s, asked), held),
        call_ensures(BackendSet::is_empty, (s,), empty),
        call_ensures(BackendSet::eq, (&d, &t), same),
    ensures
        !held,
        empty,
        s@ == d@,
        same <==> forall|b: Backend| !t@.contains(b),
{
    if forall|b: Backend| !t@.contains(b) {
        assert(t@ =~= Set::<Backend>::empty());
    }
}

/// The members of a set are listed once each, the one with the higher priority first, and
/// the best of a set is the first of them.
pub proof fn members_are_listed_by_priority(
    s: BackendSet,
    v: Vec<Backend>,
    top: Option<Backend>,
    asked: Backend,
)
    requires
        call_ensures(BackendSet::iter, (s,), v),
        call_ensures(BackendSet::best_by_priority, (s,), top),
    ensures
        v@.contains(asked) <==> s@.contains(asked),
        forall|i: int, j: int|
            0 <= i < j < v@.len() ==> (#[trigger] v@[i]).rank() < (#[trigger] v@[j]).rank(),
        top is Some <==> v@.len() > 0,
        top is Some ==> top->0 == v@[0],
{
    reveal_with_fuel(Seq::filter, 5);
    let all = Backend::in_order();
    let member = |b: Backend| s@.contains(b);
    assert(all.drop_last() =~= seq![Backend::Mlx, Backend::Cuda, Backend::Cpu]);
    assert(all.drop_last().drop_last() =~= seq![Backend::Mlx, Backend::Cuda]);
    assert(all.drop_last().drop_last().drop_last() =~= seq![Backend::Mlx]);
    assert(all.drop_last().drop_last().drop_last().drop_last() =~= Seq::<Backend>::empty());
    assert(v@ == all.filter(member));
    all.filter_lemma(member);
    the_order_is_the_ranks(asked);
    if s@.contains(asked) {
        assert(all[asked.rank() as int] == asked);
        assert(all.contains(asked) && member(asked));
        assert(v@.contains(asked));
    }
    if v@.contains(asked) {
        let k = choose|k: int| 0 <= k < v@.len() && v@[k] == asked;
        assert(member(v@[k]));
    }
}

/// The four backends are listed in the order of their priorities, which count from zero,
/// and no two are named alike.
pub proof fn backends_are_told_apart(
    a: Backend,
    b: Backend,
    x: u8,
    y: u8,
    name_a: String,
    name_b: String,
    all: [Backend; 4],
)
    requires
        call_ensures(Backend::priority, (a,), x),
        call_ensures(Backend::priority, (b,), y),
        call_ensures(Backend::to_string, (&a,), name_a),
        call_ensures(Backend::to_string, (&b,), name_b),
        call_ensures(Backend::all, (), all),
    ensures
        x == y <==> a == b,
        x < 4,
        all@[x as int] == a,
        name_a@ == name_b@ <==> a == b,
{
    the_order_is_the_ranks(a);
    reveal_strlit("mlx");
    reveal_strlit("cuda");
    reveal_strlit("cpu");
    reveal_strlit("rocm");
    assert("mlx"@[0] == 'm' && "cuda"@[0] == 'c' && "cpu"@[0] == 'c' && "rocm"@[0] == 'r');
    assert("cuda"@[1] == 'u' && "cpu"@[1] == 'p');
    if name_a@ == name_b@ {
        assert(name_a@[0] == name_b@[0] && name_a@[1] == name_b@[1]);
    }
}

/// A version is at least a floor exactly where it is not before it, by the first component
/// in which the two differ.
pub proof fn a_version_is_at_least_what_it_is_not_before(
    v: Version,
    floor: Version,
    r: bool,
    s: bool,
    later: Version,
    made: Version,
)
    requires
        call_ensures(Version::at_least, (v, floor), r),
        call_ensures(Version::at_least, (floor, v), s),
        call_ensures(Version::new, (v.major, v.minor, v.patch), made),
    ensures
        r || s,
        r && s ==> v == floor,
        v.major != floor.major ==> (r <==> v.major > floor.major),
        v.major == floor.major && v.minor != floor.minor ==> (r <==> v.minor > floor.minor),
        v.major == floor.major && v.minor == floor.minor ==> (r <==> v.patch >= floor.patch),
        made == v,
{
}

/// A memory model tells the kind and the size that it was made of.
pub proof fn a_memory_model_tells_its_size(kind: MemoryKind, size: u64, m: MemoryModel, told: u64)
    requires
        call_ensures(MemoryModel::new, (kind, size), m),
        call_ensures(MemoryModel::size_mb, (m,), told),
    ensures
        told == size,
        m.kind == kind,
{
}

} // verus!
