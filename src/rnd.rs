use std::ops::Range;
use vstd::prelude::*;

verus! {

/// Multiplier of the avalanche mix; odd, so multiplication by it is a bijection.
pub const MIX_MUL: u64 = 0xf46053d10d8c49f5;

/// Bit tag that places split indices in a namespace of their own.
pub const SPLIT_TAG: u64 = 0x0400_0000_0000_0000;

/// Folds the high half of a word into its low half.
pub open spec fn fold_high(x: u64) -> u64 {
    x ^ (x >> 32u64)
}

/// Multiplication by `MIX_MUL` modulo 2^64.
pub open spec fn scramble(x: u64) -> u64 {
    ((x as nat * MIX_MUL as nat) % 0x1_0000_0000_0000_0000nat) as u64
}

/// The 64-bit mix of a state and an index.
pub open spec fn mix(cur: u64, idx: u64) -> u64 {
    fold_high(scramble(fold_high(idx ^ cur) ^ cur))
}

/// Mixes `idx` into the state `cur`.
pub fn hash(cur: u64, idx: u64) -> (r: u64)
    ensures
        r == mix(cur, idx),
{
    let x = idx ^ cur;
    let x = x ^ (x >> 32u64);
    let x = x ^ cur;
    let x = x.wrapping_mul(MIX_MUL);
    x ^ (x >> 32u64)
}

/// The state of a freshly seeded root node.
pub open spec fn root_state(seed: u64) -> u64 {
    mix(mix(seed ^ 0xa0a50dc04975f3e1u64, 0xa09be7c64159c602u64), 0xf2896bf886621af5u64)
}

/// The state of the child of `cur` under split index `idx`.
pub open spec fn child_state(cur: u64, idx: usize) -> u64 {
    mix(cur, idx as u64 | SPLIT_TAG)
}

/// The low 32 bits of a node's state.
pub open spec fn low_bits(state: u64) -> u32 {
    state as u32
}

/// The 32 bits drawn from the child `idx` of `state`.
pub open spec fn child_bits(state: u64, idx: usize) -> u32 {
    low_bits(child_state(state, idx))
}

/// The 64 bits of a node: children 0 and 1 give the low and the high half.
pub open spec fn wide_bits(state: u64) -> u64 {
    child_bits(state, 0) as u64 | ((child_bits(state, 1) as u64) << 32u64)
}

/// Float bits in `[1, 2)` with the mantissa taken from the state.
pub open spec fn unit_interval_bits(state: u64) -> u32 {
    (low_bits(state) >> 9u32) | 0x3f80_0000u32
}

/// Float bits in `[2, 4)` with the mantissa taken from the state.
pub open spec fn symmetric_bits(state: u64) -> u32 {
    (low_bits(state) >> 9u32) | 0x4000_0000u32
}

/// The state reached from the root of `seed` by splitting along `path`.
pub open spec fn node_at(seed: u64, path: Seq<usize>) -> u64
    decreases path.len(),
{
    if path.len() == 0 {
        root_state(seed)
    } else {
        child_state(node_at(seed, path.drop_last()), path.last())
    }
}

/// A node of the splittable generator: an immutable 64-bit state.
pub struct Rng(pub u64);

impl Rng {
    /// A root node; the seed is salted and mixed twice so that poor seeds
    /// such as 0 give well-spread states.
    pub fn new(seed: u64) -> (r: Rng)
        ensures
            r.0 == root_state(seed),
    {
        let mut v = seed;
        v = v ^ 0xa0a50dc04975f3e1u64;
        v = hash(v, 0xa09be7c64159c602u64);
        v = hash(v, 0xf2896bf886621af5u64);
        Rng(v)
    }

    /// The child of this node under split index `idx`; the node itself is
    /// left as it is.
    pub fn sub(&self, idx: usize) -> (r: Rng)
        ensures
            r.0 == child_state(self.0, idx),
    {
        Rng(hash(self.0, (idx as u64) | SPLIT_TAG))
    }

    /// The low 32 bits of the state.
    pub fn u32(&self) -> (r: u32)
        ensures
            r == low_bits(self.0),
    {
        self.0 as u32
    }

    /// The IEEE-754 single-precision bits of a float in `[1, 2)` whose 23
    /// mantissa bits are the top 23 of the low 32 bits of the state;
    /// subtracting 1.0 from it gives a uniform value in `[0, 1)`.
    pub fn uval_bits(&self) -> (r: u32)
        ensures
            r == unit_interval_bits(self.0),
            r >> 23u32 == 0x7fu32,
    {
        let r = self.u32();
        let v = (r >> 9u32) | 0x3f80_0000u32;
        assert(((r >> 9u32) | 0x3f80_0000u32) >> 23u32 == 0x7fu32) by (bit_vector);
        v
    }

    /// The IEEE-754 single-precision bits of a float in `[2, 4)` whose 23
    /// mantissa bits are the top 23 of the low 32 bits of the state;
    /// subtracting 3.0 from it gives a uniform value in `[-1, 1)`.
    pub fn sval_bits(&self) -> (r: u32)
        ensures
            r == symmetric_bits(self.0),
            r >> 23u32 == 0x80u32,
    {
        let r = self.u32();
        let v = (r >> 9u32) | 0x4000_0000u32;
        assert(((r >> 9u32) | 0x4000_0000u32) >> 23u32 == 0x80u32) by (bit_vector);
        v
    }

    /// A value of `T` drawn from this node.
    pub fn get<T: Rand>(&self) -> (r: T)
        ensures
            r == T::draw(self.0),
    {
        T::gen(self)
    }

    /// A value of `T` drawn uniformly from `r`, which must not be empty.
    pub fn range<T: RandRange>(&self, r: Range<T>) -> (x: T)
        requires
            T::nonempty(r.start, r.end),
        ensures
            x == T::draw_in(self.0, r.start, r.end),
    {
        T::range(self, r)
    }

    /// A value of `T` on the unit sphere drawn from this node.
    pub fn unit<T: RandUnit>(&self) -> T {
        T::unit(self)
    }
}

/// Types that can be drawn from a node.
pub trait Rand: Sized {
    /// The value drawn from a node with the given state.
    spec fn draw(state: u64) -> Self;

    fn gen(rng: &Rng) -> (r: Self)
        ensures
            r == Self::draw(rng.0),
    ;
}

/// Types that can be drawn uniformly from a half-open range.
pub trait RandRange: Sized {
    /// Whether `start..end` holds at least one value.
    spec fn nonempty(start: Self, end: Self) -> bool;

    /// The value drawn from `start..end` by a node with the given state.
    spec fn draw_in(state: u64, start: Self, end: Self) -> Self;

    fn range(rng: &Rng, r: Range<Self>) -> (x: Self)
        requires
            Self::nonempty(r.start, r.end),
        ensures
            x == Self::draw_in(rng.0, r.start, r.end),
    ;
}

/// Vector types that can be drawn from the unit sphere.
pub trait RandUnit: Sized {
    fn unit(rng: &Rng) -> Self;
}

/// The first of the 32-bit draws of children `i`, `i + 1`, ... that lies
/// below `bound` (the last child's draw if none does).
pub open spec fn accepted_u32(state: u64, bound: u32, i: usize) -> u32
    decreases usize::MAX - i,
{
    let x = child_bits(state, i);
    if x < bound || i == usize::MAX {
        x
    } else {
        accepted_u32(state, bound, (i + 1) as usize)
    }
}

/// The first of the 64-bit draws of children `i`, `i + 1`, ... that lies
/// below `bound` (the last child's draw if none does).
pub open spec fn accepted_u64(state: u64, bound: u64, i: usize) -> u64
    decreases usize::MAX - i,
{
    let x = wide_bits(child_state(state, i));
    if x < bound || i == usize::MAX {
        x
    } else {
        accepted_u64(state, bound, (i + 1) as usize)
    }
}

/// The largest multiple of `len` that a `u32` holds, below which draws are
/// free of modulo bias.
pub open spec fn bound_u32(len: u32) -> u32 {
    ((0xFFFF_FFFFu32 / len) * len) as u32
}

/// The largest multiple of `len` that a `u64` holds, below which draws are
/// free of modulo bias.
pub open spec fn bound_u64(len: u64) -> u64 {
    ((0xFFFF_FFFF_FFFF_FFFFu64 / len) * len) as u64
}

impl Rand for u32 {
    open spec fn draw(state: u64) -> u32 {
        low_bits(state)
    }

    fn gen(rng: &Rng) -> (r: u32) {
        rng.u32()
    }
}

impl RandRange for u32 {
    open spec fn nonempty(start: u32, end: u32) -> bool {
        start < end
    }

    open spec fn draw_in(state: u64, start: u32, end: u32) -> u32 {
        let len = (end - start) as u32;
        (accepted_u32(state, bound_u32(len), 0) % len + start) as u32
    }

    fn range(rng: &Rng, r: Range<u32>) -> (x: u32) {
        let len = r.end - r.start;
        let bins = 0xFFFF_FFFFu32 / len;
        assert(bins * len <= 0xFFFF_FFFFu32) by (nonlinear_arith)
            requires
                bins == 0xFFFF_FFFFu32 / len,
                len > 0,
        ;
        let max_valid = bins * len;
        let mut i: usize = 0;
        let mut x = rng.sub(0).u32();
        while x >= max_valid && i < usize::MAX
            invariant
                x == child_bits(rng.0, i),
                accepted_u32(rng.0, max_valid, i) == accepted_u32(rng.0, max_valid, 0),
            decreases usize::MAX - i,
        {
            i = i + 1;
            x = rng.sub(i).u32();
        }
        x % len + r.start
    }
}

impl Rand for u64 {
    open spec fn draw(state: u64) -> u64 {
        wide_bits(state)
    }

    fn gen(rng: &Rng) -> (r: u64) {
        let low = rng.sub(0).u32() as u64;
        let hi = rng.sub(1).u32() as u64;
        low | (hi << 32u64)
    }
}

impl RandRange for u64 {
    open spec fn nonempty(start: u64, end: u64) -> bool {
        start < end
    }

    open spec fn draw_in(state: u64, start: u64, end: u64) -> u64 {
        let len = (end - start) as u64;
        (accepted_u64(state, bound_u64(len), 0) % len + start) as u64
    }

    fn range(rng: &Rng, r: Range<u64>) -> (x: u64) {
        let len = r.end - r.start;
        let bins = 0xFFFF_FFFF_FFFF_FFFFu64 / len;
        assert(bins * len <= 0xFFFF_FFFF_FFFF_FFFFu64) by (nonlinear_arith)
            requires
                bins == 0xFFFF_FFFF_FFFF_FFFFu64 / len,
                len > 0,
        ;
        let max_valid = bins * len;
        let mut i: usize = 0;
        let mut x: u64 = rng.sub(0).get();
        while x >= max_valid && i < usize::MAX
            invariant
                x == wide_bits(child_state(rng.0, i)),
                accepted_u64(rng.0, max_valid, i) == accepted_u64(rng.0, max_valid, 0),
            decreases usize::MAX - i,
        {
            i = i + 1;
            x = rng.sub(i).get();
        }
        x % len + r.start
    }
}

impl Rand for usize {
    open spec fn draw(state: u64) -> usize {
        wide_bits(state) as usize
    }

    fn gen(rng: &Rng) -> (r: usize) {
        let v: u64 = rng.get();
        v as usize
    }
}

impl RandRange for usize {
    open spec fn nonempty(start: usize, end: usize) -> bool {
        start < end
    }

    open spec fn draw_in(state: u64, start: usize, end: usize) -> usize {
        <u64 as RandRange>::draw_in(state, start as u64, end as u64) as usize
    }

    fn range(rng: &Rng, r: Range<usize>) -> (x: usize) {
        let v: u64 = rng.range((r.start as u64)..(r.end as u64));
        v as usize
    }
}

/// A node is addressed by its root seed and split path alone: the root is
/// the node of the empty path, and splitting the node of a path by `idx`
/// gives the node of that path extended by `idx`. As every draw is a
/// function of the state, draws along a fixed seed and path repeat exactly.
pub proof fn lemma_node_determined(seed: u64, path: Seq<usize>, idx: usize)
    ensures
        node_at(seed, Seq::empty()) == root_state(seed),
        node_at(seed, path.push(idx)) == child_state(node_at(seed, path), idx),
{
    assert(path.push(idx).drop_last() =~= path);
}

/// The fold of the high half into the low half loses nothing.
proof fn lemma_fold_high_injective(x: u64, y: u64)
    requires
        fold_high(x) == fold_high(y),
    ensures
        x == y,
{
    assert(x ^ (x >> 32u64) == y ^ (y >> 32u64) ==> x == y) by (bit_vector);
}

/// Multiplication by the odd `MIX_MUL` modulo 2^64 loses nothing.
proof fn lemma_scramble_injective(x: u64, y: u64)
    requires
        scramble(x) == scramble(y),
    ensures
        x == y,
{
    let m: int = 0x1_0000_0000_0000_0000;
    let inv: int = 0xcc13a4cca7455a5d;
    let k: int = 14037582882515553924;
    assert(MIX_MUL as int * inv == 1 + k * m);
    let a = x as int * MIX_MUL as int;
    let b = y as int * MIX_MUL as int;
    assert(a % m == b % m);
    vstd::arithmetic::div_mod::lemma_mul_mod_noop_left(a, inv, m);
    vstd::arithmetic::div_mod::lemma_mul_mod_noop_left(b, inv, m);
    assert(a * inv == x as int + (x as int * k) * m) by (nonlinear_arith)
        requires
            a == x as int * MIX_MUL as int,
            MIX_MUL as int * inv == 1 + k * m,
    ;
    assert(b * inv == y as int + (y as int * k) * m) by (nonlinear_arith)
        requires
            b == y as int * MIX_MUL as int,
            MIX_MUL as int * inv == 1 + k * m,
    ;
    vstd::arithmetic::div_mod::lemma_mod_multiples_vanish(x as int * k, x as int, m);
    vstd::arithmetic::div_mod::lemma_mod_multiples_vanish(y as int * k, y as int, m);
    vstd::arithmetic::div_mod::lemma_small_mod(x as nat, m as nat);
    vstd::arithmetic::div_mod::lemma_small_mod(y as nat, m as nat);
}

/// For a fixed state, the mix is a bijection on indices.
pub proof fn lemma_mix_injective(cur: u64, i: u64, j: u64)
    requires
        i != j,
    ensures
        mix(cur, i) != mix(cur, j),
{
    if mix(cur, i) == mix(cur, j) {
        lemma_fold_high_injective(
            scramble(fold_high(i ^ cur) ^ cur),
            scramble(fold_high(j ^ cur) ^ cur),
        );
        lemma_scramble_injective(fold_high(i ^ cur) ^ cur, fold_high(j ^ cur) ^ cur);
        assert((fold_high(i ^ cur) ^ cur) ^ cur == fold_high(i ^ cur)) by (bit_vector);
        assert((fold_high(j ^ cur) ^ cur) ^ cur == fold_high(j ^ cur)) by (bit_vector);
        lemma_fold_high_injective(i ^ cur, j ^ cur);
        assert((i ^ cur) ^ cur == i) by (bit_vector);
        assert((j ^ cur) ^ cur == j) by (bit_vector);
    }
}

/// Two distinct split indices below the split tag give two distinct
/// children of the same node.
pub proof fn lemma_children_distinct(parent: Rng, i: usize, j: usize)
    requires
        i != j,
        i < SPLIT_TAG,
        j < SPLIT_TAG,
    ensures
        child_state(parent.0, i) != child_state(parent.0, j),
{
    let a = i as u64;
    let b = j as u64;
    assert(a < 0x0400_0000_0000_0000u64 && b < 0x0400_0000_0000_0000u64 && a != b ==> (a
        | 0x0400_0000_0000_0000u64) != (b | 0x0400_0000_0000_0000u64)) by (bit_vector);
    lemma_mix_injective(parent.0, a | SPLIT_TAG, b | SPLIT_TAG);
}

/// A `u32` drawn from a non-empty range lies in it.
pub proof fn lemma_u32_range_within(state: u64, start: u32, end: u32)
    requires
        start < end,
    ensures
        start <= <u32 as RandRange>::draw_in(state, start, end) < end,
{
}

/// A `u64` drawn from a non-empty range lies in it.
pub proof fn lemma_u64_range_within(state: u64, start: u64, end: u64)
    requires
        start < end,
    ensures
        start <= <u64 as RandRange>::draw_in(state, start, end) < end,
{
}

/// A `usize` drawn from a non-empty range lies in it.
pub proof fn lemma_usize_range_within(state: u64, start: usize, end: usize)
    requires
        start < end,
    ensures
        start <= <usize as RandRange>::draw_in(state, start, end) < end,
{
    lemma_u64_range_within(state, start as u64, end as u64);
}

} // verus!
