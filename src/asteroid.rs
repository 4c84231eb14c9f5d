use vstd::prelude::*;
use vstd::arithmetic::power2::{pow2, lemma2_to64, lemma2_to64_rest, lemma_pow2_unfold, lemma_pow2_strictly_increases};
use rand::Rng;

verus! {

/// The largest size level whose typical radius fits in a `u64`.
pub const MAX_RADIUS_LEVEL: i32 = 60;

/// The fewest shards a broken asteroid splits into.
pub const MIN_SHARDS: i32 = 2;

/// The most shards a broken asteroid splits into.
pub const MAX_SHARDS: i32 = 4;

/// The smallest size level of an asteroid that enters the field.
pub const MIN_SPAWN_LEVEL: i32 = 1;

/// The largest size level of an asteroid that enters the field.
pub const MAX_SPAWN_LEVEL: i32 = 4;

/// The number of asteroids the field is kept filled to, unless set otherwise.
pub const DEFAULT_ASTEROID_COUNT: usize = 100;

/// Relies on `rand::thread_rng` and `Rng::gen_range` over an inclusive range:
/// the value drawn lies between the two bounds, both included. The range is
/// never empty, so the call does not panic.
#[verifier::external_body]
fn random_between(low: i32, high: i32) -> (r: i32)
    requires
        low <= high,
    ensures
        low <= r <= high,
{
    rand::thread_rng().gen_range(low..=high)
}

/// The size of an asteroid: the radius doubles and the health grows with the
/// square from one level to the next. A level is always positive.
pub struct AsteroidSizeLevel {
    level: i32,
}

impl View for AsteroidSizeLevel {
    type V = int;

    closed spec fn view(&self) -> int {
        self.level as int
    }
}

impl AsteroidSizeLevel {
    #[verifier::type_invariant]
    spec fn positive(self) -> bool {
        0 < self.level
    }

    /// A size level; levels start at one.
    pub fn new(level: i32) -> (r: Self)
        requires
            0 < level,
        ensures
            r@ == level,
    {
        AsteroidSizeLevel { level }
    }

    pub fn level(&self) -> (r: i32)
        ensures
            r == self@,
            0 < r,
    {
        proof {
            use_type_invariant(self);
        }
        self.level
    }

    /// The radius an asteroid of this size is drawn and collides at: two to the
    /// power of the level plus three.
    pub fn typical_radius(&self) -> (r: u64)
        requires
            self@ <= MAX_RADIUS_LEVEL,
        ensures
            r == pow2((self@ + 3) as nat),
    {
        proof {
            use_type_invariant(self);
            lemma2_to64();
        }
        let mut r: u64 = 8;
        let mut i: i32 = 0;
        while i < self.level
            invariant
                0 <= i <= self.level <= MAX_RADIUS_LEVEL,
                r == pow2((i + 3) as nat),
            decreases self.level - i,
        {
            proof {
                lemma_pow2_unfold((i + 4) as nat);
                if i + 4 < 64 {
                    lemma_pow2_strictly_increases((i + 4) as nat, 64);
                }
                lemma2_to64_rest();
            }
            r = r * 2;
            i = i + 1;
        }
        r
    }

    /// The health an asteroid of this size starts with: one hundred times the
    /// square of the level.
    pub fn max_health(&self) -> (r: u128)
        ensures
            r == 100 * self@ * self@,
    {
        proof {
            use_type_invariant(self);
            assert(0 <= self.level * self.level <= 0x7fff_ffff * 0x7fff_ffff) by (nonlinear_arith)
                requires
                    0 < self.level <= 0x7fff_ffff,
            ;
        }
        let l = self.level as u128;
        proof {
            assert(100 * (l * l) == 100 * self@ * self@) by (nonlinear_arith)
                requires
                    l == self@,
            ;
        }
        100 * (l * l)
    }

    /// The shards this asteroid breaks into when destroyed, given how many
    /// pieces it splits into: that many asteroids one level smaller, or none at
    /// all when it is already of the smallest level.
    pub fn split(&self, shard_count: usize) -> (r: Vec<AsteroidSizeLevel>)
        ensures
            self@ <= 1 ==> r@.len() == 0,
            1 < self@ ==> r@.len() == shard_count,
            forall|i: int| 0 <= i < r@.len() ==> #[trigger] r@[i]@ == self@ - 1,
    {
        proof {
            use_type_invariant(self);
        }
        let mut shards: Vec<AsteroidSizeLevel> = Vec::new();
        if self.level <= 1 {
            return shards;
        }
        let mut n: usize = 0;
        while n < shard_count
            invariant
                1 < self.level,
                n <= shard_count,
                shards@.len() == n,
                forall|i: int| 0 <= i < shards@.len() ==> #[trigger] shards@[i]@ == self@ - 1,
            decreases shard_count - n,
        {
            shards.push(AsteroidSizeLevel::new(self.level - 1));
            n = n + 1;
        }
        shards
    }

    /// Breaks a destroyed asteroid apart: between two and four shards one level
    /// smaller, how many being drawn at random; none for the smallest level.
    pub fn split_at_random(&self) -> (r: Vec<AsteroidSizeLevel>)
        ensures
            self@ <= 1 ==> r@.len() == 0,
            1 < self@ ==> MIN_SHARDS <= r@.len() <= MAX_SHARDS,
            forall|i: int| 0 <= i < r@.len() ==> #[trigger] r@[i]@ == self@ - 1,
    {
        if self.level() <= 1 {
            return Vec::new();
        }
        let count = random_between(MIN_SHARDS, MAX_SHARDS);
        self.split(count as usize)
    }
}

/// The number of asteroids the field is kept filled to.
pub struct AsteroidCount {
    target: usize,
}

impl Default for AsteroidCount {
    fn default() -> (r: AsteroidCount)
        ensures
            r@ == DEFAULT_ASTEROID_COUNT,
    {
        AsteroidCount { target: DEFAULT_ASTEROID_COUNT }
    }
}

impl View for AsteroidCount {
    type V = usize;

    closed spec fn view(&self) -> usize {
        self.target
    }
}

impl AsteroidCount {
    /// Whether another asteroid must enter a field that holds `spawned` of them.
    pub fn needs_more(&self, spawned: usize) -> (r: bool)
        ensures
            r == (spawned < self@),
    {
        spawned < self.target
    }

    /// The size of the asteroid that enters a field holding `spawned` of them,
    /// drawn at random between the smallest and largest spawn levels; `None`
    /// when the field is full.
    pub fn spawn_level(&self, spawned: usize) -> (r: Option<AsteroidSizeLevel>)
        ensures
            r.is_some() == (spawned < self@),
            r matches Some(l) ==> MIN_SPAWN_LEVEL <= l@ <= MAX_SPAWN_LEVEL,
    {
        if !self.needs_more(spawned) {
            return None;
        }
        let level = random_between(MIN_SPAWN_LEVEL, MAX_SPAWN_LEVEL);
        Some(AsteroidSizeLevel::new(level))
    }
}

} // verus!
