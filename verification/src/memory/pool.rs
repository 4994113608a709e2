//! Pools of reusable Luau objects, by object type.

use vstd::prelude::*;
use crate::keyed::{
    find_key,
    key_index,
    keyed_map,
    keys_unique,
    lemma_key_index,
    lemma_keyed_map,
    lemma_put,
    put,
    put_spec,
};

verus! {

/// An object handed out by a pool.
#[derive(Debug, Clone)]
pub struct PooledObject {
    /// Type of the object (e.g., "table", "array")
    pub object_type: String,
    /// Size of the object in bytes
    pub size: usize,
    /// Number of times this object has been reused
    pub reuse_count: usize,
}

/// The pool of one object type.
#[derive(Debug)]
pub struct Pool {
    /// Released objects waiting to be reused, oldest first
    pub available: Vec<PooledObject>,
    /// Maximum size of this pool
    pub max_size: usize,
    /// Number of objects currently in use
    pub in_use: usize,
    /// Size of each object in this pool
    pub object_size: usize,
}

/// Statistics of a set of pools.
#[derive(Debug, Clone, Copy)]
pub struct PoolStats {
    /// Objects created
    pub total_allocations: usize,
    /// Objects handed out again from a pool
    pub total_reuses: usize,
    /// The most memory in use at once
    pub peak_memory: usize,
    /// Memory of the objects in use
    pub current_memory: usize,
}

/// How pools are sized and grown.
#[derive(Debug)]
pub struct PoolConfig {
    /// Maximum size for each pool type, each type once
    pub max_pool_sizes: Vec<(String, usize)>,
    /// Whether to grow pools dynamically
    pub dynamic_growth: bool,
    /// Growth factor when pools are full, in percent (150 grows by half)
    pub growth_factor_percent: usize,
    /// Maximum memory allowed for all pools
    pub max_total_memory: usize,
}

/// Memory pool for reusing Luau tables and other objects
#[derive(Debug)]
pub struct ObjectPool {
    pools: Vec<(String, Pool)>,
    stats: PoolStats,
    config: PoolConfig,
}

impl Clone for PoolConfig {
    fn clone(&self) -> (r: Self)
        ensures
            r.max_pool_sizes@ == self.max_pool_sizes@,
            r.dynamic_growth == self.dynamic_growth,
            r.growth_factor_percent == self.growth_factor_percent,
            r.max_total_memory == self.max_total_memory,
    {
        let mut sizes: Vec<(String, usize)> = Vec::new();
        let mut i: usize = 0;
        while i < self.max_pool_sizes.len()
            invariant
                i <= self.max_pool_sizes@.len(),
                sizes@ == self.max_pool_sizes@.take(i as int),
            decreases self.max_pool_sizes@.len() - i,
        {
            sizes.push((self.max_pool_sizes[i].0.clone(), self.max_pool_sizes[i].1));
            proof {
                assert(sizes@ =~= self.max_pool_sizes@.take(i + 1));
            }
            i = i + 1;
        }
        proof {
            assert(self.max_pool_sizes@.take(self.max_pool_sizes@.len() as int) =~= self.max_pool_sizes@);
        }
        PoolConfig {
            max_pool_sizes: sizes,
            dynamic_growth: self.dynamic_growth,
            growth_factor_percent: self.growth_factor_percent,
            max_total_memory: self.max_total_memory,
        }
    }
}

/// The size a pool of `size` grows to by `percent`: the product, rounded
/// down, and at most `usize::MAX`.
pub open spec fn grown(size: usize, percent: usize) -> usize {
    if size * percent / 100 > usize::MAX {
        usize::MAX
    } else {
        (size * percent / 100) as usize
    }
}

/// The size a pool of `size` grows to by `percent`.
pub fn grow(size: usize, percent: usize) -> (r: usize)
    ensures
        r == grown(size, percent),
{
    let a = size as u128;
    let b = percent as u128;
    assert(a * b <= 0xffff_ffff_ffff_ffff_ffff_ffff_ffff_ffffu128) by (nonlinear_arith)
        requires
            a <= 0xffff_ffff_ffff_ffffu128,
            b <= 0xffff_ffff_ffff_ffffu128,
    ;
    let g = a * b / 100;
    if g > usize::MAX as u128 {
        usize::MAX
    } else {
        g as usize
    }
}

/// The total size of a sequence of objects.
pub open spec fn sizes_sum(objs: Seq<PooledObject>) -> nat
    decreases objs.len(),
{
    if objs.len() == 0 {
        0
    } else {
        sizes_sum(objs.drop_last()) + objs.last().size as nat
    }
}

/// Whether optimizing grows a pool of maximum `max` with `in_use` objects
/// in use: it is full, and objects are reused more often than created.
pub open spec fn grows_at(max: usize, in_use: usize, s: PoolStats) -> bool {
    in_use == max && s.total_reuses > s.total_allocations
}

/// The maximum once grown where the pool grows.
pub open spec fn grown_max_at(max: usize, in_use: usize, s: PoolStats, percent: usize) -> usize {
    if grows_at(max, in_use, s) {
        grown(max, percent)
    } else {
        max
    }
}

/// Whether optimizing shrinks the pool: under a quarter of its maximum is
/// in use, and the maximum is above ten.
pub open spec fn shrinks_at(max: usize, in_use: usize, s: PoolStats, percent: usize) -> bool {
    let m = grown_max_at(max, in_use, s, percent);
    in_use < m / 4 && m > 10
}

/// The maximum after optimizing: halved where the pool shrinks.
pub open spec fn final_max_at(max: usize, in_use: usize, s: PoolStats, percent: usize) -> usize {
    if shrinks_at(max, in_use, s, percent) {
        (grown_max_at(max, in_use, s, percent) / 2) as usize
    } else {
        grown_max_at(max, in_use, s, percent)
    }
}

/// The total size of the available objects `avail` the pool drops when
/// optimized: where it shrinks, those past the new maximum.
pub open spec fn trimmed_at(avail: Seq<PooledObject>, max: usize, in_use: usize, s: PoolStats, percent: usize) -> nat {
    let m = final_max_at(max, in_use, s, percent);
    if shrinks_at(max, in_use, s, percent) && avail.len() > m {
        sizes_sum(avail.skip(m as int))
    } else {
        0
    }
}

/// Whether optimizing grows pool `p`.
pub open spec fn grows(p: Pool, s: PoolStats) -> bool {
    grows_at(p.max_size, p.in_use, s)
}

/// Whether optimizing shrinks pool `p`.
pub open spec fn shrinks(p: Pool, s: PoolStats, percent: usize) -> bool {
    shrinks_at(p.max_size, p.in_use, s, percent)
}

/// The maximum size of `p` after optimizing.
pub open spec fn final_max(p: Pool, s: PoolStats, percent: usize) -> usize {
    final_max_at(p.max_size, p.in_use, s, percent)
}

/// The objects `p` keeps after optimizing: where it shrinks, those past the
/// new maximum are dropped from the end.
pub open spec fn kept(p: Pool, s: PoolStats, percent: usize) -> Seq<PooledObject> {
    if shrinks(p, s, percent) && p.available@.len() > final_max(p, s, percent) {
        p.available@.take(final_max(p, s, percent) as int)
    } else {
        p.available@
    }
}

/// The total size of the objects `p` drops when optimized.
pub open spec fn trimmed(p: Pool, s: PoolStats, percent: usize) -> nat {
    trimmed_at(p.available@, p.max_size, p.in_use, s, percent)
}

/// The total size the pools `pools` drop when optimized.
pub open spec fn total_trimmed(pools: Seq<(String, Pool)>, s: PoolStats, percent: usize) -> nat
    decreases pools.len(),
{
    if pools.len() == 0 {
        0
    } else {
        total_trimmed(pools.drop_last(), s, percent) + trimmed(pools.last().1, s, percent)
    }
}

/// `total_trimmed` with the pool at index `i` holding `avail` and
/// `in_use` in place of its own.
pub open spec fn total_trimmed_replacing(
    pools: Seq<(String, Pool)>,
    i: int,
    avail: Seq<PooledObject>,
    in_use: usize,
    s: PoolStats,
    percent: usize,
) -> nat
    decreases pools.len(),
{
    if pools.len() == 0 {
        0
    } else {
        let k = pools.len() - 1;
        let last = if k == i {
            trimmed_at(avail, pools.last().1.max_size, in_use, s, percent)
        } else {
            trimmed(pools.last().1, s, percent)
        };
        total_trimmed_replacing(pools.drop_last(), i, avail, in_use, s, percent) + last
    }
}

/// The configured sizes after optimizing `pools`: each pool that grows or
/// shrinks records its new maximum.
pub open spec fn resized(sizes: Map<Seq<char>, usize>, pools: Seq<(String, Pool)>, s: PoolStats, percent: usize) -> Map<
    Seq<char>,
    usize,
>
    decreases pools.len(),
{
    if pools.len() == 0 {
        sizes
    } else {
        let before = resized(sizes, pools.drop_last(), s, percent);
        let p = pools.last().1;
        if grows(p, s) || shrinks(p, s, percent) {
            before.insert(pools.last().0@, final_max(p, s, percent))
        } else {
            before
        }
    }
}

/// Whether `after`, with the object `r`, is what acquiring an object of
/// type `t` and `size` from `before` gives.
pub open spec fn acquired(before: ObjectPool, after: ObjectPool, object_type: Seq<char>, size: usize, r: PooledObject) -> bool {
    &&& after.wf()
    &&& after.configured_sizes() == before.configured_sizes()
    &&& after.dynamic_growth() == before.dynamic_growth()
    &&& after.growth_percent() == before.growth_percent()
    &&& ({
        let t = object_type;
        let avail = before.available_of(t);
        let p = after.pool_map()[t];
        let s0 = before.stats();
        let s1 = after.stats();
        &&& after.pool_map() == before.pool_map().insert(t, p)
        &&& p.object_size == before.object_size_of(t, size)
        &&& if avail.len() > 0 {
            &&& r.object_type == avail[0].object_type
            &&& r.size == avail[0].size
            &&& r.reuse_count == avail[0].reuse_count + 1
            &&& p.available@ == avail.drop_first()
            &&& p.in_use == before.in_use_of(t) + 1
            &&& p.max_size == before.max_of(t)
            &&& s1.total_allocations == s0.total_allocations
            &&& s1.total_reuses == s0.total_reuses + 1
            &&& s1.current_memory == s0.current_memory + avail[0].size
            &&& s1.peak_memory == (if s1.current_memory > s0.peak_memory {
                s1.current_memory
            } else {
                s0.peak_memory
            })
        } else {
            &&& r.object_type@ == t
            &&& r.size == size
            &&& r.reuse_count == 0
            &&& p.available@.len() == 0
            &&& s1.total_allocations == s0.total_allocations + 1
            &&& s1.total_reuses == s0.total_reuses
            &&& if before.in_use_of(t) < before.max_of(t) || before.dynamic_growth() {
                &&& p.in_use == before.in_use_of(t) + 1
                &&& p.max_size == (if before.dynamic_growth() && p.in_use >= before.max_of(t) {
                    grown(before.max_of(t), before.growth_percent())
                } else {
                    before.max_of(t)
                })
                &&& s1.current_memory == s0.current_memory + size
                &&& s1.peak_memory == (if s1.current_memory > s0.peak_memory {
                    s1.current_memory
                } else {
                    s0.peak_memory
                })
            } else {
                &&& p.in_use == before.in_use_of(t)
                &&& p.max_size == before.max_of(t)
                &&& s1.current_memory == s0.current_memory
                &&& s1.peak_memory == s0.peak_memory
            }
        }
    })
}

/// Whether `after` is what releasing `obj` into `before` gives.
pub open spec fn released(before: ObjectPool, after: ObjectPool, obj: PooledObject) -> bool {
    &&& after.wf()
    &&& after.configured_sizes() == before.configured_sizes()
    &&& after.dynamic_growth() == before.dynamic_growth()
    &&& after.growth_percent() == before.growth_percent()
    &&& ({
        let t = obj.object_type@;
        let s0 = before.stats();
        let s1 = after.stats();
        if before.pool_map().dom().contains(t) && before.pool_map()[t].available@.len()
            < before.pool_map()[t].max_size {
            let p0 = before.pool_map()[t];
            let p = after.pool_map()[t];
            &&& after.pool_map() == before.pool_map().insert(t, p)
            &&& p.available@ == p0.available@.push(obj)
            &&& p.in_use == p0.in_use - 1
            &&& p.max_size == p0.max_size
            &&& p.object_size == p0.object_size
            &&& s1 == (PoolStats { current_memory: (s0.current_memory - obj.size) as usize, ..s0 })
            &&& after.pool_list() == before.pool_list().update(
                key_index(before.pool_list(), t)->0,
                (before.pool_list()[key_index(before.pool_list(), t)->0].0, p),
            )
        } else {
            after.pool_list() == before.pool_list() && s1 == s0
        }
    })
    &&& before.optimize_ok_after_release(obj) ==> after.optimize_ok()
}

/// Whether `after` is what optimizing the pools of `before` gives.
pub open spec fn optimized(before: ObjectPool, after: ObjectPool) -> bool {
    &&& after.wf()
    &&& after.dynamic_growth() == before.dynamic_growth()
    &&& after.growth_percent() == before.growth_percent()
    &&& after.pool_list().len() == before.pool_list().len()
    &&& forall|i: int|
        0 <= i < before.pool_list().len() ==> {
            let p0 = before.pool_list()[i].1;
            let p = (#[trigger] after.pool_list()[i]).1;
            &&& after.pool_list()[i].0 == before.pool_list()[i].0
            &&& p.available@ == kept(p0, before.stats(), before.growth_percent())
            &&& p.max_size == final_max(p0, before.stats(), before.growth_percent())
            &&& p.in_use == p0.in_use
            &&& p.object_size == p0.object_size
        }
    &&& after.stats() == (PoolStats {
        current_memory: (before.stats().current_memory - total_trimmed(
            before.pool_list(),
            before.stats(),
            before.growth_percent(),
        )) as usize,
        ..before.stats()
    })
    &&& after.configured_sizes() == resized(
        before.configured_sizes(),
        before.pool_list(),
        before.stats(),
        before.growth_percent(),
    )
}

/// The peak memory of a set of pools is never below the memory in use:
/// every operation keeps it so.
pub proof fn law_peak_covers_current(pools: ObjectPool)
    requires
        pools.wf(),
    ensures
        pools.stats().peak_memory >= pools.stats().current_memory,
{
}

/// Releasing an object into an empty pool with room, then acquiring an
/// object of its type, hands the same object back, reused once more, and
/// leaves the pool and the memory in use as they were before the release.
pub proof fn law_release_then_acquire(
    a: ObjectPool,
    b: ObjectPool,
    c: ObjectPool,
    obj: PooledObject,
    size: usize,
    r: PooledObject,
)
    requires
        a.wf(),
        a.pool_map().dom().contains(obj.object_type@),
        a.pool_map()[obj.object_type@].available@.len() == 0,
        a.pool_map()[obj.object_type@].max_size > 0,
        a.release_ok(obj),
        released(a, b, obj),
        acquired(b, c, obj.object_type@, size, r),
    ensures
        r.object_type == obj.object_type,
        r.size == obj.size,
        r.reuse_count == obj.reuse_count + 1,
        c.pool_map()[obj.object_type@].available@ == a.pool_map()[obj.object_type@].available@,
        c.pool_map()[obj.object_type@].in_use == a.pool_map()[obj.object_type@].in_use,
        c.pool_map()[obj.object_type@].max_size == a.pool_map()[obj.object_type@].max_size,
        c.stats().current_memory == a.stats().current_memory,
        c.stats().total_reuses == a.stats().total_reuses + 1,
        c.stats().total_allocations == a.stats().total_allocations,
{
    let t = obj.object_type@;
    let p = b.pool_map()[t];
    assert(b.pool_map().dom().contains(t));
    assert(p.available@ == seq![obj]);
    assert(b.available_of(t) == seq![obj]);
    assert(b.available_of(t).drop_first() =~= a.pool_map()[t].available@);
}

/// The Luau object pool module.
pub const POOL_CODE_SRC: &'static str = "local ObjectPool = {\n    pools = {},\n    stats = { total_allocs = 0, total_reuses = 0 },\n}\n\nfunction ObjectPool:acquire(type_name, size)\n    local pool = self.pools[type_name]\n    if not pool then\n        pool = { available = {}, in_use = 0 }\n        self.pools[type_name] = pool\n    end\n\n    if #pool.available > 0 then\n        local obj = table.remove(pool.available)\n        pool.in_use = pool.in_use + 1\n        self.stats.total_reuses = self.stats.total_reuses + 1\n        return obj\n    else\n        pool.in_use = pool.in_use + 1\n        self.stats.total_allocs = self.stats.total_allocs + 1\n        return {}\n    end\nend\n\nfunction ObjectPool:release(obj, type_name)\n    local pool = self.pools[type_name]\n    if pool then\n        -- Clear the object\n        for k in pairs(obj) do obj[k] = nil end\n        table.insert(pool.available, obj)\n        pool.in_use = pool.in_use - 1\n    end\nend\n\nreturn ObjectPool\n";

impl ObjectPool {
    /// No pool type occurs twice, in the pools or in the configured sizes,
    /// and the peak memory is at least the memory in use.
    pub closed spec fn wf(&self) -> bool {
        &&& keys_unique(self.pools@)
        &&& keys_unique(self.config.max_pool_sizes@)
        &&& self.stats.peak_memory >= self.stats.current_memory
    }

    /// The pools in the order their types were first used.
    pub closed spec fn pool_list(&self) -> Seq<(String, Pool)> {
        self.pools@
    }

    /// The pools by type.
    pub open spec fn pool_map(&self) -> Map<Seq<char>, Pool> {
        keyed_map(self.pool_list())
    }

    /// The statistics.
    pub closed spec fn stats(&self) -> PoolStats {
        self.stats
    }

    /// The configured maximum sizes by type.
    pub closed spec fn configured_sizes(&self) -> Map<Seq<char>, usize> {
        keyed_map(self.config.max_pool_sizes@)
    }

    /// Whether pools grow when full.
    pub closed spec fn dynamic_growth(&self) -> bool {
        self.config.dynamic_growth
    }

    /// How much pools grow, in percent.
    pub closed spec fn growth_percent(&self) -> usize {
        self.config.growth_factor_percent
    }

    /// The maximum size a new pool of type `t` gets: the configured one, or
    /// ten.
    pub open spec fn new_pool_max(&self, t: Seq<char>) -> usize {
        if self.configured_sizes().dom().contains(t) {
            self.configured_sizes()[t]
        } else {
            10
        }
    }

    /// The available objects of type `t`.
    pub open spec fn available_of(&self, t: Seq<char>) -> Seq<PooledObject> {
        if self.pool_map().dom().contains(t) {
            self.pool_map()[t].available@
        } else {
            Seq::empty()
        }
    }

    /// The maximum size of the pool of type `t` (of a new one, where there
    /// is none).
    pub open spec fn max_of(&self, t: Seq<char>) -> usize {
        if self.pool_map().dom().contains(t) {
            self.pool_map()[t].max_size
        } else {
            self.new_pool_max(t)
        }
    }

    /// The objects of type `t` in use.
    pub open spec fn in_use_of(&self, t: Seq<char>) -> usize {
        if self.pool_map().dom().contains(t) {
            self.pool_map()[t].in_use
        } else {
            0
        }
    }

    /// The object size of the pool of type `t` (`size` for a new one).
    pub open spec fn object_size_of(&self, t: Seq<char>, size: usize) -> usize {
        if self.pool_map().dom().contains(t) {
            self.pool_map()[t].object_size
        } else {
            size
        }
    }

    /// Whether acquiring an object of type `t` and `size` keeps every
    /// count within `usize`.
    pub open spec fn acquire_fits(&self, t: Seq<char>, size: usize) -> bool {
        let avail = self.available_of(t);
        &&& self.stats().total_allocations < usize::MAX
        &&& if avail.len() > 0 {
            &&& avail[0].reuse_count < usize::MAX
            &&& self.in_use_of(t) < usize::MAX
            &&& self.stats().total_reuses < usize::MAX
            &&& self.stats().current_memory + avail[0].size <= usize::MAX
        } else {
            &&& self.in_use_of(t) < usize::MAX
            &&& self.stats().current_memory + size <= usize::MAX
        }
    }

    /// Whether optimizing the pools keeps the memory count from going below
    /// zero: the objects they drop are worth no more than it.
    pub open spec fn optimize_ok(&self) -> bool {
        total_trimmed(self.pool_list(), self.stats(), self.growth_percent()) <= self.stats().current_memory
    }

    /// Whether, once `obj` is released, optimizing the pools keeps the
    /// memory count from going below zero.
    pub open spec fn optimize_ok_after_release(&self, obj: PooledObject) -> bool {
        let t = obj.object_type@;
        if self.pool_map().dom().contains(t) && self.pool_map()[t].available@.len()
            < self.pool_map()[t].max_size {
            let i = key_index(self.pool_list(), t)->0;
            let s1 = PoolStats {
                current_memory: (self.stats().current_memory - obj.size) as usize,
                ..self.stats()
            };
            total_trimmed_replacing(
                self.pool_list(),
                i,
                self.pool_map()[t].available@.push(obj),
                (self.pool_map()[t].in_use - 1) as usize,
                s1,
                self.growth_percent(),
            ) <= s1.current_memory
        } else {
            self.optimize_ok()
        }
    }

    /// Whether releasing `obj` keeps every count from going below zero:
    /// where its pool has room, something is in use and the memory count
    /// holds its size.
    pub open spec fn release_ok(&self, obj: PooledObject) -> bool {
        let t = obj.object_type@;
        self.pool_map().dom().contains(t) && self.pool_map()[t].available@.len()
            < self.pool_map()[t].max_size ==> self.pool_map()[t].in_use >= 1
            && self.stats().current_memory >= obj.size
    }

    /// Empty pools with the given configuration.
    pub fn new(config: PoolConfig) -> (r: Self)
        requires
            keys_unique(config.max_pool_sizes@),
        ensures
            r.wf(),
            r.pool_list().len() == 0,
            r.stats() == (PoolStats {
                total_allocations: 0,
                total_reuses: 0,
                peak_memory: 0,
                current_memory: 0,
            }),
            r.configured_sizes() == keyed_map(config.max_pool_sizes@),
            r.dynamic_growth() == config.dynamic_growth,
            r.growth_percent() == config.growth_factor_percent,
    {
        ObjectPool {
            pools: Vec::new(),
            stats: PoolStats { total_allocations: 0, total_reuses: 0, peak_memory: 0, current_memory: 0 },
            config,
        }
    }

    /// The index of the pool of type `t`, made (empty, with the configured
    /// maximum, and objects of `size`) where there is none.
    fn pool_index(&mut self, t: &str, size: usize) -> (i: usize)
        requires
            old(self).wf(),
        ensures
            final(self).wf(),
            i < final(self).pools@.len(),
            final(self).pools@[i as int].0@ == t@,
            final(self).pool_map() == old(self).pool_map().insert(t@, final(self).pools@[i as int].1),
            final(self).pools@[i as int].1.available@ == old(self).available_of(t@),
            final(self).pools@[i as int].1.max_size == old(self).max_of(t@),
            final(self).pools@[i as int].1.in_use == old(self).in_use_of(t@),
            final(self).pools@[i as int].1.object_size == old(self).object_size_of(t@, size),
            final(self).stats == old(self).stats,
            final(self).config == old(self).config,
    {
        proof {
            lemma_keyed_map(self.pools@, t@);
            lemma_key_index(self.pools@, t@);
        }
        match find_key(&self.pools, t) {
            Some(i) => {
                proof {
                    assert(self.pool_map().insert(t@, self.pools@[i as int].1) =~= self.pool_map());
                }
                i
            },
            None => {
                proof {
                    lemma_keyed_map(self.config.max_pool_sizes@, t@);
                    lemma_key_index(self.config.max_pool_sizes@, t@);
                }
                let max_size = match find_key(&self.config.max_pool_sizes, t) {
                    Some(k) => self.config.max_pool_sizes[k].1,
                    None => 10,
                };
                let pool = Pool { available: Vec::new(), max_size, in_use: 0, object_size: size };
                let key = String::from_str(t);
                proof {
                    lemma_put(self.pools@, key, pool);
                    assert(put_spec(self.pools@, key, pool) == self.pools@.push((key, pool)));
                }
                self.pools.push((key, pool));
                self.pools.len() - 1
            },
        }
    }

    /// Get an object from the pool or create a new one: a released object
    /// of the type is reused first; else a new one is made, counted in use
    /// while the pool has room or grows, and not counted where it is full.
    /// A reused or counted object adds its size to the memory in use.
    pub fn acquire(&mut self, object_type: &str, size: usize) -> (r: PooledObject)
        requires
            old(self).wf(),
            old(self).acquire_fits(object_type@, size),
        ensures
            acquired(*old(self), *final(self), object_type@, size, r),
    {
        let i = self.pool_index(object_type, size);
        let ghost mid = self.pools@;
        let (key, mut pool) = self.pools.remove(i);
        let obj;
        if pool.available.len() > 0 {
            let mut o = pool.available.remove(0);
            o.reuse_count = o.reuse_count + 1;
            pool.in_use = pool.in_use + 1;
            self.stats.total_reuses = self.stats.total_reuses + 1;
            self.stats.current_memory = self.stats.current_memory + o.size;
            if self.stats.current_memory > self.stats.peak_memory {
                self.stats.peak_memory = self.stats.current_memory;
            }
            obj = o;
        } else if pool.in_use < pool.max_size || self.config.dynamic_growth {
            pool.in_use = pool.in_use + 1;
            self.stats.total_allocations = self.stats.total_allocations + 1;
            self.stats.current_memory = self.stats.current_memory + size;
            if self.stats.current_memory > self.stats.peak_memory {
                self.stats.peak_memory = self.stats.current_memory;
            }
            if self.config.dynamic_growth && pool.in_use >= pool.max_size {
                pool.max_size = grow(pool.max_size, self.config.growth_factor_percent);
            }
            obj = PooledObject { object_type: String::from_str(object_type), size, reuse_count: 0 };
        } else {
            self.stats.total_allocations = self.stats.total_allocations + 1;
            obj = PooledObject { object_type: String::from_str(object_type), size, reuse_count: 0 };
        }
        let ghost p = pool;
        self.pools.insert(i, (key, pool));
        proof {
            assert(self.pools@ =~= mid.update(i as int, (key, p)));
            lemma_update_entry(mid, i as int, p);
            assert(self.pool_map() =~= old(self).pool_map().insert(
                object_type@,
                self.pool_map()[object_type@],
            ));
        }
        obj
    }

    /// Return an object to the pool of its type, where there is one with
    /// room: it becomes available again, and its size no longer counts as
    /// in use. Otherwise it is dropped.
    pub fn release(&mut self, obj: PooledObject)
        requires
            old(self).wf(),
            old(self).release_ok(obj),
        ensures
            released(*old(self), *final(self), obj),
    {
        proof {
            lemma_keyed_map(self.pools@, obj.object_type@);
            lemma_key_index(self.pools@, obj.object_type@);
        }
        match find_key(&self.pools, obj.object_type.as_str()) {
            Some(i) => {
                if self.pools[i].1.available.len() < self.pools[i].1.max_size {
                    let ghost mid = self.pools@;
                    let (key, mut pool) = self.pools.remove(i);
                    let size = obj.size;
                    pool.available.push(obj);
                    pool.in_use = pool.in_use - 1;
                    self.stats.current_memory = self.stats.current_memory - size;
                    let ghost p = pool;
                    self.pools.insert(i, (key, pool));
                    proof {
                        assert(self.pools@ =~= mid.update(i as int, (key, p)));
                        lemma_update_entry(mid, i as int, p);
                        lemma_total_trimmed_update(mid, i as int, key, p, self.stats, self.config.growth_factor_percent);
                    }
                }
            },
            None => {},
        }
    }

    /// Get current pool statistics
    pub fn get_stats(&self) -> (r: &PoolStats)
        ensures
            *r == self.stats(),
    {
        &self.stats
    }

    /// Optimize pool sizes: a full pool whose objects are reused more
    /// often than created grows; a pool with under a quarter of its
    /// maximum in use, and a maximum above ten, halves, and drops the
    /// available objects past its new maximum, whose sizes leave the memory
    /// count. Each changed maximum is recorded in the configuration.
    pub fn optimize_pools(&mut self)
        requires
            old(self).wf(),
            old(self).optimize_ok(),
        ensures
            optimized(*old(self), *final(self)),
    {
        let ghost pools0 = self.pools@;
        let ghost s0 = self.stats;
        let ghost pct = self.config.growth_factor_percent;
        let mut i: usize = 0;
        while i < self.pools.len()
            invariant
                i <= self.pools@.len(),
                self.pools@.len() == pools0.len(),
                keys_unique(pools0),
                keys_unique(self.config.max_pool_sizes@),
                pct == self.config.growth_factor_percent,
                self.config.dynamic_growth == old(self).config.dynamic_growth,
                pools0 == old(self).pools@,
                s0 == old(self).stats,
                self.stats == (PoolStats {
                    current_memory: (s0.current_memory - total_trimmed(pools0.take(i as int), s0, pct)) as usize,
                    ..s0
                }),
                total_trimmed(pools0, s0, pct) <= s0.current_memory,
                keyed_map(self.config.max_pool_sizes@) == resized(
                    keyed_map(old(self).config.max_pool_sizes@),
                    pools0.take(i as int),
                    s0,
                    pct,
                ),
                forall|k: int| i <= k < pools0.len() ==> #[trigger] self.pools@[k] == pools0[k],
                forall|k: int|
                    0 <= k < i ==> {
                        let p0 = pools0[k].1;
                        let p = (#[trigger] self.pools@[k]).1;
                        &&& self.pools@[k].0 == pools0[k].0
                        &&& p.available@ == kept(p0, s0, pct)
                        &&& p.max_size == final_max(p0, s0, pct)
                        &&& p.in_use == p0.in_use
                        &&& p.object_size == p0.object_size
                    },
            decreases self.pools@.len() - i,
        {
            proof {
                assert(pools0.take(i + 1).drop_last() =~= pools0.take(i as int));
                lemma_total_trimmed_prefix(pools0, i as int + 1, s0, pct);
            }
            let ghost before = self.pools@;
            let (key, mut pool) = self.pools.remove(i);
            let ghost p0 = pool;
            assert(p0 == pools0[i as int].1);
            let mut changed = false;
            if pool.in_use == pool.max_size && self.stats.total_reuses > self.stats.total_allocations {
                pool.max_size = grow(pool.max_size, self.config.growth_factor_percent);
                changed = true;
            }
            if pool.in_use < pool.max_size / 4 && pool.max_size > 10 {
                let new_size = pool.max_size / 2;
                pool.max_size = new_size;
                changed = true;
                if pool.available.len() > new_size {
                    let ghost avail0 = pool.available@;
                    let ghost mem0 = self.stats.current_memory;
                    let ghost pools_mid = self.pools@;
                    let ghost sizes_mid = self.config.max_pool_sizes@;
                    let ghost growth_mid = self.config.dynamic_growth;
                    proof {
                        assert(avail0.take(avail0.len() as int) =~= avail0);
                    }
                    while pool.available.len() > new_size
                        invariant
                            new_size <= pool.available@.len() <= avail0.len(),
                            pool.available@ == avail0.take(pool.available@.len() as int),
                            pool.max_size == new_size,
                            self.pools@ == pools_mid,
                            self.config.max_pool_sizes@ == sizes_mid,
                            self.config.dynamic_growth == growth_mid,
                            self.config.growth_factor_percent == pct,
                            pool.in_use == p0.in_use,
                            pool.object_size == p0.object_size,
                            self.stats == (PoolStats { current_memory: self.stats.current_memory, ..s0 }),
                            sizes_sum(avail0.skip(new_size as int)) <= mem0,
                            self.stats.current_memory + sizes_sum(avail0.skip(new_size as int)) == mem0
                                + sizes_sum(avail0.take(pool.available@.len() as int).skip(new_size as int)),
                        decreases pool.available@.len(),
                    {
                        let ghost n = pool.available@.len() as int;
                        let o = pool.available.pop().unwrap();
                        proof {
                            assert(avail0.take(n).skip(new_size as int).drop_last() =~= avail0.take(
                                n - 1,
                            ).skip(new_size as int));
                            assert(avail0.take(n).skip(new_size as int).last() == o);
                        }
                        self.stats.current_memory = self.stats.current_memory - o.size;
                        proof {
                            assert(pool.available@ =~= avail0.take(n - 1));
                        }
                    }
                    proof {
                        assert(avail0.take(new_size as int).skip(new_size as int) =~= Seq::<PooledObject>::empty());
                    }
                }
            }
            if changed {
                let k = key.clone();
                proof {
                    lemma_put(self.config.max_pool_sizes@, k, pool.max_size);
                }
                put(&mut self.config.max_pool_sizes, k, pool.max_size);
            }
            let ghost p = pool;
            self.pools.insert(i, (key, pool));
            proof {
                assert(self.pools@ =~= before.update(i as int, (key, p)));
                assert(pools0.take(i + 1).last() == pools0[i as int]);
            }
            i = i + 1;
        }
        proof {
            assert(pools0.take(pools0.len() as int) =~= pools0);
            assert forall|a: int, b: int| 0 <= a < b < self.pools@.len() implies #[trigger] self.pools@[a].0@
                != #[trigger] self.pools@[b].0@ by {
                assert(self.pools@[a].0 == pools0[a].0 && self.pools@[b].0 == pools0[b].0);
            }
        }
    }

    /// Generate Luau code for pool initialization
    pub fn generate_pool_code(&self) -> (r: String)
        ensures
            r@ == POOL_CODE_SRC@,
    {
        String::from_str(POOL_CODE_SRC)
    }
}

/// Replacing a pool keeps the keys unique, and reads as an insertion.
proof fn lemma_update_entry(entries: Seq<(String, Pool)>, i: int, p: Pool)
    requires
        keys_unique(entries),
        0 <= i < entries.len(),
    ensures
        keys_unique(entries.update(i, (entries[i].0, p))),
        keyed_map(entries.update(i, (entries[i].0, p))) == keyed_map(entries).insert(entries[i].0@, p),
{
    lemma_key_index(entries, entries[i].0@);
    let k = key_index(entries, entries[i].0@)->0;
    if k != i {
        assert(entries[k].0@ == entries[i].0@);
    }
    lemma_put(entries, entries[i].0, p);
    assert(put_spec(entries, entries[i].0, p) == entries.update(i, (entries[i].0, p)));
}

/// The objects a list of pools drops, with one pool replaced by another of
/// the same maximum.
proof fn lemma_total_trimmed_update(
    pools: Seq<(String, Pool)>,
    i: int,
    key: String,
    p: Pool,
    s: PoolStats,
    percent: usize,
)
    requires
        0 <= i < pools.len(),
        p.max_size == pools[i].1.max_size,
    ensures
        total_trimmed(pools.update(i, (key, p)), s, percent) == total_trimmed_replacing(
            pools,
            i,
            p.available@,
            p.in_use,
            s,
            percent,
        ),
    decreases pools.len(),
{
    let u = pools.update(i, (key, p));
    if i < pools.len() - 1 {
        assert(u.drop_last() =~= pools.drop_last().update(i, (key, p)));
        lemma_total_trimmed_update(pools.drop_last(), i, key, p, s, percent);
    } else {
        assert(u.drop_last() =~= pools.drop_last());
        lemma_total_trimmed_replacing_other(pools.drop_last(), i, p.available@, p.in_use, s, percent);
    }
}

/// Replacing a pool past the end of a list changes nothing.
proof fn lemma_total_trimmed_replacing_other(
    pools: Seq<(String, Pool)>,
    i: int,
    avail: Seq<PooledObject>,
    in_use: usize,
    s: PoolStats,
    percent: usize,
)
    requires
        i >= pools.len(),
    ensures
        total_trimmed_replacing(pools, i, avail, in_use, s, percent) == total_trimmed(pools, s, percent),
    decreases pools.len(),
{
    if pools.len() > 0 {
        lemma_total_trimmed_replacing_other(pools.drop_last(), i, avail, in_use, s, percent);
    }
}

/// The total size of a sequence is that of a prefix and the rest.
proof fn lemma_sizes_sum_split(objs: Seq<PooledObject>, n: int)
    requires
        0 <= n <= objs.len(),
    ensures
        sizes_sum(objs) == sizes_sum(objs.take(n)) + sizes_sum(objs.skip(n)),
    decreases objs.len(),
{
    if n < objs.len() {
        lemma_sizes_sum_split(objs.drop_last(), n);
        assert(objs.drop_last().take(n) =~= objs.take(n));
        assert(objs.skip(n).drop_last() =~= objs.drop_last().skip(n));
    } else {
        assert(objs.take(n) =~= objs);
        assert(objs.skip(n) =~= Seq::<PooledObject>::empty());
    }
}

/// What a prefix of pools drops is no more than what all of them drop.
proof fn lemma_total_trimmed_prefix(pools: Seq<(String, Pool)>, n: int, s: PoolStats, percent: usize)
    requires
        0 <= n <= pools.len(),
    ensures
        total_trimmed(pools.take(n), s, percent) <= total_trimmed(pools, s, percent),
    decreases pools.len(),
{
    if n < pools.len() {
        assert(pools.drop_last().take(n) =~= pools.take(n));
        lemma_total_trimmed_prefix(pools.drop_last(), n, s, percent);
    } else {
        assert(pools.take(n) =~= pools);
    }
}

} // verus!
