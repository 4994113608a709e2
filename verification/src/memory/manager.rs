//! The memory manager: usage statistics, one object pool per object type,
//! and the Luau memory-management module.

use vstd::prelude::*;
use crate::keyed::{find_key, keyed_map, keys_unique, lemma_key_index, lemma_keyed_map};
use crate::text::{decimal, usize_to_string};
use super::pool::{
    acquired,
    optimized,
    released,
    ObjectPool,
    PoolConfig,
    PoolStats,
    PooledObject,
};

verus! {

/// Memory usage statistics.
#[derive(Debug, Clone, Copy)]
pub struct MemoryStats {
    pub total_allocated: usize,
    pub total_freed: usize,
    pub peak_usage: usize,
    pub current_usage: usize,
    pub pool_hits: usize,
    pub pool_misses: usize,
}

/// Memory optimization settings.
#[derive(Debug, Clone)]
pub struct MemorySettings {
    pub enable_pooling: bool,
    pub pool_config: PoolConfig,
    pub gc_threshold: usize,
    pub pre_allocate_tables: bool,
    pub track_allocations: bool,
}

/// Advice on memory use.
#[derive(Debug)]
pub enum MemoryHint {
    ReducePoolSize(String),
    IncreasePoolSize(String),
    HighMemoryPressure,
}

/// Memory manager for optimizing Luau memory usage
pub struct MemoryManager {
    pools: Vec<(String, ObjectPool)>,
    stats: MemoryStats,
    settings: MemorySettings,
}

/// Whether `q` is a new pool with configuration `cfg`.
pub open spec fn fresh_pool(q: ObjectPool, cfg: PoolConfig) -> bool {
    &&& q.wf()
    &&& q.pool_list().len() == 0
    &&& q.stats() == (PoolStats {
        total_allocations: 0,
        total_reuses: 0,
        peak_memory: 0,
        current_memory: 0,
    })
    &&& q.configured_sizes() == keyed_map(cfg.max_pool_sizes@)
    &&& q.dynamic_growth() == cfg.dynamic_growth
    &&& q.growth_percent() == cfg.growth_factor_percent
}

/// The first step of freeing `obj` for a pool: the release where it goes
/// back to this pool, else nothing.
pub open spec fn release_step(before: ObjectPool, after: ObjectPool, obj: PooledObject, releases: bool) -> bool {
    if releases {
        released(before, after, obj)
    } else {
        after == before
    }
}

/// The second step of freeing for a pool: the optimization where memory
/// use is over the threshold, else nothing.
pub open spec fn optimize_step(before: ObjectPool, after: ObjectPool, optimizes: bool) -> bool {
    if optimizes {
        optimized(before, after)
    } else {
        after == before
    }
}

/// Whether `after` is what freeing `obj` makes of the pool `before`.
pub open spec fn freed_pool(
    before: ObjectPool,
    after: ObjectPool,
    obj: PooledObject,
    releases: bool,
    optimizes: bool,
) -> bool {
    exists|mid: ObjectPool|
        #![trigger release_step(before, mid, obj, releases)]
        release_step(before, mid, obj, releases) && optimize_step(mid, after, optimizes)
}

/// Whether a pool reused fewer than half of the objects it gave out.
pub open spec fn low_reuse(s: PoolStats) -> bool {
    let given = s.total_allocations + s.total_reuses;
    given > 0 && 2 * s.total_reuses < given
}

/// Whether a pool reused more than nine tenths of the objects it gave
/// out.
pub open spec fn high_reuse(s: PoolStats) -> bool {
    let given = s.total_allocations + s.total_reuses;
    given > 0 && 10 * s.total_reuses > 9 * given
}

/// The hints for pools `pools`, in order: reduce a pool that reuses little,
/// increase one that reuses much.
pub open spec fn pool_hints(pools: Seq<(String, ObjectPool)>) -> Seq<MemoryHint>
    decreases pools.len(),
{
    if pools.len() == 0 {
        Seq::empty()
    } else {
        let before = pool_hints(pools.drop_last());
        let s = pools.last().1.stats();
        if low_reuse(s) {
            before.push(MemoryHint::ReducePoolSize(pools.last().0))
        } else if high_reuse(s) {
            before.push(MemoryHint::IncreasePoolSize(pools.last().0))
        } else {
            before
        }
    }
}

/// Whether `hints` advise reducing the pool `name`.
pub open spec fn hints_reduce(hints: Seq<MemoryHint>, name: Seq<char>) -> bool {
    exists|j: int| 0 <= j < hints.len() && (#[trigger] hints[j] matches MemoryHint::ReducePoolSize(n) && n@ == name)
}

/// Whether `hints` advise increasing the pool `name`.
pub open spec fn hints_increase(hints: Seq<MemoryHint>, name: Seq<char>) -> bool {
    exists|j: int| 0 <= j < hints.len() && (#[trigger] hints[j] matches MemoryHint::IncreasePoolSize(n) && n@ == name)
}

/// A hint added last advises what it says and nothing more.
proof fn lemma_push_hint(before: Seq<MemoryHint>, h: MemoryHint, name: Seq<char>)
    ensures
        hints_reduce(before.push(h), name) == (hints_reduce(before, name) || (h matches MemoryHint::ReducePoolSize(
            n,
        ) && n@ == name)),
        hints_increase(before.push(h), name) == (hints_increase(before, name) || (h matches MemoryHint::IncreasePoolSize(
            n,
        ) && n@ == name)),
{
    let after = before.push(h);
    if hints_reduce(before, name) {
        let j = choose|j: int| 0 <= j < before.len() && (#[trigger] before[j] matches MemoryHint::ReducePoolSize(n) && n@ == name);
        assert(after[j] == before[j]);
    }
    if hints_increase(before, name) {
        let j = choose|j: int| 0 <= j < before.len() && (#[trigger] before[j] matches MemoryHint::IncreasePoolSize(n) && n@ == name);
        assert(after[j] == before[j]);
    }
    if hints_reduce(after, name) {
        let j = choose|j: int| 0 <= j < after.len() && (#[trigger] after[j] matches MemoryHint::ReducePoolSize(n) && n@ == name);
        if j < before.len() {
            assert(after[j] == before[j]);
        }
    }
    if hints_increase(after, name) {
        let j = choose|j: int| 0 <= j < after.len() && (#[trigger] after[j] matches MemoryHint::IncreasePoolSize(n) && n@ == name);
        if j < before.len() {
            assert(after[j] == before[j]);
        }
    }
    assert(after[before.len() as int] == h);
}

/// No hint names a pool that is not there.
proof fn lemma_hints_name_pools(pools: Seq<(String, ObjectPool)>, name: Seq<char>)
    requires
        forall|i: int| 0 <= i < pools.len() ==> (#[trigger] pools[i]).0@ != name,
    ensures
        !hints_reduce(pool_hints(pools), name),
        !hints_increase(pool_hints(pools), name),
    decreases pools.len(),
{
    if pools.len() > 0 {
        let n = pools.len() - 1;
        assert forall|i: int| 0 <= i < n implies (#[trigger] pools.drop_last()[i]).0@ != name by {
            assert(pools.drop_last()[i] == pools[i]);
        }
        lemma_hints_name_pools(pools.drop_last(), name);
        let before = pool_hints(pools.drop_last());
        assert(pools[n].0@ != name);
        lemma_push_hint(before, MemoryHint::ReducePoolSize(pools.last().0), name);
        lemma_push_hint(before, MemoryHint::IncreasePoolSize(pools.last().0), name);
    }
}

/// Each pool gets the hint its reuse calls for: to be reduced exactly when
/// it reused fewer than half of the objects it gave out, to be increased
/// exactly when it reused more than nine tenths of them (so never both).
pub proof fn law_pool_hints_follow_reuse(pools: Seq<(String, ObjectPool)>, k: int)
    requires
        keys_unique(pools),
        0 <= k < pools.len(),
    ensures
        ({
            let s = pools[k].1.stats();
            let given = s.total_allocations + s.total_reuses;
            &&& hints_reduce(pool_hints(pools), pools[k].0@) == (given > 0 && 2 * s.total_reuses < given)
            &&& hints_increase(pool_hints(pools), pools[k].0@) == (given > 0 && 10 * s.total_reuses > 9 * given)
        }),
    decreases pools.len(),
{
    let n = pools.len() - 1;
    let prev = pools.drop_last();
    let before = pool_hints(prev);
    let name = pools[k].0@;
    let last = pools.last();
    assert(last == pools[n]);
    if k < n {
        assert(keys_unique(prev)) by {
            assert forall|a: int, b: int| 0 <= a < b < prev.len() implies #[trigger] prev[a].0@ != #[trigger] prev[b].0@ by {
                assert(prev[a] == pools[a]);
                assert(prev[b] == pools[b]);
            }
        }
        assert(prev[k] == pools[k]);
        law_pool_hints_follow_reuse(prev, k);
        assert(pools[n].0@ != name);
    } else {
        assert forall|i: int| 0 <= i < prev.len() implies (#[trigger] prev[i]).0@ != name by {
            assert(prev[i] == pools[i]);
        }
        lemma_hints_name_pools(prev, name);
    }
    lemma_push_hint(before, MemoryHint::ReducePoolSize(last.0), name);
    lemma_push_hint(before, MemoryHint::IncreasePoolSize(last.0), name);
}

/// The head of the memory-management module, before its settings.
pub const MEMORY_CODE_HEAD: &'static str = "local MemoryManager = {\n    stats = {\n        total_allocated = 0,\n        total_freed = 0,\n        current_usage = 0,\n        pool_hits = 0,\n        pool_misses = 0\n    },\n    settings = {\n";

/// The allocation-tracking functions of the memory-management module.
pub const TRACKING_CODE: &'static str = "function MemoryManager:trackAllocation(size)\n    self.stats.total_allocated = self.stats.total_allocated + size\n    self.stats.current_usage = self.stats.current_usage + size\nend\n\nfunction MemoryManager:trackFree(size)\n    self.stats.total_freed = self.stats.total_freed + size\n    self.stats.current_usage = self.stats.current_usage - size\nend\n\n";

/// The table pre-allocation helper of the memory-management module.
pub const PREALLOCATE_CODE: &'static str = "function MemoryManager:preAllocateTable(size)\n    local t = table.create(size)\n    self:trackAllocation(size * 8) -- Approximate size\n    return t\nend\n\n";

/// The memory check and the end of the memory-management module.
pub const MEMORY_CODE_TAIL: &'static str = "function MemoryManager:checkMemory()\n    if self.stats.current_usage > self.settings.gc_threshold then\n        -- Trigger Luau garbage collection\n        collectgarbage()\n        -- Update stats\n        self.stats.current_usage = collectgarbage('count') * 1024\n    end\nend\n\nreturn MemoryManager\n";

/// The memory-management module for `settings`.
pub open spec fn memory_code_text(settings: MemorySettings) -> Seq<char> {
    MEMORY_CODE_HEAD@ + "        gc_threshold = "@ + decimal(settings.gc_threshold as nat) + ",\n"@
        + "        pre_allocate_tables = "@ + (if settings.pre_allocate_tables {
        "true"@
    } else {
        "false"@
    }) + ",\n"@ + "    }\n"@ + "}\n\n"@ + (if settings.track_allocations {
        TRACKING_CODE@
    } else {
        Seq::empty()
    }) + (if settings.pre_allocate_tables {
        PREALLOCATE_CODE@
    } else {
        Seq::empty()
    }) + MEMORY_CODE_TAIL@
}

impl MemoryManager {
    /// No type has two pools, each pool is well formed, and the pool
    /// configuration names each type once.
    pub closed spec fn wf(&self) -> bool {
        &&& keys_unique(self.pools@)
        &&& forall|i: int| 0 <= i < self.pools@.len() ==> (#[trigger] self.pools@[i]).1.wf()
        &&& keys_unique(self.settings.pool_config.max_pool_sizes@)
        &&& self.stats.current_usage + self.stats.total_freed == self.stats.total_allocated
        &&& self.stats.peak_usage >= self.stats.current_usage
    }

    /// The pools, in the order their types were first allocated.
    pub closed spec fn pool_list(&self) -> Seq<(String, ObjectPool)> {
        self.pools@
    }

    /// The pools by type.
    pub open spec fn pool_map(&self) -> Map<Seq<char>, ObjectPool> {
        keyed_map(self.pool_list())
    }

    /// The statistics.
    pub closed spec fn stats(&self) -> MemoryStats {
        self.stats
    }

    /// The settings.
    pub closed spec fn settings(&self) -> MemorySettings {
        self.settings
    }

    /// A manager with no pools and zero statistics.
    pub fn new(settings: MemorySettings) -> (r: Self)
        requires
            keys_unique(settings.pool_config.max_pool_sizes@),
        ensures
            r.wf(),
            r.pool_list().len() == 0,
            r.stats() == (MemoryStats {
                total_allocated: 0,
                total_freed: 0,
                peak_usage: 0,
                current_usage: 0,
                pool_hits: 0,
                pool_misses: 0,
            }),
            r.settings() == settings,
    {
        MemoryManager {
            pools: Vec::new(),
            stats: MemoryStats {
                total_allocated: 0,
                total_freed: 0,
                peak_usage: 0,
                current_usage: 0,
                pool_hits: 0,
                pool_misses: 0,
            },
            settings,
        }
    }

    /// Allocate an object of `object_type` and `size`: its size counts as
    /// allocated and in use; with pooling on, the pool of its type (made
    /// where there is none) hands it out, and a reused object is a hit.
    pub fn allocate(&mut self, object_type: &str, size: usize) -> (r: PooledObject)
        requires
            old(self).wf(),
            old(self).stats().total_allocated + size <= usize::MAX,
            old(self).stats().current_usage + size <= usize::MAX,
            old(self).settings().enable_pooling ==> {
                &&& old(self).stats().pool_hits < usize::MAX
                &&& old(self).stats().pool_misses < usize::MAX
                &&& old(self).pool_map().dom().contains(object_type@) ==> old(self).pool_map()[object_type@].acquire_fits(object_type@, size)
            },
        ensures
            final(self).wf(),
            final(self).settings() == old(self).settings(),
            final(self).stats().total_allocated == old(self).stats().total_allocated + size,
            final(self).stats().current_usage == old(self).stats().current_usage + size,
            final(self).stats().peak_usage == (if final(self).stats().current_usage > old(self).stats().peak_usage {
                final(self).stats().current_usage
            } else {
                old(self).stats().peak_usage
            }),
            final(self).stats().total_freed == old(self).stats().total_freed,
            old(self).settings().enable_pooling ==> final(self).pool_map() == old(self).pool_map().insert(
                object_type@,
                final(self).pool_map()[object_type@],
            ),
            old(self).settings().enable_pooling && old(self).pool_map().dom().contains(object_type@)
                ==> acquired(
                old(self).pool_map()[object_type@],
                final(self).pool_map()[object_type@],
                object_type@,
                size,
                r,
            ),
            old(self).settings().enable_pooling && !old(self).pool_map().dom().contains(object_type@)
                ==> exists|q0: ObjectPool|
                fresh_pool(q0, old(self).settings().pool_config) && #[trigger] acquired(
                    q0,
                    final(self).pool_map()[object_type@],
                    object_type@,
                    size,
                    r,
                ),
            old(self).settings().enable_pooling && r.reuse_count > 0 ==> final(self).stats().pool_hits
                == old(self).stats().pool_hits + 1 && final(self).stats().pool_misses == old(self).stats().pool_misses,
            old(self).settings().enable_pooling && r.reuse_count == 0 ==> final(self).stats().pool_hits
                == old(self).stats().pool_hits && final(self).stats().pool_misses == old(self).stats().pool_misses + 1,
            !old(self).settings().enable_pooling ==> {
                &&& r.object_type@ == object_type@
                &&& r.size == size
                &&& r.reuse_count == 0
                &&& final(self).pool_list() == old(self).pool_list()
                &&& final(self).stats().pool_hits == old(self).stats().pool_hits
                &&& final(self).stats().pool_misses == old(self).stats().pool_misses
            },
    {
        self.stats.total_allocated = self.stats.total_allocated + size;
        self.stats.current_usage = self.stats.current_usage + size;
        if self.stats.current_usage > self.stats.peak_usage {
            self.stats.peak_usage = self.stats.current_usage;
        }
        if !self.settings.enable_pooling {
            return PooledObject { object_type: String::from_str(object_type), size, reuse_count: 0 };
        }
        proof {
            lemma_keyed_map(self.pools@, object_type@);
            lemma_key_index(self.pools@, object_type@);
        }
        let ghost existed = self.pool_map().dom().contains(object_type@);
        let i = match find_key(&self.pools, object_type) {
            Some(i) => i,
            None => {
                let q = ObjectPool::new(self.settings.pool_config.clone());
                let ghost q0 = q;
                assert(fresh_pool(q0, self.settings.pool_config));
                self.pools.push((String::from_str(object_type), q));
                proof {
                    assert forall|a: int, b: int|
                        0 <= a < b < self.pools@.len() implies #[trigger] self.pools@[a].0@
                        != #[trigger] self.pools@[b].0@ by {
                        if b == self.pools@.len() - 1 {
                            assert(old(self).pools@[a] == self.pools@[a]);
                            assert(self.pools@[b].0@ == object_type@);
                            assert(old(self).pools@[a].0@ != object_type@);
                            assert(self.pools@[a].0@ != self.pools@[b].0@);
                        } else {
                            assert(old(self).pools@[a] == self.pools@[a]);
                            assert(old(self).pools@[b] == self.pools@[b]);
                            assert(keys_unique(old(self).pools@));
                            assert(old(self).pools@[a].0@ != old(self).pools@[b].0@);
                        }
                    }
                }
                self.pools.len() - 1
            },
        };
        let ghost mid = self.pools@;
        let ghost q0 = mid[i as int].1;
        let (key, mut q) = self.pools.remove(i);
        proof {
            if !existed {
                assert(q0.pool_list().len() == 0);
            }
        }
        let obj = q.acquire(object_type, size);
        if obj.reuse_count > 0 {
            self.stats.pool_hits = self.stats.pool_hits + 1;
        } else {
            self.stats.pool_misses = self.stats.pool_misses + 1;
        }
        let ghost q1 = q;
        self.pools.insert(i, (key, q));
        proof {
            assert(self.pools@ =~= mid.update(i as int, (key, q1)));
            lemma_replace_pool(mid, i as int, q1);
            if !existed {
                assert(acquired(q0, q1, object_type@, size, obj));
                assert(fresh_pool(q0, old(self).settings().pool_config));
                assert(exists|q: ObjectPool|
                    fresh_pool(q, old(self).settings().pool_config) && #[trigger] acquired(
                        q,
                        q1,
                        object_type@,
                        size,
                        obj,
                    ));
                assert(mid.drop_last() =~= old(self).pools@);
                assert(keyed_map(mid) == keyed_map(old(self).pools@).insert(object_type@, q0));
            } else {
                assert(mid == old(self).pools@);
            }
            assert(self.pool_map() =~= old(self).pool_map().insert(object_type@, q1));
            assert(self.pool_map()[object_type@] == q1);
            if !existed {
                assert(acquired(q0, self.pool_map()[object_type@], object_type@, size, obj));
            }
            assert forall|k: int| 0 <= k < self.pools@.len() implies (#[trigger] self.pools@[k]).1.wf() by {
                if k != i {
                    assert(self.pools@[k] == mid[k]);
                }
            }
        }
        obj
    }

    /// Optimize the pools of each type.
    pub fn optimize_memory(&mut self)
        requires
            old(self).wf(),
            forall|i: int|
                0 <= i < old(self).pool_list().len() ==> (#[trigger] old(self).pool_list()[i]).1.optimize_ok(),
        ensures
            final(self).wf(),
            final(self).stats() == old(self).stats(),
            final(self).settings() == old(self).settings(),
            final(self).pool_list().len() == old(self).pool_list().len(),
            forall|i: int|
                0 <= i < old(self).pool_list().len() ==> (#[trigger] final(self).pool_list()[i]).0
                    == old(self).pool_list()[i].0 && optimized(
                    old(self).pool_list()[i].1,
                    final(self).pool_list()[i].1,
                ),
    {
        let ghost all = self.pools@;
        proof {
            assert forall|k: int| 0 <= k < all.len() implies (#[trigger] all[k]).1.wf()
                && all[k].1.optimize_ok() by {
                assert(old(self).pool_list()[k] == all[k]);
            }
        }
        let mut i: usize = 0;
        while i < self.pools.len()
            invariant
                i <= self.pools@.len(),
                self.pools@.len() == all.len(),
                all == old(self).pools@,
                self.stats == old(self).stats,
                self.settings == old(self).settings,
                keys_unique(all),
                keys_unique(self.settings.pool_config.max_pool_sizes@),
                forall|k: int| 0 <= k < all.len() ==> (#[trigger] all[k]).1.wf() && all[k].1.optimize_ok(),
                forall|k: int| i <= k < all.len() ==> #[trigger] self.pools@[k] == all[k],
                forall|k: int|
                    0 <= k < i ==> (#[trigger] self.pools@[k]).0 == all[k].0 && optimized(
                        all[k].1,
                        self.pools@[k].1,
                    ),
            decreases all.len() - i,
        {
            let ghost before = self.pools@;
            let (key, mut q) = self.pools.remove(i);
            assert(q == all[i as int].1);
            q.optimize_pools();
            let ghost q1 = q;
            self.pools.insert(i, (key, q));
            proof {
                assert(self.pools@ =~= before.update(i as int, (key, q1)));
            }
            i = i + 1;
        }
        proof {
            assert forall|a: int, b: int| 0 <= a < b < self.pools@.len() implies #[trigger] self.pools@[a].0@
                != #[trigger] self.pools@[b].0@ by {
                assert(self.pools@[a].0 == all[a].0 && self.pools@[b].0 == all[b].0);
            }
            assert forall|k: int| 0 <= k < self.pools@.len() implies (#[trigger] self.pools@[k]).1.wf() by {
                assert(optimized(all[k].1, self.pools@[k].1));
            }
        }
    }

    /// Free an object: its size counts as freed and no longer in use;
    /// with pooling on, it goes back to the pool of its type; where memory
    /// in use is then above the threshold, every pool is optimized.
    pub fn free(&mut self, obj: PooledObject)
        requires
            old(self).wf(),
            old(self).stats().current_usage >= obj.size,
            old(self).stats().total_freed + obj.size <= usize::MAX,
            ({
                let t = obj.object_type@;
                let pooled = old(self).settings().enable_pooling;
                let triggers = old(self).stats().current_usage - obj.size > old(self).settings().gc_threshold;
                &&& pooled && old(self).pool_map().dom().contains(t) ==> old(self).pool_map()[t].release_ok(obj)
                &&& triggers ==> forall|i: int|
                    0 <= i < old(self).pool_list().len() ==> if pooled && (#[trigger] old(self).pool_list()[i]).0@ == t {
                        old(self).pool_list()[i].1.optimize_ok_after_release(obj)
                    } else {
                        old(self).pool_list()[i].1.optimize_ok()
                    }
            }),
        ensures
            final(self).wf(),
            final(self).settings() == old(self).settings(),
            final(self).stats() == (MemoryStats {
                total_freed: (old(self).stats().total_freed + obj.size) as usize,
                current_usage: (old(self).stats().current_usage - obj.size) as usize,
                ..old(self).stats()
            }),
            final(self).pool_list().len() == old(self).pool_list().len(),
            forall|i: int|
                0 <= i < old(self).pool_list().len() ==> (#[trigger] final(self).pool_list()[i]).0
                    == old(self).pool_list()[i].0 && freed_pool(
                    old(self).pool_list()[i].1,
                    final(self).pool_list()[i].1,
                    obj,
                    old(self).settings().enable_pooling && old(self).pool_list()[i].0@
                        == obj.object_type@,
                    final(self).stats().current_usage > old(self).settings().gc_threshold,
                ),
    {
        let size = obj.size;
        self.stats.total_freed = self.stats.total_freed + size;
        self.stats.current_usage = self.stats.current_usage - size;
        let ghost t = obj.object_type@;
        let ghost pooled = self.settings.enable_pooling;
        let ghost all = self.pools@;
        proof {
            lemma_keyed_map(self.pools@, t);
            lemma_key_index(self.pools@, t);
        }
        let mut released_at: Option<usize> = None;
        if self.settings.enable_pooling {
            match find_key(&self.pools, obj.object_type.as_str()) {
                Some(i) => {
                    let ghost before = self.pools@;
                    let (key, mut q) = self.pools.remove(i);
                    assert(q == all[i as int].1);
                    q.release(obj);
                    let ghost q1 = q;
                    self.pools.insert(i, (key, q));
                    proof {
                        assert(self.pools@ =~= before.update(i as int, (key, q1)));
                    }
                    released_at = Some(i);
                },
                None => {},
            }
        }
        let ghost mid = self.pools@;
        proof {
            assert forall|k: int| #![trigger mid[k]] 0 <= k < all.len() implies release_step(
                all[k].1,
                mid[k].1,
                obj,
                pooled && all[k].0@ == t,
            ) && mid[k].0 == all[k].0 by {
                if pooled && all[k].0@ == t {
                    lemma_key_index(all, t);
                }
            }
            assert forall|a: int, b: int| 0 <= a < b < mid.len() implies #[trigger] mid[a].0@
                != #[trigger] mid[b].0@ by {
                assert(mid[a].0 == all[a].0 && mid[b].0 == all[b].0);
            }
            assert forall|k: int| 0 <= k < mid.len() implies (#[trigger] mid[k]).1.wf() by {
                assert(release_step(all[k].1, mid[k].1, obj, pooled && all[k].0@ == t));
            }
        }
        if self.stats.current_usage > self.settings.gc_threshold {
            proof {
                assert forall|k: int| 0 <= k < mid.len() implies (#[trigger] mid[k]).1.optimize_ok() by {
                    assert(old(self).pool_list()[k] == all[k]);
                    assert(release_step(all[k].1, mid[k].1, obj, pooled && all[k].0@ == t));
                    if pooled && all[k].0@ == t {
                        lemma_key_index(all, t);
                        lemma_keyed_map(all, t);
                        assert(all[k].1.optimize_ok_after_release(obj));
                    }
                }
            }
            proof {
                assert forall|i: int| 0 <= i < self.pool_list().len() implies (#[trigger] self.pool_list()[i]).1.optimize_ok() by {
                    assert(self.pool_list()[i] == mid[i]);
                }
            }
            self.optimize_memory();
            proof {
                assert forall|k: int| #![trigger self.pools@[k]] 0 <= k < all.len() implies freed_pool(
                    all[k].1,
                    self.pools@[k].1,
                    obj,
                    pooled && all[k].0@ == t,
                    true,
                ) by {
                    assert(release_step(all[k].1, mid[k].1, obj, pooled && all[k].0@ == t));
                }
            }
        } else {
            proof {
                assert forall|k: int| #![trigger self.pools@[k]] 0 <= k < all.len() implies freed_pool(
                    all[k].1,
                    self.pools@[k].1,
                    obj,
                    pooled && all[k].0@ == t,
                    false,
                ) by {
                    assert(release_step(all[k].1, mid[k].1, obj, pooled && all[k].0@ == t));
                }
            }
        }
    }

    /// Generate Luau code for memory management
    pub fn generate_memory_code(&self) -> (r: String)
        ensures
            r@ == memory_code_text(self.settings()),
    {
        let mut code = String::from_str(MEMORY_CODE_HEAD);
        code.append("        gc_threshold = ");
        code.append(usize_to_string(self.settings.gc_threshold).as_str());
        code.append(",\n");
        code.append("        pre_allocate_tables = ");
        if self.settings.pre_allocate_tables {
            code.append("true");
        } else {
            code.append("false");
        }
        code.append(",\n");
        code.append("    }\n");
        code.append("}\n\n");
        if self.settings.track_allocations {
            code.append(TRACKING_CODE);
        }
        if self.settings.pre_allocate_tables {
            code.append(PREALLOCATE_CODE);
        }
        code.append(MEMORY_CODE_TAIL);
        code
    }

    /// Get current memory statistics
    pub fn get_stats(&self) -> (r: &MemoryStats)
        ensures
            *r == self.stats(),
    {
        &self.stats
    }

    /// Replace the settings, then optimize every pool.
    pub fn update_settings(&mut self, settings: MemorySettings)
        requires
            old(self).wf(),
            keys_unique(settings.pool_config.max_pool_sizes@),
            forall|i: int|
                0 <= i < old(self).pool_list().len() ==> (#[trigger] old(self).pool_list()[i]).1.optimize_ok(),
        ensures
            final(self).wf(),
            final(self).stats() == old(self).stats(),
            final(self).settings() == settings,
            final(self).pool_list().len() == old(self).pool_list().len(),
            forall|i: int|
                0 <= i < old(self).pool_list().len() ==> (#[trigger] final(self).pool_list()[i]).0
                    == old(self).pool_list()[i].0 && optimized(
                    old(self).pool_list()[i].1,
                    final(self).pool_list()[i].1,
                ),
    {
        self.settings = settings;
        proof {
            assert forall|i: int| 0 <= i < self.pool_list().len() implies (#[trigger] self.pool_list()[i]).1.optimize_ok() by {
                assert(old(self).pool_list()[i] == self.pool_list()[i]);
            }
        }
        self.optimize_memory();
    }

    /// Hints on memory use: for each pool, in order, to reduce it where it
    /// reused fewer than half of its objects or to increase it where it
    /// reused more than nine tenths; then high pressure where memory in use
    /// is above the threshold.
    pub fn get_optimization_hints(&self) -> (r: Vec<MemoryHint>)
        requires
            forall|i: int|
                0 <= i < self.pool_list().len() ==> (#[trigger] self.pool_list()[i]).1.stats().total_allocations
                    + self.pool_list()[i].1.stats().total_reuses <= usize::MAX,
        ensures
            r@ == if self.stats().current_usage > self.settings().gc_threshold {
                pool_hints(self.pool_list()).push(MemoryHint::HighMemoryPressure)
            } else {
                pool_hints(self.pool_list())
            },
    {
        let mut hints: Vec<MemoryHint> = Vec::new();
        proof {
            assert forall|k: int| 0 <= k < self.pools@.len() implies (#[trigger] self.pools@[k]).1.stats().total_allocations
                + self.pools@[k].1.stats().total_reuses <= usize::MAX by {
                assert(self.pool_list()[k] == self.pools@[k]);
            }
        }
        let mut i: usize = 0;
        while i < self.pools.len()
            invariant
                i <= self.pools@.len(),
                forall|k: int|
                    0 <= k < self.pools@.len() ==> (#[trigger] self.pools@[k]).1.stats().total_allocations
                        + self.pools@[k].1.stats().total_reuses <= usize::MAX,
                hints@ == pool_hints(self.pools@.take(i as int)),
            decreases self.pools@.len() - i,
        {
            proof {
                assert(self.pools@.take(i + 1).drop_last() =~= self.pools@.take(i as int));
            }
            let s = self.pools[i].1.get_stats();
            assert(s.total_allocations + s.total_reuses <= usize::MAX);
            let given = s.total_allocations + s.total_reuses;
            let reuses = s.total_reuses as u128;
            let total = given as u128;
            if given > 0 && 2 * reuses < total {
                hints.push(MemoryHint::ReducePoolSize(self.pools[i].0.clone()));
            } else if given > 0 && 10 * reuses > 9 * total {
                hints.push(MemoryHint::IncreasePoolSize(self.pools[i].0.clone()));
            }
            i = i + 1;
        }
        proof {
            assert(self.pools@.take(self.pools@.len() as int) =~= self.pools@);
        }
        if self.stats.current_usage > self.settings.gc_threshold {
            hints.push(MemoryHint::HighMemoryPressure);
        }
        hints
    }
}

/// Replacing the pool at `i` keeps the types unique and reads as an
/// insertion.
proof fn lemma_replace_pool(pools: Seq<(String, ObjectPool)>, i: int, q: ObjectPool)
    requires
        keys_unique(pools),
        0 <= i < pools.len(),
    ensures
        keys_unique(pools.update(i, (pools[i].0, q))),
        keyed_map(pools.update(i, (pools[i].0, q))) == keyed_map(pools).insert(pools[i].0@, q),
{
    lemma_key_index(pools, pools[i].0@);
    let k = crate::keyed::key_index(pools, pools[i].0@)->0;
    if k != i {
        assert(pools[k].0@ == pools[i].0@);
    }
    crate::keyed::lemma_put(pools, pools[i].0, q);
    assert(crate::keyed::put_spec(pools, pools[i].0, q) == pools.update(i, (pools[i].0, q)));
}

/// The memory in use is what was allocated less what was freed, and the
/// peak is never below it: every operation of the manager keeps both.
pub proof fn law_usage_balances(m: MemoryManager)
    requires
        m.wf(),
    ensures
        m.stats().current_usage + m.stats().total_freed == m.stats().total_allocated,
        m.stats().peak_usage >= m.stats().current_usage,
{
}

} // verus!
