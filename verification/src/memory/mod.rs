//! Memory management for generated code: object pools and the memory
//! manager that drives them, with their default configuration.

use vstd::prelude::*;
use crate::keyed::{keyed_map, keys_unique};
use self::manager::MemorySettings;
use self::pool::PoolConfig;

pub mod manager;
pub mod pool;

verus! {

/// The default maximum pool sizes: tables, arrays and functions.
pub open spec fn default_pool_sizes() -> Map<Seq<char>, usize> {
    map!["table"@ => 100usize, "array"@ => 50usize, "function"@ => 20usize]
}

/// The default pool configuration: pools of 100 tables, 50 arrays and 20
/// functions (10 objects for any other type), growing by half when full,
/// within 10 MB.
pub fn default_pool_config() -> (r: PoolConfig)
    ensures
        keys_unique(r.max_pool_sizes@),
        keyed_map(r.max_pool_sizes@) == default_pool_sizes(),
        r.dynamic_growth,
        r.growth_factor_percent == 150,
        r.max_total_memory == 10485760,
{
    let mut max_pool_sizes: Vec<(String, usize)> = Vec::new();
    max_pool_sizes.push((String::from_str("table"), 100));
    max_pool_sizes.push((String::from_str("array"), 50));
    max_pool_sizes.push((String::from_str("function"), 20));
    proof {
        reveal_strlit("table");
        reveal_strlit("array");
        reveal_strlit("function");
        let v = max_pool_sizes@;
        assert(v[0].0@ != v[1].0@ && v[0].0@ != v[2].0@ && v[1].0@ != v[2].0@) by {
            assert(v[0].0@[0] != v[1].0@[0]);
            assert(v[0].0@[0] != v[2].0@[0]);
            assert(v[1].0@[0] != v[2].0@[0]);
        }
        assert(v.drop_last().drop_last().drop_last() =~= Seq::<(String, usize)>::empty());
        reveal_with_fuel(keyed_map, 4);
        assert(keyed_map(v) =~= default_pool_sizes());
    }
    PoolConfig {
        max_pool_sizes,
        dynamic_growth: true,
        growth_factor_percent: 150,
        max_total_memory: 10485760,
    }
}

/// The default memory settings: pooling on with the default pools, a
/// 100 MB threshold, tables pre-allocated and allocations tracked.
pub fn default_memory_settings() -> (r: MemorySettings)
    ensures
        r.enable_pooling,
        keys_unique(r.pool_config.max_pool_sizes@),
        keyed_map(r.pool_config.max_pool_sizes@) == default_pool_sizes(),
        r.pool_config.dynamic_growth,
        r.pool_config.growth_factor_percent == 150,
        r.pool_config.max_total_memory == 10485760,
        r.gc_threshold == 104857600,
        r.pre_allocate_tables,
        r.track_allocations,
{
    MemorySettings {
        enable_pooling: true,
        pool_config: default_pool_config(),
        gc_threshold: 104857600,
        pre_allocate_tables: true,
        track_allocations: true,
    }
}

} // verus!
