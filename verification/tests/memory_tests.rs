//! Object pools and the memory manager.

use roblox_rs::memory::default_memory_settings;
use roblox_rs::memory::default_pool_config;
use roblox_rs::memory::manager::{MemoryHint, MemoryManager};
use roblox_rs::memory::pool::{ObjectPool, PooledObject};

#[test]
fn test_object_pool() {
    let config = default_pool_config();
    let mut pool = ObjectPool::new(config);

    // Acquire objects
    let obj1 = pool.acquire("table", 100);
    let _obj2 = pool.acquire("table", 100);
    assert_eq!(pool.get_stats().total_allocations, 2);

    // Release and reuse
    pool.release(obj1);
    let _obj3 = pool.acquire("table", 100);
    assert_eq!(pool.get_stats().total_reuses, 1);

    // Check memory tracking
    assert_eq!(pool.get_stats().current_memory, 200); // obj2 + obj3
    assert_eq!(pool.get_stats().peak_memory, 200);
}

#[test]
fn test_pool_optimization() {
    let config = default_pool_config();
    let mut pool = ObjectPool::new(config);

    // Fill pool
    for _ in 0..20 {
        pool.acquire("table", 100);
    }

    // Release all
    for _ in 0..20 {
        pool.release(PooledObject {
            object_type: "table".to_string(),
            size: 100,
            reuse_count: 0,
        });
    }

    // Optimize pools
    pool.optimize_pools();
    assert!(pool.get_stats().current_memory < 2000);
}

#[test]
fn release_then_acquire_hands_the_object_back() {
    let mut pool = ObjectPool::new(default_pool_config());
    let obj = pool.acquire("array", 64);
    let before = *pool.get_stats();
    pool.release(obj);
    assert_eq!(pool.get_stats().current_memory, before.current_memory - 64);
    let again = pool.acquire("array", 64);
    assert_eq!(again.object_type, "array");
    assert_eq!(again.size, 64);
    assert_eq!(again.reuse_count, 1);
    assert_eq!(pool.get_stats().current_memory, before.current_memory);
    assert_eq!(pool.get_stats().total_reuses, before.total_reuses + 1);
    assert_eq!(pool.get_stats().total_allocations, before.total_allocations);
}

#[test]
fn peak_memory_stays_at_least_current() {
    let mut pool = ObjectPool::new(default_pool_config());
    let a = pool.acquire("table", 30);
    let b = pool.acquire("table", 50);
    assert_eq!(pool.get_stats().peak_memory, 80);
    pool.release(a);
    pool.release(b);
    assert_eq!(pool.get_stats().current_memory, 0);
    assert_eq!(pool.get_stats().peak_memory, 80);
    let _c = pool.acquire("function", 10);
    assert!(pool.get_stats().peak_memory >= pool.get_stats().current_memory);
}

#[test]
fn manager_hints_follow_reuse() {
    let mut manager = MemoryManager::new(default_memory_settings());
    let first = manager.allocate("table", 10);
    match manager.get_optimization_hints().as_slice() {
        [MemoryHint::ReducePoolSize(t)] => assert_eq!(t, "table"),
        other => panic!("unexpected hints {:?}", other),
    }
    manager.free(first);
    let _again = manager.allocate("table", 10);
    assert!(manager.get_optimization_hints().is_empty());
    assert_eq!(manager.get_stats().pool_hits, 1);
    assert_eq!(manager.get_stats().pool_misses, 1);
    let code = manager.generate_memory_code();
    assert!(code.contains("function MemoryManager:trackAllocation(size)"));
}
