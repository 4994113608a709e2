//! Lifetime and memory-pattern analysis.

use roblox_rs::analysis::{AccessType, LifetimeTracker};

#[test]
fn lifetimes_and_patterns() {
    let mut t = LifetimeTracker::new();
    t.track_creation("a".to_string(), 1, 16, "table".to_string());
    t.track_creation("b".to_string(), 2, 8, "table".to_string());
    t.track_creation("n".to_string(), 3, 4, "number".to_string());
    t.track_creation("c".to_string(), 9, 8, "table".to_string());
    t.track_usage("a", 5, AccessType::Read);
    t.track_usage("a", 6, AccessType::Write);
    t.track_usage("b", 4, AccessType::Read);
    t.track_usage("c", 12, AccessType::Read);

    assert_eq!(t.get_lifetime("a"), Some(5));
    assert_eq!(t.get_lifetime("n"), None);
    assert_eq!(t.get_allocation_info("b").unwrap().allocation_size, 8);
    let usage = t.get_usage_pattern("a").unwrap();
    assert_eq!(usage.line, 6);
    assert_eq!(usage.frequency, 2);
    assert_eq!(usage.access_type, AccessType::Both);

    let patterns = t.analyze_memory_patterns();
    assert_eq!(patterns.len(), 2);
    assert_eq!(patterns[0].allocated_type, "table");
    assert_eq!(patterns[0].allocation_count, 3);
    assert_eq!(patterns[0].total_size, 32);
    assert_eq!(patterns[0].average_lifetime_ms, (5 + 2 + 3) / 3);
    assert_eq!(patterns[0].overlapping_pairs, 1);
    assert_eq!(patterns[1].allocated_type, "number");
    assert_eq!(patterns[1].average_lifetime_ms, 0);
}

#[test]
fn leaving_a_scope_frees_what_was_last_used_before_it_ends() {
    let mut t = LifetimeTracker::new();
    t.enter_scope(1);
    t.track_creation("x".to_string(), 2, 8, "number".to_string());
    t.track_creation("y".to_string(), 3, 8, "number".to_string());
    t.track_usage("x", 4, AccessType::Read);
    t.track_usage("y", 20, AccessType::Read);
    assert_eq!(t.get_current_scope_vars(), vec!["x".to_string(), "y".to_string()]);
    assert_eq!(t.exit_scope(10), vec!["x".to_string()]);
    assert!(t.get_current_scope_vars().is_empty());
}
