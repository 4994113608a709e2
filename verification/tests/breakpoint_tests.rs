//! The breakpoint manager.

use roblox_rs::debug::breakpoint::BreakpointManager;

fn locals(pairs: &[(&str, &str)]) -> Vec<(String, String)> {
    pairs.iter().map(|(k, v)| (k.to_string(), v.to_string())).collect()
}

#[test]
fn breaking_counts_hits_and_updates_watches() {
    let mut manager = BreakpointManager::new();
    manager.add_breakpoint(12, Some("x > 1".to_string()));
    manager.add_watch("x".to_string(), None);
    manager.add_watch("y".to_string(), None);
    assert!(manager.add_watch_to_breakpoint(12, "x".to_string()));
    assert!(!manager.add_watch_to_breakpoint(13, "x".to_string()));

    assert!(!manager.update_line(11, locals(&[("x", "1")])));
    assert_eq!(manager.get_breakpoint_info(12).unwrap().hit_count, 0);
    assert!(manager.update_line(12, locals(&[("x", "5"), ("y", "7")])));
    assert_eq!(manager.get_breakpoint_info(12).unwrap().hit_count, 1);

    let watches = manager.get_watch_values();
    assert_eq!(watches[0], ("x".to_string(), Some("5".to_string())));
    assert_eq!(watches[1], ("y".to_string(), None));
    assert_eq!(manager.evaluate_expression("y"), Some("7".to_string()));
    assert_eq!(manager.evaluate_expression("z"), None);
    assert!(manager.evaluate_condition("anything"));

    let context = manager.get_current_context();
    assert_eq!(context.line, 12);
    assert_eq!(context.locals.len(), 2);
    assert_eq!(context.watches.len(), 2);
}

#[test]
fn disabled_and_cleared_breakpoints_do_not_break() {
    let mut manager = BreakpointManager::new();
    manager.add_breakpoint(3, None);
    manager.toggle_breakpoint(3);
    assert!(!manager.update_line(3, Vec::new()));
    assert!(manager.clear_breakpoint(3));
    assert!(!manager.clear_breakpoint(3));
    manager.add_breakpoint(4, None);
    manager.add_breakpoint(5, None);
    manager.clear_all_breakpoints();
    assert!(manager.get_breakpoint_info(4).is_none() && manager.get_breakpoint_info(5).is_none());
}
