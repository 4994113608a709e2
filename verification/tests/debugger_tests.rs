//! The debugger: breakpoints, watches, recovery points and the heap.

use roblox_rs::debug::{RobloxRsDebugger, SourceLocation};

#[test]
fn test_debugger() {
    let mut debugger = RobloxRsDebugger::new();

    // Initial state should be empty
    let initial_info = debugger.generate_debug_info();
    assert!(initial_info.source_map.is_empty());
    assert!(initial_info.variable_types.is_empty());

    // Add breakpoints and watches
    debugger.add_breakpoint(10);
    debugger.add_breakpoint(20);
    debugger.add_watch("test_var", "test_expression");

    // After adding breakpoints, source map should have entries
    let debug_info = debugger.generate_debug_info();
    assert_eq!(debug_info.source_map.len(), 2); // One entry per breakpoint
    assert!(debug_info.variable_types.is_empty());

    // Add some source mappings and type info for better test coverage
    debugger.add_source_mapping("line_10", "luau_line_20");
    debugger.add_type_info("test_var", "number");

    // Generate updated debug info
    let updated_debug_info = debugger.generate_debug_info();

    // Verify the updated source map and variable types
    assert_eq!(updated_debug_info.source_map.len(), 3); // 2 breakpoints + 1 manual mapping
    assert_eq!(updated_debug_info.variable_types.len(), 1);
}
