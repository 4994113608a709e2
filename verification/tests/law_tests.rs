//! The laws of the library on concrete values.

use roblox_rs::analysis::LifetimeTracker;
use roblox_rs::compiler::{compile, compile_default, compile_with_options, CompileOptions, OptimizationLevel};
use roblox_rs::debug::breakpoint::BreakpointManager;
use roblox_rs::debug::{RobloxRsDebugger, SourceLocation};
use roblox_rs::memory::default_memory_settings;
use roblox_rs::memory::manager::MemoryManager;
use roblox_rs::runtime::generate_runtime_module;

fn options(include_runtime: bool, debug_mode: bool, level: OptimizationLevel) -> CompileOptions {
    CompileOptions {
        include_runtime,
        debug_mode,
        enable_parallelization: false,
        optimization_level: level,
        generate_type_declarations: false,
        type_declarations_dir: None,
        rojo_project_path: None,
        serve_with_rojo: false,
        open_rojo_browser: false,
    }
}

fn location(line: usize) -> SourceLocation {
    SourceLocation { file: "main.rs".to_string(), line, column: 1 }
}

#[test]
fn the_runtime_is_linked_whole() {
    let runtime = generate_runtime_module();
    for debug in [false, true] {
        for level in [OptimizationLevel::Minimal, OptimizationLevel::Default, OptimizationLevel::Aggressive] {
            let out = compile_with_options("fn add(a: i32, b: i32) -> i32 { a + b }", options(true, debug, level)).unwrap();
            assert!(out.contains(&runtime));
        }
    }
    let bare = compile_with_options("fn add(a: i32, b: i32) -> i32 { a + b }", options(false, false, OptimizationLevel::Minimal)).unwrap();
    assert!(!bare.contains(&runtime));
    assert!(bare.starts_with("-- Generated by roblox-rs\n\n"));
}

#[test]
fn debug_output_begins_with_symbols() {
    let out = compile_with_options("fn f() {}", options(false, true, OptimizationLevel::Default)).unwrap();
    assert!(out.starts_with("--[[DEBUG_SYMBOLS\n  source_map = {\n"));
    let plain = compile_with_options("fn f() {}", options(false, false, OptimizationLevel::Default)).unwrap();
    assert!(!plain.contains("DEBUG_SYMBOLS"));
}

#[test]
fn restoring_gives_the_snapshot_back() {
    let mut debugger = RobloxRsDebugger::new();
    let a = debugger.track_allocation(16, "table", location(1));
    debugger.create_recovery_point("start", location(2));
    let b = debugger.track_allocation(32, "string", location(3));
    debugger.mark_freed(a).unwrap();
    assert_eq!(debugger.get_memory_leaks().len(), 1);
    assert_eq!(debugger.get_memory_leaks()[0].address, b);
    debugger.restore_recovery_point("start").unwrap();
    let leaks = debugger.get_memory_leaks();
    assert_eq!(leaks.len(), 1);
    assert_eq!(leaks[0].address, a);
    assert_eq!(leaks[0].size, 16);
    assert_eq!(
        debugger.restore_recovery_point("missing").unwrap_err(),
        "Recovery point 'missing' not found"
    );
    assert_eq!(debugger.mark_freed(99).unwrap_err(), "Invalid heap address: 99");
}

#[test]
fn freeing_what_was_just_tracked_leaves_the_leaks() {
    let mut debugger = RobloxRsDebugger::new();
    debugger.track_allocation(8, "table", location(1));
    let before = debugger.get_memory_leaks().len();
    let address = debugger.track_allocation(4, "table", location(2));
    debugger.mark_freed(address).unwrap();
    assert_eq!(debugger.get_memory_leaks().len(), before);
}

#[test]
fn removing_a_new_breakpoint_undoes_adding_it() {
    let mut debugger = RobloxRsDebugger::new();
    debugger.add_breakpoint(3);
    debugger.add_breakpoint(7);
    debugger.remove_breakpoint(7);
    let info = debugger.generate_debug_info();
    assert_eq!(info.source_map, vec![("line_3".to_string(), "luau_line_3".to_string())]);
}

#[test]
fn toggling_twice_restores_a_breakpoint() {
    let mut manager = BreakpointManager::new();
    manager.add_breakpoint(5, None);
    assert!(!manager.toggle_breakpoint(5));
    assert!(manager.toggle_breakpoint(5));
    assert!(manager.get_breakpoint_info(5).unwrap().enabled);
    assert!(!manager.toggle_breakpoint(6));
    assert!(manager.get_breakpoint_info(6).is_none());
}

#[test]
fn leaving_a_fresh_scope_frees_nothing() {
    let mut tracker = LifetimeTracker::new();
    tracker.track_creation("x".to_string(), 1, 8, "number".to_string());
    let before = tracker.get_current_scope_vars();
    tracker.enter_scope(2);
    assert!(tracker.get_current_scope_vars().is_empty());
    assert!(tracker.exit_scope(3).is_empty());
    assert_eq!(tracker.get_current_scope_vars(), before);
}

#[test]
fn memory_in_use_balances() {
    let mut manager = MemoryManager::new(default_memory_settings());
    let a = manager.allocate("table", 40);
    let b = manager.allocate("array", 10);
    manager.free(a);
    let s = *manager.get_stats();
    assert_eq!(s.current_usage + s.total_freed, s.total_allocated);
    assert_eq!(s.current_usage, 10);
    assert_eq!(s.peak_usage, 50);
    manager.free(b);
    assert_eq!(manager.get_stats().current_usage, 0);
}

#[test]
fn profiling_wrapper_keeps_and_wraps_the_original() {
    let w = roblox_rs::runtime::diagnostics::generate_profiling_wrapper("step", "(dt)\n    return dt\nend");
    assert!(w.contains("local function step_original(dt)\n    return dt\nend\n"));
    assert!(w.contains("local function step(...)"));
    assert!(w.contains("RobloxRS.Profiler.start(\"step\")"));
    assert!(w.contains("pcall("));
    assert!(w.ends_with("step_original = step\n"));
}

#[test]
fn dependency_analyzer_records_outside_crates_once() {
    let mut a = roblox_rs::ast::visitor::DependencyAnalyzer::new();
    for (name, next) in [("serde", Some("de")), ("std", Some("io")), ("crate", None), ("self", None), ("serde", None), ("selfish", None)] {
        a.note_use_path(name, next);
    }
    assert_eq!(a.external_crates, vec!["serde".to_string()]);
    assert_eq!(a.std_modules, vec!["io".to_string()]);
}

#[test]
fn every_function_is_defined_in_the_output() {
    let src = "fn add(a: i32, b: i32) -> i32 { a + b }\nstruct P { x: i32 }\nfn twice(x: i32) -> i32 { add(x, x) }";
    for debug in [false, true] {
        for runtime in [false, true] {
            let out = compile_with_options(src, options(runtime, debug, OptimizationLevel::Default)).unwrap();
            assert!(out.contains("function add("));
            assert!(out.contains("function twice("));
        }
    }
}

#[test]
fn compile_default_is_compile_with_default_options() {
    for src in ["fn add(a: i32, b: i32) -> i32 { a + b }", "fn broken(", "trait T {}", "fn m(&self) {}"] {
        let a = compile_default(src);
        let b = compile(src, CompileOptions::default());
        match (a, b) {
            (Ok(x), Ok(y)) => assert_eq!(x, y),
            (Err(x), Err(y)) => assert_eq!(x.message(), y.message()),
            _ => panic!("the outcomes differ for {}", src),
        }
    }
}

#[test]
fn runtime_sections_come_with_the_runtime() {
    let out = compile_with_options("fn sample() -> i32 { 42 }", options(true, true, OptimizationLevel::Aggressive)).unwrap();
    for part in [
        roblox_rs::runtime::RUNTIME_BANNER,
        roblox_rs::runtime::POOL_HELPERS_SRC,
        roblox_rs::runtime::PARALLEL_HELPERS_SRC,
        roblox_rs::runtime::DEBUG_HELPERS_SRC,
    ] {
        assert!(out.contains(part));
    }
    assert!(out.contains("function pool:get()") && out.contains("coroutine.resume"));
}

#[test]
fn debug_output_traces_each_function() {
    let out = compile_with_options("fn calculate(x: i32) -> i32 { x }", options(false, true, OptimizationLevel::Default)).unwrap();
    assert!(out.contains("RobloxRS.Debug.line_info"));
    assert!(out.contains("RobloxRS.Debug.variable_info = {}"));
    assert!(out.contains("-- Debug information for function: calculate"));
}
