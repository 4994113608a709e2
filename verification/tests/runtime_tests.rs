//! The runtime library and the diagnostics around compiled code.

use roblox_rs::runtime::diagnostics::generate_source_map;
use roblox_rs::runtime::generate_runtime_module;

#[test]
fn source_maps_pair_lines() {
    let map = generate_source_map("fn a() {}\nfn b() {}\nfn c() {}", "line one\nline two");
    assert_eq!(
        map,
        vec![
            ("lua:1".to_string(), "rust:1 - fn a() {}".to_string()),
            ("lua:2".to_string(), "rust:2 - fn b() {}".to_string()),
        ]
    );
    assert!(generate_source_map("", "x").is_empty());
}

#[test]
fn the_runtime_module_has_its_parts() {
    let runtime = generate_runtime_module();
    assert!(runtime.contains("RobloxRS = {}"));
    for part in ["RobloxRS.Pool", "RobloxRS.Debug", "RobloxRS.Parallel", "coroutine.create"] {
        assert!(runtime.contains(part), "missing {}", part);
    }
}
