//! What the syntax-tree visitors record.

use roblox_rs::ast::visitor::{AstCollector, CompatibilityChecker, DependencyAnalyzer};

#[test]
fn collector_records_in_order() {
    let mut collector = AstCollector::new();
    collector.add_function("hello".to_string());
    collector.add_struct("Point".to_string());
    collector.add_enum("Direction".to_string());
    collector.add_function("main".to_string());
    assert_eq!(collector.functions, vec!["hello".to_string(), "main".to_string()]);
    assert_eq!(collector.structs, vec!["Point".to_string()]);
    assert_eq!(collector.enums, vec!["Direction".to_string()]);
    assert!(collector.imports.is_empty());
}

#[test]
fn dependencies_are_recorded_once() {
    let mut analyzer = DependencyAnalyzer::new();
    analyzer.note_use_path("std", Some("collections"));
    analyzer.note_use_path("std", Some("collections"));
    analyzer.note_use_path("std", None);
    analyzer.note_use_path("serde", Some("Serialize"));
    analyzer.note_use_path("serde", None);
    analyzer.note_use_path("crate", Some("ast"));
    analyzer.note_use_path("self_made", None);
    assert_eq!(analyzer.std_modules, vec!["collections".to_string()]);
    assert_eq!(analyzer.external_crates, vec!["serde".to_string()]);
}

#[test]
fn compatibility_issues() {
    let mut checker = CompatibilityChecker::new();
    checker.check_function("fetch", true, true);
    checker.check_function("plain", false, false);
    checker.check_method_call("spawn");
    checker.check_method_call("push");
    assert_eq!(
        checker.issues,
        vec![
            "Async function 'fetch' may need special handling for Luau".to_string(),
            "Unsafe function 'fetch' will need manual safety checks in Luau".to_string(),
            "Method call 'spawn' might not be directly translatable to Luau".to_string(),
        ]
    );
}
