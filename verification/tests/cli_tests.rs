//! What the command-line compiler decides.

use roblox_rs::cli::{
    cargo_toml, cli_compile_options, default_output_path, main_rs, parse_optimization_level, project_directory,
    readme, MAIN_SRC,
};
use roblox_rs::compiler::OptimizationLevel;

#[test]
fn optimization_levels_by_name() {
    assert_eq!(parse_optimization_level("Aggressive"), Some(OptimizationLevel::Aggressive));
    assert_eq!(parse_optimization_level("minimal"), Some(OptimizationLevel::Minimal));
    assert_eq!(parse_optimization_level("DEFAULT"), Some(OptimizationLevel::Default));
    assert_eq!(parse_optimization_level("fast"), None);
    let o = cli_compile_options(true, OptimizationLevel::Minimal);
    assert!(o.include_runtime && o.debug_mode && !o.enable_parallelization);
}

#[test]
fn output_paths() {
    assert_eq!(default_output_path("game/main.rs"), "game/main.lua");
    assert_eq!(default_output_path("main"), "main.lua");
    assert_eq!(default_output_path("main.lua"), "main.lua.lua");
    assert_eq!(default_output_path("archive.tar.gz"), "archive.tar.lua");
    assert_eq!(default_output_path(".hidden"), ".hidden.lua");
    assert_eq!(project_directory("game", &None), "game");
    assert_eq!(project_directory("game", &Some("dir".to_string())), "dir");
}

#[test]
fn project_templates() {
    let plain = cargo_toml("game", false);
    assert!(plain.starts_with("[package]\nname = \"game\"\n"));
    assert!(!plain.contains("roblox-rs-ecs"));
    assert!(cargo_toml("game", true).contains("roblox-rs-core = \"0.1.0\"\nroblox-rs-ecs = \"0.1.0\"\n\n[features]"));
    assert_eq!(main_rs(false), MAIN_SRC);
    assert!(main_rs(true).contains("app.add_system(hello_world);"));
    assert!(readme("game").starts_with("# game\n\nA Roblox game written in Rust, compiled to Luau."));
}
