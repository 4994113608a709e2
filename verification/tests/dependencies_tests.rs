//! Dependencies: configurations, the package cache, and the bundlers.

use roblox_rs::dependencies::cli::{
    index_file_text, output_action, types_file_text, BundlerArgs, BundlerCli, OutputAction,
};
use roblox_rs::dependencies::web::{RobloxRsWebBundler, WebBundlerConfig};
use roblox_rs::dependencies::{
    dependency_configs, fetch_manifest, minify_lua, package_key, CompiledPackage, ComplexDependency,
    DependencyConfig, DependencyDetail, DependencyManager,
};

fn create_mock_package() -> CompiledPackage {
    CompiledPackage {
        name: "test-package".to_string(),
        version: "1.0.0".to_string(),
        code: "-- Test Luau code\nlocal module = {}\nfunction module.add(a, b) return a + b end\nreturn module".to_string(),
        types: Some("-- Type definitions\nexport type TestModule = { add: (number, number) -> number }".to_string()),
        dependencies: vec!["dep1".to_string(), "dep2".to_string()],
    }
}

#[test]
fn test_mock_dependency_config() {
    // Create a test dependency config
    let config = DependencyConfig {
        name: "test-crate".to_string(),
        version: "0.1.0".to_string(),
        main: "src/lib.rs".to_string(),
        types: Some("types/index.d.ts".to_string()),
        repository: Some("https://github.com/test/test-crate".to_string()),
        metadata: vec![("author".to_string(), "Test Author".to_string())],
        features: vec!["feature1".to_string(), "feature2".to_string()],
    };

    // Verify config fields
    assert_eq!(config.name, "test-crate");
    assert_eq!(config.version, "0.1.0");
    assert_eq!(config.main, "src/lib.rs");
    assert_eq!(config.types, Some("types/index.d.ts".to_string()));
    assert_eq!(config.repository, Some("https://github.com/test/test-crate".to_string()));
    assert_eq!(config.features, vec!["feature1".to_string(), "feature2".to_string()]);
    assert_eq!(
        config.metadata.iter().find(|(k, _)| k == "author").map(|(_, v)| v),
        Some(&"Test Author".to_string())
    );
}

#[test]
fn test_web_bundler_config() {
    // Create a web bundler config
    let config = WebBundlerConfig {
        project_name: "test-project".to_string(),
        output_format: "lua".to_string(),
        include_docs: true,
        minify: false,
        path_mapping: Some(vec![("src".to_string(), "game.ReplicatedStorage.SourceModules".to_string())]),
    };

    // Verify config fields
    assert_eq!(config.project_name, "test-project");
    assert_eq!(config.output_format, "lua");
    assert!(config.include_docs);
    assert!(!config.minify);
    assert!(config.path_mapping.is_some());

    if let Some(mapping) = &config.path_mapping {
        assert_eq!(
            mapping.iter().find(|(k, _)| k == "src").map(|(_, v)| v),
            Some(&"game.ReplicatedStorage.SourceModules".to_string())
        );
    }
}

#[test]
fn manifest_dependencies_become_configs() {
    let deps = vec![
        ("serde".to_string(), DependencyDetail::Simple("1.0.0".to_string())),
        (
            "tokio".to_string(),
            DependencyDetail::Complex(ComplexDependency {
                version: Some("1.0".to_string()),
                path: None,
                git: None,
                branch: None,
                features: Some(vec!["full".to_string()]),
            }),
        ),
        (
            "local".to_string(),
            DependencyDetail::Complex(ComplexDependency {
                version: None,
                path: Some("../local".to_string()),
                git: None,
                branch: None,
                features: None,
            }),
        ),
    ];
    let configs = dependency_configs(&deps);
    assert_eq!(configs.len(), 3);
    assert_eq!(configs[0].name, "serde");
    assert_eq!(configs[0].version, "1.0.0");
    assert!(configs[0].features.is_empty());
    assert_eq!(configs[1].version, "1.0");
    assert_eq!(configs[1].features, vec!["full".to_string()]);
    assert_eq!(configs[2].version, "*");
    assert_eq!(configs[2].main, "src/lib.rs");
    assert!(configs[2].types.is_none() && configs[2].repository.is_none() && configs[2].metadata.is_empty());
}

#[test]
fn the_cache_is_keyed_by_name_and_version() {
    assert_eq!(package_key("serde", "1.0"), "serde@1.0");
    let mut manager = DependencyManager::new("/project", "/out");
    let config = DependencyConfig {
        name: "test-package".to_string(),
        version: "1.0.0".to_string(),
        main: "src/lib.rs".to_string(),
        types: None,
        repository: None,
        metadata: Vec::new(),
        features: Vec::new(),
    };
    assert!(manager.cached_package(&config).is_none());
    manager.cache_package(create_mock_package());
    let cached = manager.cached_package(&config).unwrap();
    assert_eq!(cached.code, create_mock_package().code);
    assert_eq!(cached.dependencies, vec!["dep1".to_string(), "dep2".to_string()]);
    assert_eq!(manager.package_dir("test-package"), "/out/packages/test-package");
    assert_eq!(manager.temp_dir("serde"), "/out/temp/serde");
    assert_eq!(manager.generate_roblox_model().unwrap(), "/out/dependencies.rbxm");
    assert_eq!(manager.manifest_path(), "/project/Cargo.toml");
}

#[test]
fn fetch_manifest_names_the_dependency() {
    assert_eq!(
        fetch_manifest("rand", "0.8"),
        "[package]\nname = \"temp_package\"\nversion = \"0.1.0\"\nedition = \"2021\"\n\n[dependencies]\nrand = \"0.8\""
    );
}

#[test]
fn minify_drops_comments_and_white_space() {
    assert_eq!(minify_lua("-- header\nlocal x = 1 -- one\n\n  return x  \r\n"), "local x = 1 return x ");
    assert_eq!(minify_lua(""), "");
}

#[test]
fn web_bundles_lua_with_index_and_types() {
    let mut bundler = RobloxRsWebBundler::new(WebBundlerConfig {
        project_name: "demo".to_string(),
        output_format: "lua".to_string(),
        include_docs: true,
        minify: true,
        path_mapping: None,
    });
    assert!(bundler.initialize("/root").is_ok());
    let result = bundler.bundle_dependencies(vec![create_mock_package()], 7).unwrap();
    let names: Vec<&str> = result.files.iter().map(|f| f.name.as_str()).collect();
    assert_eq!(names, vec!["test-package.lua", "index.lua", "types.d.lua"]);
    assert_eq!(result.files[0].content, "local module = {} function module.add(a, b) return a + b end return module ");
    assert_eq!(
        result.files[1].content,
        "-- Generated by Roblox-RS Web Bundler\n-- https://github.com/your-username/roblox-rs\n\nlocal RobloxRs = {}\n\nRobloxRs.test-package = require(script.test-package)\n\nreturn RobloxRs\n"
    );
    assert!(result.files[2].content.contains("    -- test-package types\n-- Type definitions\n"));
    assert_eq!(result.metrics.package_count, 1);
    assert_eq!(result.metrics.rust_lines, 4);
    assert_eq!(result.metrics.luau_lines, 1 + 8 + 12);
    assert_eq!(result.metrics.time_ms, 7);
    assert_eq!(bundler.get_status().packages, 1);
}

#[test]
fn web_refuses_unknown_formats() {
    let mut bundler = RobloxRsWebBundler::new(WebBundlerConfig {
        project_name: "demo".to_string(),
        output_format: "zip".to_string(),
        include_docs: false,
        minify: false,
        path_mapping: None,
    });
    match bundler.bundle_dependencies(Vec::new(), 0) {
        Err(m) => assert_eq!(m, "Failed to generate output files: Unsupported output format: zip"),
        Ok(_) => panic!("an unknown format was bundled"),
    }
}

#[test]
fn web_rbxm_is_one_model() {
    let bundler = RobloxRsWebBundler::new(WebBundlerConfig {
        project_name: "demo".to_string(),
        output_format: "rbxm".to_string(),
        include_docs: false,
        minify: false,
        path_mapping: None,
    });
    let files = bundler.generate_output_files(&[create_mock_package()]).unwrap();
    assert_eq!(files.len(), 1);
    assert_eq!(files[0].name, "demo.rbxm");
    assert_eq!(files[0].file_type, "rbxm");
}

#[test]
fn cli_names_and_files() {
    let args = BundlerArgs {
        project_dir: "/work/my-game/".to_string(),
        output_dir: None,
        format: "lua".to_string(),
        name: None,
        minify: false,
        docs: true,
        verbose: false,
    };
    let cli = BundlerCli::new(args);
    assert_eq!(cli.get_output_dir(), "/work/my-game/roblox-rs-output");
    let index = cli.generate_index_file(&[create_mock_package()]).unwrap();
    assert!(index.starts_with("-- Generated by Roblox-RS Dependency Bundler\n-- Project: my-game\n-- Generated on: "));
    assert!(index.ends_with("-- Package: test-package v1.0.0\nPackages.test-package = require(script.modules.test-package)\n\nreturn Packages\n"));
    assert_eq!(
        types_file_text("p", "T", &[create_mock_package()]),
        "-- Type definitions for Roblox-RS dependencies\n-- Project: p\n-- Generated on: T\n\nexport type Packages = {\n    test-package: any, -- v1.0.0\n}\n\nreturn nil\n"
    );
    assert_eq!(
        index_file_text("p", "T", &[]),
        "-- Generated by Roblox-RS Dependency Bundler\n-- Project: p\n-- Generated on: T\n\nlocal Packages = {}\n\nreturn Packages\n"
    );
    assert_eq!(output_action("rbxm").unwrap(), OutputAction::Model);
    assert_eq!(output_action("lua").unwrap(), OutputAction::LuaModules);
    assert_eq!(output_action("zip").unwrap_err(), "Unsupported output format: zip");
}
