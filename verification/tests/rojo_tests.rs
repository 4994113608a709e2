//! Rojo projects and the outputs of their Rust scripts.

use roblox_rs::rojo::{default_project, default_rojo_version, RojoManager, RojoNode, RojoProject};

fn script(path: &str) -> RojoNode {
    RojoNode::Script { path: Some(path.to_string()), properties: None }
}

#[test]
fn rust_scripts_map_to_lua_files() {
    let project = RojoProject {
        name: Some("game".to_string()),
        tree: vec![
            (
                "ServerScriptService".to_string(),
                RojoNode::Folder {
                    path: None,
                    properties: None,
                    children: vec![
                        ("Main".to_string(), script("src/server/main.rs")),
                        ("Readme".to_string(), script("src/server/notes.txt")),
                        (
                            "Nested".to_string(),
                            RojoNode::DataModel {
                                path: None,
                                properties: None,
                                children: vec![(
                                    "Client".to_string(),
                                    RojoNode::LocalScript { path: Some("client/ui.rs".to_string()), properties: None },
                                )],
                            },
                        ),
                    ],
                },
            ),
            (
                "Shared".to_string(),
                RojoNode::ModuleScript {
                    path: Some("shared/util.rs".to_string()),
                    properties: None,
                    children: Some(vec![("Inner".to_string(), script("shared/inner.rs"))]),
                },
            ),
            ("Other".to_string(), RojoNode::Other),
        ],
        serve_port: None,
        rojo_version: default_rojo_version(),
    };
    let mut manager = RojoManager::new("default.project.json");
    manager.set_project(project);
    assert_eq!(manager.get_output_path("src/server/main.rs").unwrap(), "src/server/main.lua");
    assert_eq!(manager.get_output_path("client/ui.rs").unwrap(), "client/ui.lua");
    assert_eq!(manager.get_output_path("shared/util.rs").unwrap(), "shared/util.lua");
    assert!(manager.get_output_path("src/server/notes.txt").is_none());
    assert!(manager.get_output_path("shared/inner.rs").is_none());
    assert_eq!(manager.serve_port().unwrap(), 34872);
    manager.set_serving(true);
    assert_eq!(manager.serve_port().unwrap_err(), "Rojo is already serving this project");
}

#[test]
fn default_project_has_three_folders() {
    let project = default_project("test-project", "src");
    assert_eq!(project.name.as_deref(), Some("test-project"));
    assert_eq!(project.serve_port, Some(34872));
    assert_eq!(project.rojo_version, "7.0.0");
    let names: Vec<&str> = project.tree.iter().map(|(n, _)| n.as_str()).collect();
    assert_eq!(names, vec!["ServerScriptService", "StarterPlayerScripts", "ReplicatedStorage"]);
    match &project.tree[2].1 {
        RojoNode::Folder { path, .. } => assert_eq!(path.as_deref(), Some("src/shared")),
        _ => panic!("not a folder"),
    }
}
