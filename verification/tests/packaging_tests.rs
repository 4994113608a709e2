//! Place files: scanning records, transpiled scripts and their XML.

use roblox_rs::packaging::place_gen::{PlaceFile, ScriptEntry};
use roblox_rs::packaging::place_generator::{asset_type_for, AssetType, PlaceGenerator, PlaceGeneratorConfig, Workspace};

fn generator(include_runtime: bool) -> PlaceGenerator {
    let mut config = PlaceGeneratorConfig::default();
    config.project_path = "/game".to_string();
    config.include_runtime = include_runtime;
    PlaceGenerator::new(config)
}

#[test]
fn assets_are_classified_by_extension() {
    assert!(matches!(asset_type_for("rbxmx"), AssetType::Model));
    assert!(matches!(asset_type_for("jpeg"), AssetType::Image));
    assert!(matches!(asset_type_for("ogg"), AssetType::Audio));
    assert!(matches!(asset_type_for("fbx"), AssetType::Animation));
    assert!(matches!(asset_type_for("obj"), AssetType::Mesh));
    match asset_type_for("wav") {
        AssetType::Other(e) => assert_eq!(e, "wav"),
        other => panic!("unexpected {:?}", other),
    }
}

#[test]
fn scanning_and_transpiling_are_counted() {
    let mut g = generator(false);
    g.begin_scan();
    g.add_rust_file(Workspace::Server, "/game/server/main.rs".to_string());
    g.add_rust_file(Workspace::Shared, "/game/shared/util.rs".to_string());
    g.add_asset("/game/assets/logo.png".to_string(), "png");
    g.transpile_file(Workspace::Server, "/game/server/main.rs", "main.rs");
    g.transpile_file(Workspace::Shared, "/game/shared/util.rs", "util.rs");
    g.transpile_file(Workspace::Shared, "/game/shared/util.rs", "util.rs");
    let stats = g.get_stats();
    let counts: Vec<(&str, usize)> = stats.iter().map(|(k, v)| (k.as_str(), *v)).collect();
    assert_eq!(
        counts,
        vec![("client_files", 0), ("shared_files", 1), ("server_files", 1), ("asset_files", 1), ("transpiled_modules", 2)]
    );
    let scripts = g.transpiled_scripts();
    assert_eq!(scripts[0].0, "server/main.lua");
    assert_eq!(
        scripts[0].1,
        "-- Transpiled from /game/server/main.rs\n-- Workspace: server\n\nlocal module = {}\n\n-- Mock transpiled code\nfunction module.init()\n    print(\"Initialized main.rs\")\nend\n\nreturn module"
    );
    assert_eq!(scripts[1].0, "shared/util.lua");
    assert_eq!(g.files_in(Workspace::Client).unwrap().len(), 0);
}

#[test]
fn the_place_holds_each_script_in_its_service() {
    let mut g = generator(false);
    g.begin_scan();
    g.transpile_file(Workspace::Server, "s.rs", "main_init.rs");
    g.transpile_file(Workspace::Client, "c.rs", "ui.rs");
    assert!(g.scripts_have_names());
    let xml = g.generate_place_xml();
    assert!(xml.starts_with("<?xml version=\"1.0\" encoding=\"UTF-8\"?>\n"));
    assert!(xml.contains("\t\t\t<Item class=\"Script\" referent=\"RBXS\">\n\t\t\t\t<Properties>\n\t\t\t\t\t<string name=\"Name\">main_init</string>\n"));
    assert!(xml.contains("\t\t\t\t<Item class=\"ModuleScript\" referent=\"RBXS\">\n\t\t\t\t\t<Properties>\n\t\t\t\t\t\t<string name=\"Name\">ui</string>\n"));
    assert!(!xml.contains("RobloxRS_Runtime"));
    assert!(xml.ends_with("\t\t\t</Item>\n\t\t</Item>\n\t</Item>\n</roblox>"));
    let with_runtime = {
        let mut g = generator(true);
        g.begin_scan();
        g.generate_place_xml()
    };
    assert!(with_runtime.contains("<string name=\"Name\">RobloxRS_Runtime</string>"));
}

#[test]
fn place_file_items() {
    let place = PlaceFile::new("/p", "/out", "Game");
    assert_eq!(place.client_path, "/p/client");
    assert_eq!(place.assets_path, "/p/assets");
    assert_eq!(
        place.generate_service_xml("Workspace", "RBX0", &["RBX9".to_string()]),
        "\t<Item class=\"Workspace\" referent=\"RBX0\">\n\t\t<Properties>\n\t\t</Properties>\n\t\t<Item referent=\"RBX9\">\n\t\t</Item>\n\t</Item>\n"
    );
    assert_eq!(
        place.generate_folder_xml("Shared", "RBX3", "RBX2", &[]),
        "\t<Item class=\"Folder\" referent=\"RBX3\">\n\t\t<Properties>\n\t\t\t<string name=\"Name\">Shared</string>\n\t\t\t<string name=\"Parent\">RBX2</string>\n\t\t</Properties>\n\t</Item>\n"
    );
    let entries = vec![
        ScriptEntry::Script { name: "a".to_string(), source: "return 1".to_string() },
        ScriptEntry::Other,
        ScriptEntry::Folder { name: "lib".to_string() },
    ];
    let mut refs = vec!["RBX0".to_string(), "RBX1".to_string()];
    let mut scripts: Vec<(String, String)> = Vec::new();
    place.add_scripts_to_xml(&entries, "LocalScript", &mut refs, &mut scripts);
    assert_eq!(refs.len(), 4);
    assert_eq!(scripts[0].0, "RBX2");
    assert_eq!(
        scripts[0].1,
        "\t<Item class=\"LocalScript\" referent=\"RBX2\">\n\t\t<Properties>\n\t\t\t<string name=\"Name\">a</string>\n\t\t\t<string name=\"Parent\">RBX6</string>\n\t\t\t<ProtectedString name=\"Source\"><![CDATA[return 1]]></ProtectedString>\n\t\t</Properties>\n\t</Item>\n"
    );
    assert_eq!(scripts[1].0, "RBX3");
    assert!(scripts[1].1.contains("<string name=\"Name\">lib</string>"));
}
