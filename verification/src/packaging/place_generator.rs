//! Generating a Roblox place file from a project's transpiled scripts and
//! assets.

use vstd::prelude::*;
use crate::keyed::{keys_unique, lemma_put, put, put_spec};
use crate::runtime::{generate_runtime_module, runtime_module_text};
use crate::text::paths::{
    ends_with,
    file_name,
    file_name_of,
    has_prefix,
    has_suffix,
    replace_all,
    replace_str,
    starts_with,
    stem,
    stem_of,
};
use crate::text::push_char;

verus! {

/// Workspace structure for Roblox-rs projects
#[derive(Debug, Clone, Copy, PartialEq, Eq, Structural, Hash)]
pub enum Workspace {
    Client,
    Shared,
    Server,
}

/// Asset types supported in Roblox-rs projects
#[derive(Debug, Clone)]
pub enum AssetType {
    Model,
    Image,
    Audio,
    Animation,
    Mesh,
    Other(String),
}

/// Configuration for place file generation
#[derive(Debug)]
pub struct PlaceGeneratorConfig {
    pub project_path: String,
    pub output_path: String,
    pub include_runtime: bool,
    pub include_test_code: bool,
    pub auto_start_server_scripts: bool,
    pub place_version: String,
    pub place_name: String,
}

impl Default for PlaceGeneratorConfig {
    fn default() -> (r: Self)
        ensures
            r.project_path@.len() == 0,
            r.output_path@.len() == 0,
            r.include_runtime,
            !r.include_test_code,
            r.auto_start_server_scripts,
            r.place_version@ == "0.1.0"@,
            r.place_name@ == "RobloxRS Project"@,
    {
        PlaceGeneratorConfig {
            project_path: String::new(),
            output_path: String::new(),
            include_runtime: true,
            include_test_code: false,
            auto_start_server_scripts: true,
            place_version: String::from_str("0.1.0"),
            place_name: String::from_str("RobloxRS Project"),
        }
    }
}

/// The place generator: the project's Rust files by workspace, its assets,
/// and the scripts transpiled from them by output path.
pub struct PlaceGenerator {
    config: PlaceGeneratorConfig,
    client_files: Option<Vec<String>>,
    shared_files: Option<Vec<String>>,
    server_files: Option<Vec<String>>,
    asset_files: Vec<(String, AssetType)>,
    transpiled_code: Vec<(String, String)>,
}

/// The directory name of a workspace.
pub open spec fn workspace_name(w: Workspace) -> Seq<char> {
    match w {
        Workspace::Client => "client"@,
        Workspace::Shared => "shared"@,
        Workspace::Server => "server"@,
    }
}

/// The directory name of a workspace.
pub fn workspace_dir(w: Workspace) -> (r: &'static str)
    ensures
        r@ == workspace_name(w),
{
    match w {
        Workspace::Client => "client",
        Workspace::Shared => "shared",
        Workspace::Server => "server",
    }
}

/// Whether `a` is the kind of asset a file extension names: models,
/// images, audio and animations by their usual extensions (`fbx` is an
/// animation), anything else by its extension.
pub open spec fn is_asset_kind(a: AssetType, extension: Seq<char>) -> bool {
    if extension == "rbxm"@ || extension == "rbxmx"@ {
        a is Model
    } else if extension == "png"@ || extension == "jpg"@ || extension == "jpeg"@ {
        a is Image
    } else if extension == "mp3"@ || extension == "ogg"@ {
        a is Audio
    } else if extension == "fbx"@ {
        a is Animation
    } else if extension == "obj"@ {
        a is Mesh
    } else {
        a matches AssetType::Other(e) && e@ == extension
    }
}

/// The kind of asset a file extension names.
pub fn asset_type_for(extension: &str) -> (r: AssetType)
    ensures
        is_asset_kind(r, extension@),
{
    proof {
        reveal_strlit("rbxm");
        reveal_strlit("rbxmx");
        reveal_strlit("png");
        reveal_strlit("jpg");
        reveal_strlit("jpeg");
        reveal_strlit("mp3");
        reveal_strlit("ogg");
        reveal_strlit("fbx");
        reveal_strlit("obj");
    }
    if crate::keyed::str_eq(extension, "rbxm") || crate::keyed::str_eq(extension, "rbxmx") {
        AssetType::Model
    } else if crate::keyed::str_eq(extension, "png") || crate::keyed::str_eq(extension, "jpg")
        || crate::keyed::str_eq(extension, "jpeg") {
        AssetType::Image
    } else if crate::keyed::str_eq(extension, "mp3") || crate::keyed::str_eq(extension, "ogg") {
        AssetType::Audio
    } else if crate::keyed::str_eq(extension, "fbx") {
        AssetType::Animation
    } else if crate::keyed::str_eq(extension, "obj") {
        AssetType::Mesh
    } else {
        AssetType::Other(String::from_str(extension))
    }
}

/// The mock script a Rust file transpiles to.
pub open spec fn mock_script(path_display: Seq<char>, workspace: Seq<char>, file_name: Seq<char>) -> Seq<char> {
    "-- Transpiled from "@ + path_display + "\n-- Workspace: "@ + workspace
        + "\n\nlocal module = {}\n\n-- Mock transpiled code\nfunction module.init()\n    print(\"Initialized "@
        + file_name + "\")\nend\n\nreturn module"@
}

/// The output path of a transpiled file: its workspace's directory, then
/// its name with `.rs` turned into `.lua`.
pub open spec fn output_key(workspace: Seq<char>, file_name: Seq<char>) -> Seq<char> {
    workspace + "/"@ + replace_all(file_name, ".rs"@, ".lua"@)
}

/// A run of `n` tabs.
pub open spec fn tabs(n: nat) -> Seq<char> {
    Seq::new(n, |i: int| '\t')
}

/// The item of a script in the place file, indented by `depth` tabs.
pub open spec fn script_item(depth: nat, class: Seq<char>, name: Seq<char>, source: Seq<char>) -> Seq<char> {
    tabs(depth) + "<Item class=\""@ + class + "\" referent=\"RBXS\">\n"@ + tabs(depth + 1)
        + "<Properties>\n"@ + tabs(depth + 2) + "<string name=\"Name\">"@ + name + "</string>\n"@
        + tabs(depth + 2) + "<ProtectedString name=\"Source\"><![CDATA["@ + source
        + "]]></ProtectedString>\n"@ + tabs(depth + 1) + "</Properties>\n"@ + tabs(depth)
        + "</Item>\n"@
}

/// The class of the script at `path`: `init_class` for an `_init.lua`
/// file, else a module script.
pub open spec fn script_class(path: Seq<char>, init_class: Seq<char>) -> Seq<char> {
    if ends_with(path, "_init.lua"@) {
        init_class
    } else {
        "ModuleScript"@
    }
}

/// The items of the scripts whose paths begin with `prefix`, in order.
pub open spec fn section_text(
    scripts: Seq<(String, String)>,
    prefix: Seq<char>,
    depth: nat,
    init_class: Seq<char>,
) -> Seq<char>
    decreases scripts.len(),
{
    if scripts.len() == 0 {
        Seq::empty()
    } else {
        let path = scripts.last().0@;
        section_text(scripts.drop_last(), prefix, depth, init_class) + if starts_with(path, prefix) {
            script_item(
                depth,
                script_class(path, init_class),
                stem(file_name(path)->0),
                scripts.last().1@,
            )
        } else {
            Seq::empty()
        }
    }
}

/// Whether each script under one of the workspaces has a file name.
pub open spec fn scripts_named(scripts: Seq<(String, String)>) -> bool {
    forall|i: int|
        0 <= i < scripts.len() && (starts_with(#[trigger] scripts[i].0@, "shared/"@) || starts_with(
            scripts[i].0@,
            "server/"@,
        ) || starts_with(scripts[i].0@, "client/"@)) ==> file_name(scripts[i].0@) is Some
}

/// The place file up to the scripts of the shared folder: the header, the
/// workspace, and the opening of replicated storage and its shared folder.
pub const XML_HEAD: &'static str = "<?xml version=\"1.0\" encoding=\"UTF-8\"?>\n<roblox xmlns:xmime=\"http://www.w3.org/2005/05/xmlmime\" xmlns:xsi=\"http://www.w3.org/2001/XMLSchema-instance\" xsi:noNamespaceSchemaLocation=\"http://www.roblox.com/roblox.xsd\" version=\"4\">\n\t<External>null</External>\n\t<External>nil</External>\n\t<Item class=\"Workspace\" referent=\"RBX0\">\n\t\t<Properties>\n\t\t\t<string name=\"Name\">Workspace</string>\n\t\t</Properties>\n\t</Item>\n\t<Item class=\"ReplicatedStorage\" referent=\"RBX1\">\n\t\t<Properties>\n\t\t\t<string name=\"Name\">ReplicatedStorage</string>\n\t\t</Properties>\n\t\t<Item class=\"Folder\" referent=\"RBXSHARED\">\n\t\t\t<Properties>\n\t\t\t\t<string name=\"Name\">Shared</string>\n\t\t\t</Properties>\n";

/// The runtime module item, up to its source.
pub const RUNTIME_ITEM_START: &'static str = "\t\t\t<Item class=\"ModuleScript\" referent=\"RBXRUNTIME\">\n\t\t\t\t<Properties>\n\t\t\t\t\t<string name=\"Name\">RobloxRS_Runtime</string>\n\t\t\t\t\t<ProtectedString name=\"Source\"><![CDATA[";

/// The end of the runtime module item.
pub const RUNTIME_ITEM_END: &'static str = "]]></ProtectedString>\n\t\t\t\t</Properties>\n\t\t\t</Item>\n";

/// The close of the shared folder and of replicated storage.
pub const SHARED_END: &'static str = "\t\t</Item>\n\t</Item>\n";

/// The opening of the server script service and its server folder.
pub const SERVER_START: &'static str = "\t<Item class=\"ServerScriptService\" referent=\"RBX2\">\n\t\t<Properties>\n\t\t\t<string name=\"Name\">ServerScriptService</string>\n\t\t</Properties>\n\t\t<Item class=\"Folder\" referent=\"RBXSERVER\">\n\t\t\t<Properties>\n\t\t\t\t<string name=\"Name\">Server</string>\n\t\t\t</Properties>\n";

/// The close of the server folder and of the server script service.
pub const SERVER_END: &'static str = "\t\t</Item>\n\t</Item>\n";

/// The opening of the starter player, its scripts and the client folder.
pub const CLIENT_START: &'static str = "\t<Item class=\"StarterPlayer\" referent=\"RBX3\">\n\t\t<Properties>\n\t\t\t<string name=\"Name\">StarterPlayer</string>\n\t\t</Properties>\n\t\t<Item class=\"StarterPlayerScripts\" referent=\"RBX4\">\n\t\t\t<Properties>\n\t\t\t\t<string name=\"Name\">StarterPlayerScripts</string>\n\t\t\t</Properties>\n\t\t\t<Item class=\"Folder\" referent=\"RBXCLIENT\">\n\t\t\t\t<Properties>\n\t\t\t\t\t<string name=\"Name\">Client</string>\n\t\t\t\t</Properties>\n";

/// The close of the client folder, the starter player and the file.
pub const CLIENT_END: &'static str = "\t\t\t</Item>\n\t\t</Item>\n\t</Item>\n</roblox>";

/// The place file for the scripts `scripts`: shared scripts (and the
/// runtime, where it is included) in replicated storage, server scripts in
/// the server script service, client scripts in the starter player's
/// scripts.
pub open spec fn place_xml_text(scripts: Seq<(String, String)>, include_runtime: bool) -> Seq<char> {
    XML_HEAD@ + section_text(scripts, "shared/"@, 3, "ModuleScript"@) + (if include_runtime {
        RUNTIME_ITEM_START@ + runtime_module_text() + RUNTIME_ITEM_END@
    } else {
        Seq::empty()
    }) + SHARED_END@ + SERVER_START@ + section_text(scripts, "server/"@, 3, "Script"@) + SERVER_END@
        + CLIENT_START@ + section_text(scripts, "client/"@, 4, "LocalScript"@) + CLIENT_END@
}

/// Every place file is an XML document: it opens with the XML declaration
/// and closes the `roblox` element.
pub proof fn law_place_is_xml(scripts: Seq<(String, String)>, include_runtime: bool)
    ensures
        place_xml_text(scripts, include_runtime).take(14) == "<?xml version="@,
        place_xml_text(scripts, include_runtime).len() >= 9,
        place_xml_text(scripts, include_runtime).skip(place_xml_text(scripts, include_runtime).len() - 9)
            == "</roblox>"@,
{
    reveal_strlit("<?xml version=\"1.0\" encoding=\"UTF-8\"?>\n<roblox xmlns:xmime=\"http://www.w3.org/2005/05/xmlmime\" xmlns:xsi=\"http://www.w3.org/2001/XMLSchema-instance\" xsi:noNamespaceSchemaLocation=\"http://www.roblox.com/roblox.xsd\" version=\"4\">\n\t<External>null</External>\n\t<External>nil</External>\n\t<Item class=\"Workspace\" referent=\"RBX0\">\n\t\t<Properties>\n\t\t\t<string name=\"Name\">Workspace</string>\n\t\t</Properties>\n\t</Item>\n\t<Item class=\"ReplicatedStorage\" referent=\"RBX1\">\n\t\t<Properties>\n\t\t\t<string name=\"Name\">ReplicatedStorage</string>\n\t\t</Properties>\n\t\t<Item class=\"Folder\" referent=\"RBXSHARED\">\n\t\t\t<Properties>\n\t\t\t\t<string name=\"Name\">Shared</string>\n\t\t\t</Properties>\n");
    reveal_strlit("\t\t\t</Item>\n\t\t</Item>\n\t</Item>\n</roblox>");
    reveal_strlit("<?xml version=");
    reveal_strlit("</roblox>");
    let t = place_xml_text(scripts, include_runtime);
    let head = XML_HEAD@;
    let end = CLIENT_END@;
    let mid = t.subrange(head.len() as int, t.len() - end.len());
    assert(t =~= head + mid + end);
    assert(t.take(14) =~= head.take(14));
    assert(head.take(14) =~= "<?xml version="@);
    assert(t.skip(t.len() - 9) =~= end.skip(end.len() - 9));
    assert(end.skip(end.len() - 9) =~= "</roblox>"@);
}

/// Appends `n` tabs.
fn push_tabs(out: &mut String, n: usize)
    ensures
        final(out)@ == old(out)@ + tabs(n as nat),
{
    let mut i: usize = 0;
    while i < n
        invariant
            i <= n,
            out@ == old(out)@ + tabs(i as nat),
        decreases n - i,
    {
        push_char(out, '\t');
        i = i + 1;
        proof {
            assert(out@ =~= old(out)@ + tabs(i as nat));
        }
    }
}

/// Appends the item of a script.
fn push_script_item(out: &mut String, depth: usize, class: &str, name: &str, source: &str)
    requires
        depth + 2 <= usize::MAX,
    ensures
        final(out)@ == old(out)@ + script_item(depth as nat, class@, name@, source@),
{
    push_tabs(out, depth);
    out.append("<Item class=\"");
    out.append(class);
    out.append("\" referent=\"RBXS\">\n");
    push_tabs(out, depth + 1);
    out.append("<Properties>\n");
    push_tabs(out, depth + 2);
    out.append("<string name=\"Name\">");
    out.append(name);
    out.append("</string>\n");
    push_tabs(out, depth + 2);
    out.append("<ProtectedString name=\"Source\"><![CDATA[");
    out.append(source);
    out.append("]]></ProtectedString>\n");
    push_tabs(out, depth + 1);
    out.append("</Properties>\n");
    push_tabs(out, depth);
    out.append("</Item>\n");
}

/// Appends the items of the scripts whose paths begin with `prefix`.
fn push_section(out: &mut String, scripts: &Vec<(String, String)>, prefix: &str, depth: usize, init_class: &str)
    requires
        scripts_named(scripts@),
        prefix@ == "shared/"@ || prefix@ == "server/"@ || prefix@ == "client/"@,
        depth + 2 <= usize::MAX,
    ensures
        final(out)@ == old(out)@ + section_text(scripts@, prefix@, depth as nat, init_class@),
{
    let mut i: usize = 0;
    while i < scripts.len()
        invariant
            i <= scripts@.len(),
            scripts_named(scripts@),
            prefix@ == "shared/"@ || prefix@ == "server/"@ || prefix@ == "client/"@,
            depth + 2 <= usize::MAX,
            out@ == old(out)@ + section_text(scripts@.take(i as int), prefix@, depth as nat, init_class@),
        decreases scripts@.len() - i,
    {
        proof {
            assert(scripts@.take(i + 1).drop_last() =~= scripts@.take(i as int));
        }
        let path = scripts[i].0.as_str();
        let ghost before = out@;
        if has_prefix(path, prefix) {
            let name = match file_name_of(path) {
                Some(n) => n,
                None => {
                    proof {
                        assert(file_name(scripts@[i as int].0@) is Some);
                    }
                    String::new()
                },
            };
            let script = stem_of(name.as_str());
            let class = if has_suffix(path, "_init.lua") {
                init_class
            } else {
                "ModuleScript"
            };
            push_script_item(out, depth, class, script.as_str(), scripts[i].1.as_str());
        }
        i = i + 1;
    }
    proof {
        assert(scripts@.take(scripts@.len() as int) =~= scripts@);
    }
}

/// The files of a workspace, if it was scanned.
pub open spec fn files_view(files: Option<Vec<String>>) -> Option<Seq<String>> {
    match files {
        Some(v) => Some(v@),
        None => None,
    }
}

/// The number of files of a workspace: none where it was not scanned.
pub open spec fn file_count(files: Option<Seq<String>>) -> nat {
    match files {
        Some(v) => v.len(),
        None => 0,
    }
}

impl PlaceGenerator {
    /// No output path has two scripts.
    pub closed spec fn wf(&self) -> bool {
        keys_unique(self.transpiled_code@)
    }

    /// The configuration.
    pub closed spec fn config(&self) -> &PlaceGeneratorConfig {
        &self.config
    }

    /// The Rust files of a workspace, where it was scanned.
    pub closed spec fn rust_files(&self, w: Workspace) -> Option<Seq<String>> {
        match w {
            Workspace::Client => files_view(self.client_files),
            Workspace::Shared => files_view(self.shared_files),
            Workspace::Server => files_view(self.server_files),
        }
    }

    /// The assets with their kinds, in the order they were found.
    pub closed spec fn assets(&self) -> Seq<(String, AssetType)> {
        self.asset_files@
    }

    /// The transpiled scripts by output path, in the order the paths were
    /// first written.
    pub closed spec fn scripts(&self) -> Seq<(String, String)> {
        self.transpiled_code@
    }

    /// A generator with nothing scanned or transpiled.
    pub fn new(config: PlaceGeneratorConfig) -> (r: Self)
        ensures
            r.wf(),
            *r.config() == config,
            r.rust_files(Workspace::Client) is None,
            r.rust_files(Workspace::Shared) is None,
            r.rust_files(Workspace::Server) is None,
            r.assets().len() == 0,
            r.scripts().len() == 0,
    {
        PlaceGenerator {
            config,
            client_files: None,
            shared_files: None,
            server_files: None,
            asset_files: Vec::new(),
            transpiled_code: Vec::new(),
        }
    }

    /// Start a scan: each workspace gets an empty list of Rust files.
    pub fn begin_scan(&mut self)
        requires
            old(self).wf(),
        ensures
            final(self).wf(),
            final(self).rust_files(Workspace::Client) == Some(Seq::<String>::empty()),
            final(self).rust_files(Workspace::Shared) == Some(Seq::<String>::empty()),
            final(self).rust_files(Workspace::Server) == Some(Seq::<String>::empty()),
            final(self).assets() == old(self).assets(),
            final(self).scripts() == old(self).scripts(),
    {
        self.client_files = Some(Vec::new());
        self.shared_files = Some(Vec::new());
        self.server_files = Some(Vec::new());
        proof {
            assert(files_view(self.client_files) =~= Some(Seq::<String>::empty()));
        }
    }

    /// Record a Rust file found in a scanned workspace.
    pub fn add_rust_file(&mut self, workspace: Workspace, path: String)
        requires
            old(self).wf(),
            old(self).rust_files(workspace) is Some,
        ensures
            final(self).wf(),
            final(self).rust_files(workspace) == Some(old(self).rust_files(workspace)->0.push(path)),
            forall|w: Workspace| w != workspace ==> final(self).rust_files(w) == old(self).rust_files(w),
            final(self).assets() == old(self).assets(),
            final(self).scripts() == old(self).scripts(),
    {
        match workspace {
            Workspace::Client => {
                let mut v = self.client_files.take().unwrap();
                v.push(path);
                self.client_files = Some(v);
            },
            Workspace::Shared => {
                let mut v = self.shared_files.take().unwrap();
                v.push(path);
                self.shared_files = Some(v);
            },
            Workspace::Server => {
                let mut v = self.server_files.take().unwrap();
                v.push(path);
                self.server_files = Some(v);
            },
        }
    }

    /// Record an asset, of the kind its extension names.
    pub fn add_asset(&mut self, path: String, extension: &str)
        requires
            old(self).wf(),
        ensures
            final(self).wf(),
            final(self).assets().len() == old(self).assets().len() + 1,
            final(self).assets().drop_last() == old(self).assets(),
            final(self).assets().last().0 == path,
            is_asset_kind(final(self).assets().last().1, extension@),
            forall|w: Workspace| final(self).rust_files(w) == old(self).rust_files(w),
            final(self).scripts() == old(self).scripts(),
    {
        let kind = asset_type_for(extension);
        self.asset_files.push((path, kind));
        proof {
            assert(self.asset_files@.drop_last() =~= old(self).asset_files@);
        }
    }

    /// Transpile a Rust file of a workspace: the mock script naming the
    /// file goes to its output path, replacing any script there.
    pub fn transpile_file(&mut self, workspace: Workspace, path_display: &str, file_name: &str)
        requires
            old(self).wf(),
        ensures
            final(self).wf(),
            final(self).scripts().len() >= old(self).scripts().len(),
            exists|key: String, text: String|
                #![trigger put_spec(old(self).scripts(), key, text)]
                key@ == output_key(workspace_name(workspace), file_name@) && text@ == mock_script(
                    path_display@,
                    workspace_name(workspace),
                    file_name@,
                ) && final(self).scripts() == put_spec(old(self).scripts(), key, text),
            forall|w: Workspace| final(self).rust_files(w) == old(self).rust_files(w),
            final(self).assets() == old(self).assets(),
    {
        proof {
            reveal_strlit(".rs");
        }
        let ws = workspace_dir(workspace);
        let mut text = String::from_str("-- Transpiled from ");
        text.append(path_display);
        text.append("\n-- Workspace: ");
        text.append(ws);
        text.append(
            "\n\nlocal module = {}\n\n-- Mock transpiled code\nfunction module.init()\n    print(\"Initialized ",
        );
        text.append(file_name);
        text.append("\")\nend\n\nreturn module");
        let mut key = String::from_str(ws);
        key.append("/");
        key.append(replace_str(file_name, ".rs", ".lua").as_str());
        proof {
            lemma_put(self.transpiled_code@, key, text);
            crate::keyed::lemma_key_index(self.transpiled_code@, key@);
        }
        let ghost k = key;
        let ghost t = text;
        put(&mut self.transpiled_code, key, text);
        proof {
            assert(self.scripts() == put_spec(old(self).scripts(), k, t));
        }
    }

    /// The runtime module the place ships.
    pub fn generate_runtime(&self) -> (r: String)
        ensures
            r@ == runtime_module_text(),
    {
        generate_runtime_module()
    }

    /// The place file's XML for the transpiled scripts.
    pub fn generate_place_xml(&self) -> (r: String)
        requires
            scripts_named(self.scripts()),
        ensures
            r@ == place_xml_text(self.scripts(), self.config().include_runtime),
    {
        proof {
            reveal_strlit("shared/");
            reveal_strlit("server/");
            reveal_strlit("client/");
        }
        let mut xml = String::from_str(XML_HEAD);
        push_section(&mut xml, &self.transpiled_code, "shared/", 3, "ModuleScript");
        if self.config.include_runtime {
            xml.append(RUNTIME_ITEM_START);
            xml.append(self.generate_runtime().as_str());
            xml.append(RUNTIME_ITEM_END);
        }
        xml.append(SHARED_END);
        xml.append(SERVER_START);
        push_section(&mut xml, &self.transpiled_code, "server/", 3, "Script");
        xml.append(SERVER_END);
        xml.append(CLIENT_START);
        push_section(&mut xml, &self.transpiled_code, "client/", 4, "LocalScript");
        xml.append(CLIENT_END);
        xml
    }

    /// Whether every transpiled script under a workspace has a file name,
    /// as `generate_place_xml` needs.
    pub fn scripts_have_names(&self) -> (r: bool)
        ensures
            r == scripts_named(self.scripts()),
    {
        proof {
            reveal_strlit("shared/");
            reveal_strlit("server/");
            reveal_strlit("client/");
        }
        let mut i: usize = 0;
        while i < self.transpiled_code.len()
            invariant
                i <= self.transpiled_code@.len(),
                forall|k: int|
                    0 <= k < i && (starts_with(#[trigger] self.transpiled_code@[k].0@, "shared/"@)
                        || starts_with(self.transpiled_code@[k].0@, "server/"@) || starts_with(
                        self.transpiled_code@[k].0@,
                        "client/"@,
                    )) ==> file_name(self.transpiled_code@[k].0@) is Some,
            decreases self.transpiled_code@.len() - i,
        {
            let path = self.transpiled_code[i].0.as_str();
            if has_prefix(path, "shared/") || has_prefix(path, "server/") || has_prefix(path, "client/") {
                if file_name_of(path).is_none() {
                    return false;
                }
            }
            i = i + 1;
        }
        true
    }

    /// The workspace statistics: the Rust files of each workspace, the
    /// assets and the transpiled modules.
    pub fn get_stats(&self) -> (r: Vec<(String, usize)>)
        requires
            self.wf(),
        ensures
            r@.len() == 5,
            r@[0].0@ == "client_files"@ && r@[0].1 == file_count(self.rust_files(Workspace::Client)),
            r@[1].0@ == "shared_files"@ && r@[1].1 == file_count(self.rust_files(Workspace::Shared)),
            r@[2].0@ == "server_files"@ && r@[2].1 == file_count(self.rust_files(Workspace::Server)),
            r@[3].0@ == "asset_files"@ && r@[3].1 == self.assets().len(),
            r@[4].0@ == "transpiled_modules"@ && r@[4].1 == self.scripts().len(),
    {
        let client = match &self.client_files {
            Some(v) => v.len(),
            None => 0,
        };
        let shared = match &self.shared_files {
            Some(v) => v.len(),
            None => 0,
        };
        let server = match &self.server_files {
            Some(v) => v.len(),
            None => 0,
        };
        let mut stats: Vec<(String, usize)> = Vec::new();
        stats.push((String::from_str("client_files"), client));
        stats.push((String::from_str("shared_files"), shared));
        stats.push((String::from_str("server_files"), server));
        stats.push((String::from_str("asset_files"), self.asset_files.len()));
        stats.push((String::from_str("transpiled_modules"), self.transpiled_code.len()));
        stats
    }

    /// The Rust files found in a workspace, where it was scanned.
    pub fn files_in(&self, workspace: Workspace) -> (r: Option<&Vec<String>>)
        ensures
            match r {
                Some(v) => self.rust_files(workspace) == Some(v@),
                None => self.rust_files(workspace) is None,
            },
    {
        match workspace {
            Workspace::Client => self.client_files.as_ref(),
            Workspace::Shared => self.shared_files.as_ref(),
            Workspace::Server => self.server_files.as_ref(),
        }
    }

    /// The transpiled scripts by output path, in the order first written.
    pub fn transpiled_scripts(&self) -> (r: &Vec<(String, String)>)
        ensures
            r@ == self.scripts(),
    {
        &self.transpiled_code
    }

    /// The configuration.
    pub fn get_config(&self) -> (r: &PlaceGeneratorConfig)
        ensures
            r == self.config(),
    {
        &self.config
    }
}

} // verus!
