//! Rojo projects: their tree of instances, the default project, and which
//! Luau file each Rust script in the tree compiles to.

use vstd::prelude::*;
use crate::keyed::{find_key, keyed_map, keys_unique, lemma_key_index, lemma_keyed_map, lemma_put, put, str_eq};
use crate::text::paths::{extension, extension_of, join_path, path_join, with_extension, with_extension_text};

verus! {

/// A Rojo project file.
#[derive(Debug)]
pub struct RojoProject {
    /// Project name
    pub name: Option<String>,
    /// Tree of files and directories, by name
    pub tree: Vec<(String, RojoNode)>,
    /// Serve port
    pub serve_port: Option<u16>,
    /// Rojo file format version
    pub rojo_version: String,
}

/// A node of a Rojo project tree. Properties are kept as the JSON text of
/// each value.
#[derive(Debug)]
pub enum RojoNode {
    DataModel {
        path: Option<String>,
        properties: Option<Vec<(String, String)>>,
        children: Vec<(String, RojoNode)>,
    },
    Folder {
        path: Option<String>,
        properties: Option<Vec<(String, String)>>,
        children: Vec<(String, RojoNode)>,
    },
    Script { path: Option<String>, properties: Option<Vec<(String, String)>> },
    LocalScript { path: Option<String>, properties: Option<Vec<(String, String)>> },
    ModuleScript {
        path: Option<String>,
        properties: Option<Vec<(String, String)>>,
        children: Option<Vec<(String, RojoNode)>>,
    },
    Instance {
        path: Option<String>,
        properties: Option<Vec<(String, String)>>,
        children: Option<Vec<(String, RojoNode)>>,
    },
    /// Any instance type not recognized
    Other,
}

/// The Rojo file format version a project file without one has.
pub fn default_rojo_version() -> (r: String)
    ensures
        r@ == "7.0.0"@,
{
    String::from_str("7.0.0")
}

/// The port `rojo serve` listens on unless the project names another.
pub const DEFAULT_SERVE_PORT: u16 = 34872;

/// Whether a script's path names a Rust source file.
pub open spec fn is_rust_source(path: Seq<char>) -> bool {
    extension(path) == Some("rs"@)
}

/// The Rust sources of the scripts of a node, in order: a folder's or data
/// model's come from its children; a script's is its own path.
pub open spec fn node_scripts(node: RojoNode) -> Seq<Seq<char>>
    decreases node,
{
    match node {
        RojoNode::DataModel { children, .. } => children_scripts(children@),
        RojoNode::Folder { children, .. } => children_scripts(children@),
        RojoNode::Script { path, .. } => script_source(path),
        RojoNode::LocalScript { path, .. } => script_source(path),
        RojoNode::ModuleScript { path, .. } => script_source(path),
        _ => Seq::empty(),
    }
}

/// The Rust sources of the scripts of each child, in order.
pub open spec fn children_scripts(children: Seq<(String, RojoNode)>) -> Seq<Seq<char>>
    decreases children,
{
    if children.len() == 0 {
        Seq::empty()
    } else {
        children_scripts(children.drop_last()) + node_scripts(children.last().1)
    }
}

/// A script's path, where it names a Rust source.
pub open spec fn script_source(path: Option<String>) -> Seq<Seq<char>> {
    match path {
        Some(p) => if is_rust_source(p@) {
            seq![p@]
        } else {
            Seq::empty()
        },
        None => Seq::empty(),
    }
}

/// Each Rust source mapped to its Luau output: the same path with the
/// extension `lua`.
pub open spec fn script_map(sources: Seq<Seq<char>>) -> Map<Seq<char>, Seq<char>> {
    Map::new(|p: Seq<char>| sources.contains(p), |p: Seq<char>| with_extension_text(p, "lua"@))
}

/// Two script maps together are the map of both.
proof fn lemma_script_map_add(a: Seq<Seq<char>>, b: Seq<Seq<char>>)
    ensures
        script_map(a).union_prefer_right(script_map(b)) == script_map(a + b),
{
    assert forall|p: Seq<char>| (a + b).contains(p) <==> a.contains(p) || b.contains(p) by {
        if (a + b).contains(p) {
            let k = choose|k: int| 0 <= k < (a + b).len() && (a + b)[k] == p;
            if k < a.len() {
                assert(a[k] == p);
            } else {
                assert(b[k - a.len()] == p);
            }
        }
        if a.contains(p) {
            let k = choose|k: int| 0 <= k < a.len() && a[k] == p;
            assert((a + b)[k] == p);
        }
        if b.contains(p) {
            let k = choose|k: int| 0 <= k < b.len() && b[k] == p;
            assert((a + b)[k + a.len()] == p);
        }
    }
    assert(script_map(a).union_prefer_right(script_map(b)) =~= script_map(a + b));
}

/// Map the Rust sources of the scripts of `node` into `out`.
fn map_node(node: &RojoNode, out: &mut Vec<(String, String)>)
    requires
        keys_unique(old(out)@),
    ensures
        keys_unique(final(out)@),
        keyed_map(final(out)@).map_values(|s: String| s@) == keyed_map(old(out)@).map_values(
            |s: String| s@,
        ).union_prefer_right(script_map(node_scripts(*node))),
    decreases node, 1nat,
{
    match node {
        RojoNode::DataModel { children, .. } => {
            proof {
                assert(decreases_to!(*node => *children));
            }
            map_children(children, out);
        },
        RojoNode::Folder { children, .. } => {
            proof {
                assert(decreases_to!(*node => *children));
            }
            map_children(children, out);
        },
        RojoNode::Script { path, .. } => map_script(path, out),
        RojoNode::LocalScript { path, .. } => map_script(path, out),
        RojoNode::ModuleScript { path, .. } => map_script(path, out),
        _ => {
            proof {
                let m = keyed_map(out@).map_values(|s: String| s@);
                assert(script_map(Seq::empty()) =~= Map::<Seq<char>, Seq<char>>::empty());
                assert(m.union_prefer_right(Map::empty()) =~= m);
            }
        },
    }
}

/// Map each child's scripts into `out`, in order.
fn map_children(children: &Vec<(String, RojoNode)>, out: &mut Vec<(String, String)>)
    requires
        keys_unique(old(out)@),
    ensures
        keys_unique(final(out)@),
        keyed_map(final(out)@).map_values(|s: String| s@) == keyed_map(old(out)@).map_values(
            |s: String| s@,
        ).union_prefer_right(script_map(children_scripts(children@))),
    decreases children, 0nat,
{
    let ghost start = keyed_map(out@).map_values(|s: String| s@);
    proof {
        assert(script_map(children_scripts(children@.take(0))) =~= Map::<Seq<char>, Seq<char>>::empty());
        assert(start.union_prefer_right(Map::empty()) =~= start);
    }
    let mut i: usize = 0;
    while i < children.len()
        invariant
            i <= children@.len(),
            keys_unique(out@),
            keyed_map(out@).map_values(|s: String| s@) == start.union_prefer_right(
                script_map(children_scripts(children@.take(i as int))),
            ),
        decreases children@.len() - i,
    {
        proof {
            assert(decreases_to!(*children => children@));
            assert(decreases_to!(children@ => children@[i as int]));
            assert(decreases_to!(children@[i as int] => children@[i as int].1));
            assert(children@.take(i + 1).drop_last() =~= children@.take(i as int));
        }
        let ghost before = keyed_map(out@).map_values(|s: String| s@);
        map_node(&children[i].1, out);
        proof {
            let a = children_scripts(children@.take(i as int));
            let b = node_scripts(children@[i as int].1);
            lemma_script_map_add(a, b);
            assert(start.union_prefer_right(script_map(a)).union_prefer_right(script_map(b))
                =~= start.union_prefer_right(script_map(a).union_prefer_right(script_map(b))));
        }
        i = i + 1;
    }
    proof {
        assert(children@.take(children@.len() as int) =~= children@);
    }
}

/// Map a script's path into `out`, where it names a Rust source.
fn map_script(path: &Option<String>, out: &mut Vec<(String, String)>)
    requires
        keys_unique(old(out)@),
    ensures
        keys_unique(final(out)@),
        keyed_map(final(out)@).map_values(|s: String| s@) == keyed_map(old(out)@).map_values(
            |s: String| s@,
        ).union_prefer_right(script_map(script_source(*path))),
{
    let ghost m = keyed_map(out@).map_values(|s: String| s@);
    let rust = match path {
        Some(p) => match extension_of(p.as_str()) {
            Some(e) => str_eq(e.as_str(), "rs"),
            None => false,
        },
        None => false,
    };
    if rust {
        let p = path.as_ref().unwrap();
        let lua = with_extension(p.as_str(), "lua");
        let key = p.clone();
        proof {
            lemma_put(out@, key, lua);
        }
        put(out, key, lua);
        proof {
            assert(keyed_map(out@).map_values(|s: String| s@) =~= m.insert(p@, lua@));
            let one = seq![p@];
            assert forall|x: Seq<char>| one.contains(x) <==> x == p@ by {
                if x == p@ {
                    assert(one[0] == x);
                }
            }
            assert(m.insert(p@, lua@) =~= m.union_prefer_right(script_map(seq![p@])));
        }
    } else {
        proof {
            assert(script_source(*path) =~= Seq::<Seq<char>>::empty());
            assert(m.union_prefer_right(script_map(Seq::empty())) =~= m);
        }
    }
}

/// Manager for a Rojo project file: the project, and the Luau file each of
/// its Rust scripts compiles to.
#[derive(Debug)]
pub struct RojoManager {
    project_path: String,
    project: Option<RojoProject>,
    source_mapping: Vec<(String, String)>,
    serving: bool,
}

/// The Rust sources of the scripts of a project's tree.
pub open spec fn project_scripts(project: Option<RojoProject>) -> Seq<Seq<char>> {
    match project {
        Some(p) => children_scripts(p.tree@),
        None => Seq::empty(),
    }
}

impl RojoManager {
    /// No source occurs twice in the mapping.
    pub closed spec fn wf(&self) -> bool {
        keys_unique(self.source_mapping@)
    }

    /// The path of the project file.
    pub closed spec fn path(&self) -> Seq<char> {
        self.project_path@
    }

    /// The loaded project.
    pub closed spec fn loaded(&self) -> Option<RojoProject> {
        self.project
    }

    /// The Luau output of each Rust source of the project.
    pub closed spec fn mapping(&self) -> Map<Seq<char>, Seq<char>> {
        keyed_map(self.source_mapping@).map_values(|s: String| s@)
    }

    /// Whether `rojo serve` runs for this project.
    pub closed spec fn is_serving(&self) -> bool {
        self.serving
    }

    /// A manager for the project file at `project_path`, nothing loaded.
    pub fn new(project_path: &str) -> (r: Self)
        ensures
            r.wf(),
            r.path() == project_path@,
            r.loaded() is None,
            r.mapping() == Map::<Seq<char>, Seq<char>>::empty(),
            !r.is_serving(),
    {
        let r = RojoManager {
            project_path: String::from_str(project_path),
            project: None,
            source_mapping: Vec::new(),
            serving: false,
        };
        proof {
            assert(r.mapping() =~= Map::<Seq<char>, Seq<char>>::empty());
        }
        r
    }

    /// The path of the project file.
    pub fn project_path(&self) -> (r: &str)
        ensures
            r@ == self.path(),
    {
        self.project_path.as_str()
    }

    /// Take `project` as the loaded project and map its Rust scripts.
    pub fn set_project(&mut self, project: RojoProject)
        ensures
            final(self).wf(),
            final(self).loaded() == Some(project),
            final(self).mapping() == script_map(project_scripts(Some(project))),
            final(self).path() == old(self).path(),
            final(self).is_serving() == old(self).is_serving(),
    {
        self.project = Some(project);
        self.build_source_mapping();
    }

    /// Map the Rust scripts of the loaded project, anew.
    fn build_source_mapping(&mut self)
        ensures
            final(self).wf(),
            final(self).mapping() == script_map(project_scripts(old(self).loaded())),
            final(self).loaded() == old(self).loaded(),
            final(self).path() == old(self).path(),
            final(self).is_serving() == old(self).is_serving(),
    {
        let mut mapping: Vec<(String, String)> = Vec::new();
        proof {
            assert(keyed_map(mapping@).map_values(|s: String| s@) =~= Map::<Seq<char>, Seq<char>>::empty());
        }
        match &self.project {
            Some(p) => {
                map_children(&p.tree, &mut mapping);
                proof {
                    let m = script_map(children_scripts(p.tree@));
                    assert(Map::<Seq<char>, Seq<char>>::empty().union_prefer_right(m) =~= m);
                }
            },
            None => {
                proof {
                    assert(script_map(Seq::empty()) =~= Map::<Seq<char>, Seq<char>>::empty());
                }
            },
        }
        self.source_mapping = mapping;
    }

    /// The Luau output of the Rust source `source_path`, if it is one of
    /// the project's.
    pub fn get_output_path(&self, source_path: &str) -> (r: Option<&String>)
        requires
            self.wf(),
        ensures
            match r {
                Some(o) => self.mapping().contains_key(source_path@) && o@ == self.mapping()[source_path@],
                None => !self.mapping().contains_key(source_path@),
            },
    {
        proof {
            lemma_keyed_map(self.source_mapping@, source_path@);
            lemma_key_index(self.source_mapping@, source_path@);
        }
        match find_key(&self.source_mapping, source_path) {
            Some(i) => Some(&self.source_mapping[i].1),
            None => None,
        }
    }

    /// The port to serve the project on: the project's, or the default; an
    /// error where it is served already.
    pub fn serve_port(&self) -> (r: Result<u16, String>)
        ensures
            match r {
                Ok(port) => !self.is_serving() && port == match self.loaded() {
                    Some(p) => match p.serve_port {
                        Some(q) => q,
                        None => DEFAULT_SERVE_PORT,
                    },
                    None => DEFAULT_SERVE_PORT,
                },
                Err(m) => self.is_serving() && m@ == "Rojo is already serving this project"@,
            },
    {
        if self.serving {
            return Err(String::from_str("Rojo is already serving this project"));
        }
        match &self.project {
            Some(p) => match p.serve_port {
                Some(q) => Ok(q),
                None => Ok(DEFAULT_SERVE_PORT),
            },
            None => Ok(DEFAULT_SERVE_PORT),
        }
    }

    /// Record whether `rojo serve` runs for this project.
    pub fn set_serving(&mut self, serving: bool)
        ensures
            final(self).is_serving() == serving,
            final(self).wf() == old(self).wf(),
            final(self).mapping() == old(self).mapping(),
            final(self).loaded() == old(self).loaded(),
            final(self).path() == old(self).path(),
    {
        self.serving = serving;
    }
}

/// A folder node for the directory `path`, with no properties or children.
fn folder(path: String) -> (r: RojoNode)
    ensures
        r matches RojoNode::Folder { path: Some(p), properties: None, children } && p@ == path@
            && children@.len() == 0,
{
    RojoNode::Folder { path: Some(path), properties: None, children: Vec::new() }
}

/// The default project `project_name` with its sources under `src_dir`:
/// server scripts from `server`, client scripts from `client`, shared
/// modules from `shared`, served on the default port.
pub fn default_project(project_name: &str, src_dir: &str) -> (r: RojoProject)
    ensures
        r.name matches Some(n) && n@ == project_name@,
        r.serve_port == Some(DEFAULT_SERVE_PORT),
        r.rojo_version@ == "7.0.0"@,
        r.tree@.len() == 3,
        r.tree@[0].0@ == "ServerScriptService"@,
        r.tree@[0].1 matches RojoNode::Folder { path: Some(p), properties: None, children }
            && p@ == path_join(src_dir@, "server"@) && children@.len() == 0,
        r.tree@[1].0@ == "StarterPlayerScripts"@,
        r.tree@[1].1 matches RojoNode::Folder { path: Some(p), properties: None, children }
            && p@ == path_join(src_dir@, "client"@) && children@.len() == 0,
        r.tree@[2].0@ == "ReplicatedStorage"@,
        r.tree@[2].1 matches RojoNode::Folder { path: Some(p), properties: None, children }
            && p@ == path_join(src_dir@, "shared"@) && children@.len() == 0,
{
    let mut tree: Vec<(String, RojoNode)> = Vec::new();
    tree.push((String::from_str("ServerScriptService"), folder(join_path(src_dir, "server"))));
    tree.push((String::from_str("StarterPlayerScripts"), folder(join_path(src_dir, "client"))));
    tree.push((String::from_str("ReplicatedStorage"), folder(join_path(src_dir, "shared"))));
    RojoProject {
        name: Some(String::from_str(project_name)),
        tree,
        serve_port: Some(DEFAULT_SERVE_PORT),
        rojo_version: String::from_str("7.0.0"),
    }
}

} // verus!
