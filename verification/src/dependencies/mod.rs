//! Rust crates a project depends on, compiled into Luau packages: the
//! configuration read from a manifest, the cache of compiled packages, and
//! the files they are written to.

use vstd::prelude::*;
use crate::keyed::{find_key, keyed_map, keys_unique, lemma_key_index, lemma_keyed_map, lemma_put, put};
use crate::text::{lines_of, split_lines, views};
use crate::text::paths::{join_path, path_join};
use crate::text::trim::{before_comment, code_before_comment, trim, trimmed};

pub mod web;
pub mod cli;

verus! {

/// Configuration for one dependency.
#[derive(Debug)]
pub struct DependencyConfig {
    /// The name of the dependency package
    pub name: String,
    /// The version of the dependency package
    pub version: String,
    /// The entry point for the dependency
    pub main: String,
    /// Type declarations for the dependency
    pub types: Option<String>,
    /// Repository URL for the dependency
    pub repository: Option<String>,
    /// Additional metadata for the dependency, each key once
    pub metadata: Vec<(String, String)>,
    /// Package features to enable
    pub features: Vec<String>,
}

/// A compiled dependency package.
#[derive(Debug)]
pub struct CompiledPackage {
    /// The name of the package
    pub name: String,
    /// The version of the package
    pub version: String,
    /// The compiled Luau code
    pub code: String,
    /// Type definitions
    pub types: Option<String>,
    /// Dependency packages this package depends on
    pub dependencies: Vec<String>,
}

/// A dependency as a manifest writes it: a version, or a table.
#[derive(Debug)]
pub enum DependencyDetail {
    Simple(String),
    Complex(ComplexDependency),
}

/// A dependency written as a table.
#[derive(Debug)]
pub struct ComplexDependency {
    pub version: Option<String>,
    pub path: Option<String>,
    pub git: Option<String>,
    pub branch: Option<String>,
    pub features: Option<Vec<String>>,
}

/// What a package's `package.json` holds.
#[derive(Debug)]
pub struct PackageMetadata {
    pub name: String,
    pub version: String,
    pub dependencies: Vec<String>,
}

/// A copy of a list of strings.
pub fn clone_strings(v: &Vec<String>) -> (r: Vec<String>)
    ensures
        views(r@) == views(v@),
{
    let mut out: Vec<String> = Vec::new();
    let mut i: usize = 0;
    while i < v.len()
        invariant
            i <= v@.len(),
            views(out@) == views(v@).take(i as int),
        decreases v@.len() - i,
    {
        let c = v[i].clone();
        let ghost before = out@;
        out.push(c);
        proof {
            assert(c@ == views(v@)[i as int]);
            assert(views(out@) =~= views(before).push(c@));
            assert(views(out@) =~= views(v@).take(i + 1));
        }
        i = i + 1;
    }
    proof {
        assert(views(v@).take(v@.len() as int) =~= views(v@));
    }
    out
}

/// A copy of an optional string.
pub fn clone_text(t: &Option<String>) -> (r: Option<String>)
    ensures
        match (r, *t) {
            (Some(a), Some(b)) => a@ == b@,
            (None, None) => true,
            _ => false,
        },
{
    match t {
        Some(s) => Some(s.clone()),
        None => None,
    }
}

/// The version a manifest gives a dependency: the table's, or `*`.
pub open spec fn detail_version(dep: DependencyDetail) -> Seq<char> {
    match dep {
        DependencyDetail::Simple(v) => v@,
        DependencyDetail::Complex(c) => match c.version {
            Some(v) => v@,
            None => "*"@,
        },
    }
}

/// The features a manifest enables for a dependency.
pub open spec fn detail_features(dep: DependencyDetail) -> Seq<Seq<char>> {
    match dep {
        DependencyDetail::Simple(_) => Seq::empty(),
        DependencyDetail::Complex(c) => match c.features {
            Some(f) => views(f@),
            None => Seq::empty(),
        },
    }
}

/// Whether `c` is the configuration of the dependency `name` written as
/// `dep`: its version and features, `src/lib.rs` as the entry point, and
/// nothing else.
pub open spec fn config_of(name: Seq<char>, dep: DependencyDetail, c: DependencyConfig) -> bool {
    &&& c.name@ == name
    &&& c.version@ == detail_version(dep)
    &&& c.main@ == "src/lib.rs"@
    &&& c.types is None
    &&& c.repository is None
    &&& c.metadata@.len() == 0
    &&& views(c.features@) == detail_features(dep)
}

/// The configuration of the dependency `name` written as `dep`.
pub fn dependency_config(name: &str, dep: &DependencyDetail) -> (r: DependencyConfig)
    ensures
        config_of(name@, *dep, r),
{
    let version = match dep {
        DependencyDetail::Simple(v) => v.clone(),
        DependencyDetail::Complex(c) => match &c.version {
            Some(v) => v.clone(),
            None => String::from_str("*"),
        },
    };
    let features = match dep {
        DependencyDetail::Simple(_) => Vec::new(),
        DependencyDetail::Complex(c) => match &c.features {
            Some(f) => clone_strings(f),
            None => Vec::new(),
        },
    };
    proof {
        assert(views(Seq::<String>::empty()) =~= Seq::<Seq<char>>::empty());
    }
    DependencyConfig {
        name: String::from_str(name),
        version,
        main: String::from_str("src/lib.rs"),
        types: None,
        repository: None,
        metadata: Vec::new(),
        features,
    }
}

/// The configurations of the dependencies of a manifest, in its order.
pub fn dependency_configs(deps: &Vec<(String, DependencyDetail)>) -> (r: Vec<DependencyConfig>)
    ensures
        r@.len() == deps@.len(),
        forall|i: int| 0 <= i < deps@.len() ==> config_of(deps@[i].0@, deps@[i].1, #[trigger] r@[i]),
{
    let mut out: Vec<DependencyConfig> = Vec::new();
    let mut i: usize = 0;
    while i < deps.len()
        invariant
            i <= deps@.len(),
            out@.len() == i,
            forall|k: int| 0 <= k < i ==> config_of(deps@[k].0@, deps@[k].1, #[trigger] out@[k]),
        decreases deps@.len() - i,
    {
        out.push(dependency_config(deps[i].0.as_str(), &deps[i].1));
        i = i + 1;
    }
    out
}

/// The cache key of a package: `name@version`.
pub open spec fn package_key_text(name: Seq<char>, version: Seq<char>) -> Seq<char> {
    name + "@"@ + version
}

/// The cache key of a package: `name@version`.
pub fn package_key(name: &str, version: &str) -> (r: String)
    ensures
        r@ == package_key_text(name@, version@),
{
    let mut k = String::from_str(name);
    k.append("@");
    k.append(version);
    k
}

/// The manifest of the scratch crate that fetches `name` at `version`.
pub open spec fn fetch_manifest_text(name: Seq<char>, version: Seq<char>) -> Seq<char> {
    "[package]\nname = \"temp_package\"\nversion = \"0.1.0\"\nedition = \"2021\"\n\n[dependencies]\n"@
        + name + " = \""@ + version + "\""@
}

/// The manifest of the scratch crate that fetches `name` at `version`.
pub fn fetch_manifest(name: &str, version: &str) -> (r: String)
    ensures
        r@ == fetch_manifest_text(name@, version@),
{
    let mut m = String::from_str(
        "[package]\nname = \"temp_package\"\nversion = \"0.1.0\"\nedition = \"2021\"\n\n[dependencies]\n",
    );
    m.append(name);
    m.append(" = \"");
    m.append(version);
    m.append("\"");
    m
}

/// The metadata written beside a package.
pub fn package_metadata(package: &CompiledPackage) -> (r: PackageMetadata)
    ensures
        r.name@ == package.name@,
        r.version@ == package.version@,
        views(r.dependencies@) == views(package.dependencies@),
{
    PackageMetadata {
        name: package.name.clone(),
        version: package.version.clone(),
        dependencies: clone_strings(&package.dependencies),
    }
}

/// Whether `a` is a copy of `b`.
pub open spec fn same_package(a: CompiledPackage, b: CompiledPackage) -> bool {
    &&& a.name@ == b.name@
    &&& a.version@ == b.version@
    &&& a.code@ == b.code@
    &&& match (a.types, b.types) {
        (Some(x), Some(y)) => x@ == y@,
        (None, None) => true,
        _ => false,
    }
    &&& views(a.dependencies@) == views(b.dependencies@)
}

/// A copy of a package.
pub fn clone_package(p: &CompiledPackage) -> (r: CompiledPackage)
    ensures
        same_package(r, *p),
{
    CompiledPackage {
        name: p.name.clone(),
        version: p.version.clone(),
        code: p.code.clone(),
        types: clone_text(&p.types),
        dependencies: clone_strings(&p.dependencies),
    }
}

/// The package compiled from a dependency: its name and version and the
/// code, with no type definitions or dependencies.
pub fn package_for(config: &DependencyConfig, code: String) -> (r: CompiledPackage)
    ensures
        r.name@ == config.name@,
        r.version@ == config.version@,
        r.code@ == code@,
        r.types is None,
        r.dependencies@.len() == 0,
{
    CompiledPackage {
        name: config.name.clone(),
        version: config.version.clone(),
        code,
        types: None,
        dependencies: Vec::new(),
    }
}

/// One line of code, minified: without its comment and surrounding white
/// space, followed by a space; nothing where that leaves it empty.
pub open spec fn minified_line(line: Seq<char>) -> Seq<char> {
    let t = trimmed(before_comment(line));
    if t.len() > 0 {
        t + seq![' ']
    } else {
        Seq::empty()
    }
}

/// The minified lines, in order.
pub open spec fn minified_lines(lines: Seq<Seq<char>>) -> Seq<char>
    decreases lines.len(),
{
    if lines.len() == 0 {
        Seq::empty()
    } else {
        minified_lines(lines.drop_last()) + minified_line(lines.last())
    }
}

/// Minify Lua code: comments and extra white space go, and the lines are
/// joined by spaces.
pub fn minify_lua(code: &str) -> (r: String)
    ensures
        r@ == minified_lines(lines_of(code@)),
{
    let lines = split_lines(code);
    let mut minified = String::new();
    let mut i: usize = 0;
    while i < lines.len()
        invariant
            i <= lines@.len(),
            views(lines@) == lines_of(code@),
            minified@ == minified_lines(views(lines@).take(i as int)),
        decreases lines@.len() - i,
    {
        proof {
            assert(views(lines@).take(i + 1).drop_last() =~= views(lines@).take(i as int));
            assert(views(lines@).take(i + 1).last() == lines@[i as int]@);
            reveal_strlit(" ");
        }
        let t = trim(code_before_comment(lines[i].as_str()).as_str());
        if !t.as_str().is_empty() {
            minified.append(t.as_str());
            minified.append(" ");
        } else {
            proof {
                assert(t@.len() == 0);
            }
        }
        i = i + 1;
    }
    proof {
        assert(views(lines@).take(lines@.len() as int) =~= views(lines@));
    }
    minified
}

/// Manager for a project's Rust dependencies and the packages compiled
/// from them.
#[derive(Debug)]
pub struct DependencyManager {
    /// Root directory for the project
    pub root_dir: String,
    /// Output directory for compiled dependencies
    pub output_dir: String,
    /// Cache of compiled packages, by key, each key once
    pub compiled_packages: Vec<(String, CompiledPackage)>,
}

impl DependencyManager {
    /// No package key occurs twice in the cache.
    pub closed spec fn wf(&self) -> bool {
        keys_unique(self.compiled_packages@)
    }

    /// The cached packages by key.
    pub closed spec fn cache(&self) -> Map<Seq<char>, CompiledPackage> {
        keyed_map(self.compiled_packages@)
    }

    /// A manager for the project at `root_dir`, writing to `output_dir`,
    /// with nothing compiled yet.
    pub fn new(root_dir: &str, output_dir: &str) -> (r: Self)
        ensures
            r.wf(),
            r.root_dir@ == root_dir@,
            r.output_dir@ == output_dir@,
            r.cache() == Map::<Seq<char>, CompiledPackage>::empty(),
    {
        let r = DependencyManager {
            root_dir: String::from_str(root_dir),
            output_dir: String::from_str(output_dir),
            compiled_packages: Vec::new(),
        };
        proof {
            assert(r.cache() =~= Map::<Seq<char>, CompiledPackage>::empty());
        }
        r
    }

    /// The manifest of the project.
    pub fn manifest_path(&self) -> (r: String)
        ensures
            r@ == path_join(self.root_dir@, "Cargo.toml"@),
    {
        join_path(self.root_dir.as_str(), "Cargo.toml")
    }

    /// The package compiled before for `config`, if any.
    pub fn cached_package(&self, config: &DependencyConfig) -> (r: Option<CompiledPackage>)
        requires
            self.wf(),
        ensures
            ({
                let key = package_key_text(config.name@, config.version@);
                match r {
                    Some(p) => self.cache().contains_key(key) && same_package(p, self.cache()[key]),
                    None => !self.cache().contains_key(key),
                }
            }),
    {
        let key = package_key(config.name.as_str(), config.version.as_str());
        proof {
            lemma_keyed_map(self.compiled_packages@, key@);
            lemma_key_index(self.compiled_packages@, key@);
        }
        match find_key(&self.compiled_packages, key.as_str()) {
            Some(i) => Some(clone_package(&self.compiled_packages[i].1)),
            None => None,
        }
    }

    /// Cache a compiled package under its key; one cached before under the
    /// key is replaced.
    pub fn cache_package(&mut self, package: CompiledPackage)
        requires
            old(self).wf(),
        ensures
            final(self).wf(),
            final(self).cache() == old(self).cache().insert(
                package_key_text(package.name@, package.version@),
                package,
            ),
            final(self).root_dir == old(self).root_dir,
            final(self).output_dir == old(self).output_dir,
    {
        let key = package_key(package.name.as_str(), package.version.as_str());
        proof {
            lemma_put(self.compiled_packages@, key, package);
        }
        put(&mut self.compiled_packages, key, package);
    }

    /// The directory a dependency is fetched into.
    pub fn temp_dir(&self, name: &str) -> (r: String)
        ensures
            r@ == path_join(path_join(self.output_dir@, "temp"@), name@),
    {
        join_path(join_path(self.output_dir.as_str(), "temp").as_str(), name)
    }

    /// The directory a compiled package is written to.
    pub fn package_dir(&self, name: &str) -> (r: String)
        ensures
            r@ == path_join(path_join(self.output_dir@, "packages"@), name@),
    {
        join_path(join_path(self.output_dir.as_str(), "packages").as_str(), name)
    }

    /// The path of the Roblox model holding every dependency.
    pub fn generate_roblox_model(&self) -> (r: Result<String, String>)
        ensures
            r matches Ok(p) && p@ == path_join(self.output_dir@, "dependencies.rbxm"@),
    {
        Ok(join_path(self.output_dir.as_str(), "dependencies.rbxm"))
    }
}

} // verus!
