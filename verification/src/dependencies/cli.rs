//! The command-line dependency bundler: where it writes, what it names the
//! project, and the index and types files of a bundle.

use vstd::prelude::*;
use crate::dependencies::{CompiledPackage, DependencyManager, minified_lines, minify_lua};
use crate::keyed::str_eq;
use crate::text::lines_of;
use crate::text::paths::{file_name, file_name_of, join_path, path_join};

verus! {

/// CLI arguments for the dependency bundler.
#[derive(Debug)]
pub struct BundlerArgs {
    /// Path to the project directory
    pub project_dir: String,
    /// Output directory
    pub output_dir: Option<String>,
    /// Output format (rbxm, lua)
    pub format: String,
    /// Project name
    pub name: Option<String>,
    /// Whether to minify output
    pub minify: bool,
    /// Whether to include documentation
    pub docs: bool,
    /// Whether to verbose output
    pub verbose: bool,
}

/// What a run writes for a format.
#[derive(Debug, Clone, Copy, PartialEq, Eq, Structural)]
pub enum OutputAction {
    /// A Roblox model holding every package
    Model,
    /// A Lua module per package, with an index
    LuaModules,
}

/// Dependency bundler CLI.
#[derive(Debug)]
pub struct BundlerCli {
    args: BundlerArgs,
    manager: DependencyManager,
}

/// The output directory the arguments name: the given one, else
/// `roblox-rs-output` in the project.
pub open spec fn output_dir_of(args: BundlerArgs) -> Seq<char> {
    match args.output_dir {
        Some(d) => d@,
        None => path_join(args.project_dir@, "roblox-rs-output"@),
    }
}

/// The project's name: the given one, else the last component of its
/// directory, else `roblox-rs-project`.
pub open spec fn project_name_of(args: BundlerArgs) -> Seq<char> {
    match args.name {
        Some(n) => n@,
        None => match file_name(args.project_dir@) {
            Some(f) => f,
            None => "roblox-rs-project"@,
        },
    }
}

/// The lines of the index file for each package.
pub open spec fn package_requires(packages: Seq<CompiledPackage>) -> Seq<char>
    decreases packages.len(),
{
    if packages.len() == 0 {
        Seq::empty()
    } else {
        let p = packages.last();
        package_requires(packages.drop_last()) + "-- Package: "@ + p.name@ + " v"@ + p.version@ + "\n"@
            + "Packages."@ + p.name@ + " = require(script.modules."@ + p.name@ + ")\n\n"@
    }
}

/// The index file of the project `name`, made at `timestamp`.
pub open spec fn bundler_index_text(name: Seq<char>, timestamp: Seq<char>, packages: Seq<CompiledPackage>) -> Seq<
    char,
> {
    "-- Generated by Roblox-RS Dependency Bundler\n-- Project: "@ + name + "\n-- Generated on: "@ + timestamp
        + "\n\nlocal Packages = {}\n\n"@ + package_requires(packages) + "return Packages\n"@
}

/// The type entry of each package.
pub open spec fn package_types(packages: Seq<CompiledPackage>) -> Seq<char>
    decreases packages.len(),
{
    if packages.len() == 0 {
        Seq::empty()
    } else {
        let p = packages.last();
        package_types(packages.drop_last()) + "    "@ + p.name@ + ": any, -- v"@ + p.version@ + "\n"@
    }
}

/// The types file of the project `name`, made at `timestamp`.
pub open spec fn bundler_types_text(name: Seq<char>, timestamp: Seq<char>, packages: Seq<CompiledPackage>) -> Seq<
    char,
> {
    "-- Type definitions for Roblox-RS dependencies\n-- Project: "@ + name + "\n-- Generated on: "@ + timestamp
        + "\n\nexport type Packages = {\n"@ + package_types(packages) + "}\n\nreturn nil\n"@
}

/// The local time as `chrono` formats `%Y-%m-%d %H:%M:%S`. Nothing is stated
/// of it: it is the clock's.
#[verifier::external_body]
fn timestamp_now() -> String {
    chrono::Local::now().format("%Y-%m-%d %H:%M:%S").to_string()
}

/// The index file of the project `name`, made at `timestamp`.
pub fn index_file_text(name: &str, timestamp: &str, packages: &[CompiledPackage]) -> (r: String)
    ensures
        r@ == bundler_index_text(name@, timestamp@, packages@),
{
    let mut content = String::from_str("-- Generated by Roblox-RS Dependency Bundler\n-- Project: ");
    content.append(name);
    content.append("\n-- Generated on: ");
    content.append(timestamp);
    content.append("\n\nlocal Packages = {}\n\n");
    let ghost head = content@;
    let mut i: usize = 0;
    while i < packages.len()
        invariant
            i <= packages@.len(),
            content@ == head + package_requires(packages@.take(i as int)),
        decreases packages@.len() - i,
    {
        proof {
            assert(packages@.take(i + 1).drop_last() =~= packages@.take(i as int));
        }
        content.append("-- Package: ");
        content.append(packages[i].name.as_str());
        content.append(" v");
        content.append(packages[i].version.as_str());
        content.append("\n");
        content.append("Packages.");
        content.append(packages[i].name.as_str());
        content.append(" = require(script.modules.");
        content.append(packages[i].name.as_str());
        content.append(")\n\n");
        i = i + 1;
    }
    proof {
        assert(packages@.take(packages@.len() as int) =~= packages@);
    }
    content.append("return Packages\n");
    content
}

/// The types file of the project `name`, made at `timestamp`.
pub fn types_file_text(name: &str, timestamp: &str, packages: &[CompiledPackage]) -> (r: String)
    ensures
        r@ == bundler_types_text(name@, timestamp@, packages@),
{
    let mut content = String::from_str("-- Type definitions for Roblox-RS dependencies\n-- Project: ");
    content.append(name);
    content.append("\n-- Generated on: ");
    content.append(timestamp);
    content.append("\n\nexport type Packages = {\n");
    let ghost head = content@;
    let mut i: usize = 0;
    while i < packages.len()
        invariant
            i <= packages@.len(),
            content@ == head + package_types(packages@.take(i as int)),
        decreases packages@.len() - i,
    {
        proof {
            assert(packages@.take(i + 1).drop_last() =~= packages@.take(i as int));
        }
        content.append("    ");
        content.append(packages[i].name.as_str());
        content.append(": any, -- v");
        content.append(packages[i].version.as_str());
        content.append("\n");
        i = i + 1;
    }
    proof {
        assert(packages@.take(packages@.len() as int) =~= packages@);
    }
    content.append("}\n\nreturn nil\n");
    content
}

/// What a run writes for the output format `format`; an error for a format
/// the bundler does not write.
pub fn output_action(format: &str) -> (r: Result<OutputAction, String>)
    ensures
        format@ == "rbxm"@ ==> r == Ok::<OutputAction, String>(OutputAction::Model),
        format@ == "lua"@ ==> r == Ok::<OutputAction, String>(OutputAction::LuaModules),
        format@ != "rbxm"@ && format@ != "lua"@ ==> (r matches Err(m) && m@
            == "Unsupported output format: "@ + format@),
{
    proof {
        reveal_strlit("rbxm");
        reveal_strlit("lua");
        assert("rbxm"@.len() != "lua"@.len());
    }
    if str_eq(format, "rbxm") {
        Ok(OutputAction::Model)
    } else if str_eq(format, "lua") {
        Ok(OutputAction::LuaModules)
    } else {
        let mut m = String::from_str("Unsupported output format: ");
        m.append(format);
        Err(m)
    }
}

/// The output directory the arguments name.
pub fn output_dir_for(args: &BundlerArgs) -> (r: String)
    ensures
        r@ == output_dir_of(*args),
{
    match &args.output_dir {
        Some(d) => d.clone(),
        None => join_path(args.project_dir.as_str(), "roblox-rs-output"),
    }
}

/// The project's name the arguments give.
pub fn project_name_for(args: &BundlerArgs) -> (r: String)
    ensures
        r@ == project_name_of(*args),
{
    match &args.name {
        Some(n) => n.clone(),
        None => match file_name_of(args.project_dir.as_str()) {
            Some(f) => f,
            None => String::from_str("roblox-rs-project"),
        },
    }
}

impl BundlerCli {
    /// The arguments.
    pub closed spec fn arguments(&self) -> BundlerArgs {
        self.args
    }

    /// The dependency manager.
    pub closed spec fn dependency_manager(&self) -> DependencyManager {
        self.manager
    }

    /// A CLI run with `args`, whose dependency manager takes the project
    /// and writes to the output directory the arguments name.
    pub fn new(args: BundlerArgs) -> (r: Self)
        ensures
            r.arguments() == args,
            r.dependency_manager().wf(),
            r.dependency_manager().root_dir@ == args.project_dir@,
            r.dependency_manager().output_dir@ == output_dir_of(args),
            r.dependency_manager().cache().len() == 0,
    {
        let output_dir = output_dir_for(&args);
        let manager = DependencyManager::new(args.project_dir.as_str(), output_dir.as_str());
        BundlerCli { args, manager }
    }

    /// The output directory.
    pub fn get_output_dir(&self) -> (r: String)
        ensures
            r@ == output_dir_of(self.arguments()),
    {
        output_dir_for(&self.args)
    }

    /// The index file of the bundle of `packages`, stamped with the local
    /// time.
    pub fn generate_index_file(&self, packages: &[CompiledPackage]) -> (r: Result<String, String>)
        ensures
            r matches Ok(s) && exists|ts: Seq<char>|
                s@ == bundler_index_text(project_name_of(self.arguments()), ts, packages@),
    {
        let name = project_name_for(&self.args);
        let timestamp = timestamp_now();
        let s = index_file_text(name.as_str(), timestamp.as_str(), packages);
        assert(s@ == bundler_index_text(project_name_of(self.arguments()), timestamp@, packages@));
        Ok(s)
    }

    /// The types file of the bundle of `packages`, stamped with the local
    /// time.
    pub fn generate_types_file(&self, packages: &[CompiledPackage]) -> (r: Result<String, String>)
        ensures
            r matches Ok(s) && exists|ts: Seq<char>|
                s@ == bundler_types_text(project_name_of(self.arguments()), ts, packages@),
    {
        let name = project_name_for(&self.args);
        let timestamp = timestamp_now();
        let s = types_file_text(name.as_str(), timestamp.as_str(), packages);
        assert(s@ == bundler_types_text(project_name_of(self.arguments()), timestamp@, packages@));
        Ok(s)
    }

    /// The module of a package as written: minified where asked.
    pub fn module_content(&self, package: &CompiledPackage) -> (r: String)
        ensures
            r@ == (if self.arguments().minify {
                minified_lines(lines_of(package.code@))
            } else {
                package.code@
            }),
    {
        if self.args.minify {
            minify_lua(package.code.as_str())
        } else {
            package.code.clone()
        }
    }

    /// Minify Lua code.
    pub fn minify_lua(&self, code: &str) -> (r: String)
        ensures
            r@ == minified_lines(lines_of(code@)),
    {
        minify_lua(code)
    }
}

} // verus!
