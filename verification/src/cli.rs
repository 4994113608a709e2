//! What the command-line compiler decides: the optimization level a name
//! selects, the options it compiles with, where output goes, and the files
//! of a new project.

use vstd::prelude::*;
use crate::compiler::{CompileOptions, OptimizationLevel};
use crate::keyed::str_eq;
use crate::text::{lowercase, to_lowercase};
use crate::text::paths::{with_extension, with_extension_text};

verus! {

/// The optimization level a lowercase name selects.
pub open spec fn level_named(lower: Seq<char>) -> Option<OptimizationLevel> {
    if lower == "minimal"@ {
        Some(OptimizationLevel::Minimal)
    } else if lower == "default"@ {
        Some(OptimizationLevel::Default)
    } else if lower == "aggressive"@ {
        Some(OptimizationLevel::Aggressive)
    } else {
        None
    }
}

/// The optimization level `name` selects, in any case; `None` for a name
/// that selects none.
pub fn parse_optimization_level(name: &str) -> (r: Option<OptimizationLevel>)
    ensures
        r == level_named(lowercase(name@)),
{
    let lower = to_lowercase(name);
    let l = lower.as_str();
    if str_eq(l, "minimal") {
        Some(OptimizationLevel::Minimal)
    } else if str_eq(l, "default") {
        Some(OptimizationLevel::Default)
    } else if str_eq(l, "aggressive") {
        Some(OptimizationLevel::Aggressive)
    } else {
        None
    }
}

/// The options the command line compiles with: the runtime included, no
/// parallelization, nothing for Rojo or type declarations.
pub fn cli_compile_options(debug: bool, optimization_level: OptimizationLevel) -> (r: CompileOptions)
    ensures
        r.include_runtime,
        r.debug_mode == debug,
        !r.enable_parallelization,
        r.optimization_level == optimization_level,
        !r.generate_type_declarations,
        r.type_declarations_dir is None,
        r.rojo_project_path is None,
        !r.serve_with_rojo,
        !r.open_rojo_browser,
{
    CompileOptions {
        include_runtime: true,
        debug_mode: debug,
        enable_parallelization: false,
        optimization_level,
        generate_type_declarations: false,
        type_declarations_dir: None,
        rojo_project_path: None,
        serve_with_rojo: false,
        open_rojo_browser: false,
    }
}

/// Where the output of compiling `input` goes by default: the input with
/// the extension `lua`, or the input with `.lua` added where that is the
/// input itself.
pub open spec fn default_output_text(input: Seq<char>) -> Seq<char> {
    let o = with_extension_text(input, "lua"@);
    if o == input {
        input + ".lua"@
    } else {
        o
    }
}

/// Where the output of compiling `input` goes by default.
pub fn default_output_path(input: &str) -> (r: String)
    ensures
        r@ == default_output_text(input@),
{
    let o = with_extension(input, "lua");
    if str_eq(o.as_str(), input) {
        let mut p = String::from_str(input);
        p.append(".lua");
        p
    } else {
        o
    }
}

/// The directory of a new project: the one given, else its name.
pub fn project_directory(name: &str, directory: &Option<String>) -> (r: String)
    ensures
        r@ == match *directory {
            Some(d) => d@,
            None => name@,
        },
{
    match directory {
        Some(d) => d.clone(),
        None => String::from_str(name),
    }
}

/// The manifest of a new project `name`, with the ECS crate where asked.
pub open spec fn cargo_toml_text(name: Seq<char>, ecs: bool) -> Seq<char> {
    "[package]\nname = \""@ + name + "\"\nversion = \"0.1.0\"\nedition = \"2021\"\n\n[dependencies]\nroblox-rs-core = \"0.1.0\"\n"@ + (if ecs {
        "roblox-rs-ecs = \"0.1.0\"\n"@
    } else {
        Seq::empty()
    }) + "\n[features]\ndefault = [\"native\"]\nnative = []\nroblox = []\n"@
}

/// The manifest of a new project `name`, with the ECS crate where asked.
pub fn cargo_toml(name: &str, ecs: bool) -> (r: String)
    ensures
        r@ == cargo_toml_text(name@, ecs),
{
    let mut t = String::from_str("[package]\nname = \"");
    t.append(name);
    t.append("\"\nversion = \"0.1.0\"\nedition = \"2021\"\n\n[dependencies]\nroblox-rs-core = \"0.1.0\"\n");
    if ecs {
        t.append("roblox-rs-ecs = \"0.1.0\"\n");
    }
    t.append("\n[features]\ndefault = [\"native\"]\nnative = []\nroblox = []\n");
    proof {
        if !ecs {
            assert(t@ =~= cargo_toml_text(name@, ecs));
        }
    }
    t
}

/// The `main.rs` of a new project that uses the ECS crate.
pub const MAIN_ECS_SRC: &'static str = "use roblox_rs_ecs::prelude::*;\n\nfn main() {\n    let mut app = App::new();\n    \n    app.add_system(hello_world);\n    \n    app.run();\n}\n\nfn hello_world() {\n    println!(\"Hello, world!\");\n}\n";

/// The `main.rs` of a new project.
pub const MAIN_SRC: &'static str = "fn main() {\n    println!(\"Hello, world!\");\n}\n";

/// The `main.rs` of a new project, with the ECS crate where asked.
pub fn main_rs(ecs: bool) -> (r: &'static str)
    ensures
        r@ == (if ecs {
            MAIN_ECS_SRC@
        } else {
            MAIN_SRC@
        }),
{
    if ecs {
        MAIN_ECS_SRC
    } else {
        MAIN_SRC
    }
}

/// The README of a new project `name`.
pub open spec fn readme_text(name: Seq<char>) -> Seq<char> {
    "# "@ + name + "\n\nA Roblox game written in Rust, compiled to Luau.\n\n## Building\n\n```bash\n# Compile for testing on native platform\ncargo build\n\n# Compile for Roblox\nroblox-rs build --target roblox\n```\n"@
}

/// The README of a new project `name`.
pub fn readme(name: &str) -> (r: String)
    ensures
        r@ == readme_text(name@),
{
    let mut t = String::from_str("# ");
    t.append(name);
    t.append("\n\nA Roblox game written in Rust, compiled to Luau.\n\n## Building\n\n```bash\n# Compile for testing on native platform\ncargo build\n\n# Compile for Roblox\nroblox-rs build --target roblox\n```\n");
    t
}

} // verus!
