//! The bundler behind the web interface: the files it makes of a project's
//! compiled dependencies, and what it reports of a bundle.

use vstd::prelude::*;
use crate::dependencies::{CompiledPackage, DependencyManager, minified_lines, minify_lua};
use crate::keyed::str_eq;
use crate::text::{lines_of, split_lines};
use crate::text::paths::{join_path, path_join};

verus! {

/// Web configuration for the dependency bundler.
#[derive(Debug)]
pub struct WebBundlerConfig {
    /// Project name
    pub project_name: String,
    /// Output format (rbxm, lua)
    pub output_format: String,
    /// Whether to include documentation
    pub include_docs: bool,
    /// Whether to minify output
    pub minify: bool,
    /// Custom Roblox path mapping, each source path once
    pub path_mapping: Option<Vec<(String, String)>>,
}

/// Result of bundling dependencies.
#[derive(Debug)]
pub struct BundleResult {
    /// Success status
    pub success: bool,
    /// Error message if any
    pub error: Option<String>,
    /// Output files
    pub files: Vec<OutputFile>,
    /// Metrics about the bundling process
    pub metrics: BundleMetrics,
}

/// Bundling metrics.
#[derive(Debug, Clone, Copy)]
pub struct BundleMetrics {
    /// Number of packages processed
    pub package_count: usize,
    /// Total lines of Rust code processed
    pub rust_lines: usize,
    /// Total lines of Luau code generated
    pub luau_lines: usize,
    /// Time taken in milliseconds
    pub time_ms: u64,
}

/// Output file from bundling.
#[derive(Debug)]
pub struct OutputFile {
    /// File name
    pub name: String,
    /// File content
    pub content: String,
    /// File type
    pub file_type: String,
}

/// What the bundler reports of itself.
#[derive(Debug)]
pub struct BundleStatus {
    pub packages: usize,
    pub config: WebBundlerConfig,
}

/// Web bundler for Roblox-RS.
#[derive(Debug)]
pub struct RobloxRsWebBundler {
    config: WebBundlerConfig,
    dependency_manager: Option<DependencyManager>,
    output_dir: String,
    compiled_packages: Vec<CompiledPackage>,
}

/// A file as its name, content and type.
pub open spec fn file_view(f: OutputFile) -> (Seq<char>, Seq<char>, Seq<char>) {
    (f.name@, f.content@, f.file_type@)
}

/// The views of files.
pub open spec fn file_views(files: Seq<OutputFile>) -> Seq<(Seq<char>, Seq<char>, Seq<char>)> {
    files.map_values(|f: OutputFile| file_view(f))
}

/// The lines requiring each package in the index file.
pub open spec fn index_requires(packages: Seq<CompiledPackage>) -> Seq<char>
    decreases packages.len(),
{
    if packages.len() == 0 {
        Seq::empty()
    } else {
        let n = packages.last().name@;
        index_requires(packages.drop_last()) + "RobloxRs."@ + n + " = require(script."@ + n + ")\n"@
    }
}

/// The index file that exports every package.
pub open spec fn web_index_text(packages: Seq<CompiledPackage>) -> Seq<char> {
    "-- Generated by Roblox-RS Web Bundler\n-- https://github.com/your-username/roblox-rs\n\nlocal RobloxRs = {}\n\n"@
        + index_requires(packages) + "\nreturn RobloxRs\n"@
}

/// The entries of each package in the types file: its name, and its type
/// definitions where it has them.
pub open spec fn type_entries(packages: Seq<CompiledPackage>) -> Seq<char>
    decreases packages.len(),
{
    if packages.len() == 0 {
        Seq::empty()
    } else {
        let p = packages.last();
        type_entries(packages.drop_last()) + "    "@ + p.name@ + ": any,\n"@ + match p.types {
            Some(t) => "    -- "@ + p.name@ + " types\n"@ + t@ + "\n\n"@,
            None => Seq::empty(),
        }
    }
}

/// The types file for every package.
pub open spec fn web_types_text(packages: Seq<CompiledPackage>) -> Seq<char> {
    "-- Type definitions for Roblox-RS dependencies\n-- Generated by Roblox-RS Web Bundler\n\nexport type RobloxRs = {\n"@
        + type_entries(packages) + "}\n\nreturn nil\n"@
}

/// The Lua file of each package, minified where asked.
pub open spec fn package_files(packages: Seq<CompiledPackage>, minify: bool) -> Seq<
    (Seq<char>, Seq<char>, Seq<char>),
> {
    packages.map_values(
        |p: CompiledPackage|
            (
                p.name@ + ".lua"@,
                if minify {
                    minified_lines(lines_of(p.code@))
                } else {
                    p.code@
                },
                "lua"@,
            ),
    )
}

/// The files a bundle of `packages` consists of under `config`, or the
/// message for a format the bundler does not write.
pub open spec fn bundle_files(config: WebBundlerConfig, packages: Seq<CompiledPackage>) -> Result<
    Seq<(Seq<char>, Seq<char>, Seq<char>)>,
    Seq<char>,
> {
    let fmt = config.output_format@;
    let docs: Seq<(Seq<char>, Seq<char>, Seq<char>)> = if config.include_docs {
        seq![("types.d.lua"@, web_types_text(packages), "lua"@)]
    } else {
        Seq::empty()
    };
    if fmt == "rbxm"@ {
        Ok(seq![(config.project_name@ + ".rbxm"@, "RBXM content would go here"@, "rbxm"@)] + docs)
    } else if fmt == "lua"@ {
        Ok(package_files(packages, config.minify).push(("index.lua"@, web_index_text(packages), "lua"@))
            + docs)
    } else {
        Err("Unsupported output format: "@ + fmt)
    }
}

/// The lines of the code of `packages`, in all.
pub open spec fn code_lines(packages: Seq<CompiledPackage>) -> nat
    decreases packages.len(),
{
    if packages.len() == 0 {
        0
    } else {
        code_lines(packages.drop_last()) + lines_of(packages.last().code@).len()
    }
}

/// The lines of the Lua files among `files`, in all.
pub open spec fn lua_lines(files: Seq<(Seq<char>, Seq<char>, Seq<char>)>) -> nat
    decreases files.len(),
{
    if files.len() == 0 {
        0
    } else {
        lua_lines(files.drop_last()) + if files.last().2 == "lua"@ {
            lines_of(files.last().1).len()
        } else {
            0
        }
    }
}

/// A copy of a configuration.
pub fn clone_config(c: &WebBundlerConfig) -> (r: WebBundlerConfig)
    ensures
        r.project_name@ == c.project_name@,
        r.output_format@ == c.output_format@,
        r.include_docs == c.include_docs,
        r.minify == c.minify,
        r.path_mapping is Some == c.path_mapping is Some,
        r.path_mapping matches Some(m) ==> m@ == c.path_mapping->Some_0@,
{
    let path_mapping = match &c.path_mapping {
        Some(m) => {
            let mut out: Vec<(String, String)> = Vec::new();
            let mut i: usize = 0;
            while i < m.len()
                invariant
                    i <= m@.len(),
                    out@ == m@.take(i as int),
                decreases m@.len() - i,
            {
                out.push((m[i].0.clone(), m[i].1.clone()));
                proof {
                    assert(out@ =~= m@.take(i + 1));
                }
                i = i + 1;
            }
            proof {
                assert(m@.take(m@.len() as int) =~= m@);
            }
            Some(out)
        },
        None => None,
    };
    WebBundlerConfig {
        project_name: c.project_name.clone(),
        output_format: c.output_format.clone(),
        include_docs: c.include_docs,
        minify: c.minify,
        path_mapping,
    }
}

/// The number of lines of `s`.
fn line_count(s: &str) -> (r: usize)
    ensures
        r == lines_of(s@).len(),
{
    split_lines(s).len()
}

impl RobloxRsWebBundler {
    /// The configuration.
    pub closed spec fn config(&self) -> WebBundlerConfig {
        self.config
    }

    /// Where output goes.
    pub closed spec fn output_path(&self) -> Seq<char> {
        self.output_dir@
    }

    /// The packages of the last bundle.
    pub closed spec fn packages(&self) -> Seq<CompiledPackage> {
        self.compiled_packages@
    }

    /// The dependency manager, once initialized.
    pub closed spec fn manager(&self) -> Option<DependencyManager> {
        self.dependency_manager
    }

    /// A bundler with `config`, writing to `./output`, not yet initialized.
    pub fn new(config: WebBundlerConfig) -> (r: Self)
        ensures
            r.config() == config,
            r.output_path() == "./output"@,
            r.packages().len() == 0,
            r.manager() is None,
    {
        RobloxRsWebBundler {
            config,
            dependency_manager: None,
            output_dir: String::from_str("./output"),
            compiled_packages: Vec::new(),
        }
    }

    /// Initialize the bundler for the project at `root_dir`: output goes to
    /// its `output` directory, and a dependency manager takes the project.
    pub fn initialize(&mut self, root_dir: &str) -> (r: Result<(), String>)
        ensures
            r is Ok,
            final(self).output_path() == path_join(root_dir@, "output"@),
            final(self).manager() matches Some(m) && m.wf() && m.root_dir@ == root_dir@
                && m.output_dir@ == path_join(root_dir@, "output"@) && m.cache().len() == 0,
            final(self).config() == old(self).config(),
            final(self).packages() == old(self).packages(),
    {
        let output_path = join_path(root_dir, "output");
        let manager = DependencyManager::new(root_dir, output_path.as_str());
        self.output_dir = output_path;
        self.dependency_manager = Some(manager);
        Ok(())
    }

    /// An index file that exports all packages.
    pub fn generate_index_file(&self, packages: &[CompiledPackage]) -> (r: Result<String, String>)
        ensures
            r matches Ok(s) && s@ == web_index_text(packages@),
    {
        let mut content = String::from_str(
            "-- Generated by Roblox-RS Web Bundler\n-- https://github.com/your-username/roblox-rs\n\nlocal RobloxRs = {}\n\n",
        );
        let ghost head = content@;
        let mut i: usize = 0;
        while i < packages.len()
            invariant
                i <= packages@.len(),
                content@ == head + index_requires(packages@.take(i as int)),
            decreases packages@.len() - i,
        {
            proof {
                assert(packages@.take(i + 1).drop_last() =~= packages@.take(i as int));
            }
            content.append("RobloxRs.");
            content.append(packages[i].name.as_str());
            content.append(" = require(script.");
            content.append(packages[i].name.as_str());
            content.append(")\n");
            i = i + 1;
        }
        proof {
            assert(packages@.take(packages@.len() as int) =~= packages@);
        }
        content.append("\nreturn RobloxRs\n");
        Ok(content)
    }

    /// A types file for all packages.
    pub fn generate_types_file(&self, packages: &[CompiledPackage]) -> (r: Result<String, String>)
        ensures
            r matches Ok(s) && s@ == web_types_text(packages@),
    {
        let mut content = String::from_str(
            "-- Type definitions for Roblox-RS dependencies\n-- Generated by Roblox-RS Web Bundler\n\nexport type RobloxRs = {\n",
        );
        let ghost head = content@;
        let mut i: usize = 0;
        while i < packages.len()
            invariant
                i <= packages@.len(),
                content@ == head + type_entries(packages@.take(i as int)),
            decreases packages@.len() - i,
        {
            proof {
                assert(packages@.take(i + 1).drop_last() =~= packages@.take(i as int));
            }
            content.append("    ");
            content.append(packages[i].name.as_str());
            content.append(": any,\n");
            match &packages[i].types {
                Some(t) => {
                    content.append("    -- ");
                    content.append(packages[i].name.as_str());
                    content.append(" types\n");
                    content.append(t.as_str());
                    content.append("\n\n");
                },
                None => {},
            }
            i = i + 1;
        }
        proof {
            assert(packages@.take(packages@.len() as int) =~= packages@);
        }
        content.append("}\n\nreturn nil\n");
        Ok(content)
    }

    /// The output files of a bundle of `packages`.
    pub fn generate_output_files(&self, packages: &[CompiledPackage]) -> (r: Result<Vec<OutputFile>, String>)
        ensures
            match (r, bundle_files(self.config(), packages@)) {
                (Ok(files), Ok(expected)) => file_views(files@) == expected,
                (Err(m), Err(expected)) => m@ == expected,
                _ => false,
            },
    {
        let mut output_files: Vec<OutputFile> = Vec::new();
        let fmt = self.config.output_format.as_str();
        if str_eq(fmt, "rbxm") {
            let mut name = self.config.project_name.clone();
            name.append(".rbxm");
            output_files.push(
                OutputFile {
                    name,
                    content: String::from_str("RBXM content would go here"),
                    file_type: String::from_str("rbxm"),
                },
            );
            proof {
                assert(file_views(output_files@) =~= seq![
                    (self.config.project_name@ + ".rbxm"@, "RBXM content would go here"@, "rbxm"@),
                ]);
            }
        } else if str_eq(fmt, "lua") {
            let mut i: usize = 0;
            while i < packages.len()
                invariant
                    i <= packages@.len(),
                    output_files@.len() == i,
                    file_views(output_files@) == package_files(packages@.take(i as int), self.config.minify),
                decreases packages@.len() - i,
            {
                let mut file_name = packages[i].name.clone();
                file_name.append(".lua");
                let content = if self.config.minify {
                    minify_lua(packages[i].code.as_str())
                } else {
                    packages[i].code.clone()
                };
                let ghost before = output_files@;
                output_files.push(OutputFile { name: file_name, content, file_type: String::from_str("lua") });
                proof {
                    let m = self.config.minify;
                    let p = packages@[i as int];
                    let v = (p.name@ + ".lua"@, if m { minified_lines(lines_of(p.code@)) } else { p.code@ }, "lua"@);
                    assert(file_view(output_files@[i as int]) == v);
                    assert(file_views(output_files@) =~= file_views(before).push(v));
                    assert(package_files(packages@.take(i + 1), m) =~= package_files(packages@.take(i as int), m).push(v));
                }
                i = i + 1;
            }
            proof {
                assert(packages@.take(packages@.len() as int) =~= packages@);
            }
            let index_content = match self.generate_index_file(packages) {
                Ok(c) => c,
                Err(e) => {
                    return Err(e);
                },
            };
            let ghost before = output_files@;
            output_files.push(
                OutputFile { name: String::from_str("index.lua"), content: index_content, file_type: String::from_str("lua") },
            );
            proof {
                assert(file_views(output_files@) =~= file_views(before).push(("index.lua"@, web_index_text(packages@), "lua"@)));
            }
        } else {
            let mut m = String::from_str("Unsupported output format: ");
            m.append(fmt);
            return Err(m);
        }
        let ghost main = file_views(output_files@);
        if self.config.include_docs {
            let types_content = match self.generate_types_file(packages) {
                Ok(c) => c,
                Err(e) => {
                    return Err(e);
                },
            };
            output_files.push(
                OutputFile {
                    name: String::from_str("types.d.lua"),
                    content: types_content,
                    file_type: String::from_str("lua"),
                },
            );
            proof {
                assert(file_views(output_files@) =~= main + seq![("types.d.lua"@, web_types_text(packages@), "lua"@)]);
            }
        } else {
            proof {
                assert(main =~= main + Seq::<(Seq<char>, Seq<char>, Seq<char>)>::empty());
            }
        }
        Ok(output_files)
    }

    /// Bundle the compiled `packages`, which took `time_ms`: their output
    /// files and what they measure. The packages are kept as the last
    /// bundle's.
    pub fn bundle_dependencies(&mut self, packages: Vec<CompiledPackage>, time_ms: u64) -> (r: Result<BundleResult, String>)
        requires
            code_lines(packages@) <= usize::MAX,
            bundle_files(old(self).config(), packages@) matches Ok(f) ==> lua_lines(f) <= usize::MAX,
        ensures
            final(self).packages() == packages@,
            final(self).config() == old(self).config(),
            match (r, bundle_files(old(self).config(), packages@)) {
                (Ok(b), Ok(expected)) => {
                    &&& b.success
                    &&& b.error is None
                    &&& file_views(b.files@) == expected
                    &&& b.metrics == BundleMetrics {
                        package_count: packages@.len() as usize,
                        rust_lines: code_lines(packages@) as usize,
                        luau_lines: lua_lines(expected) as usize,
                        time_ms,
                    }
                },
                (Err(m), Err(e)) => m@ == "Failed to generate output files: "@ + e,
                _ => false,
            },
    {
        let files = match self.generate_output_files(packages.as_slice()) {
            Ok(f) => f,
            Err(e) => {
                self.compiled_packages = packages;
                let mut m = String::from_str("Failed to generate output files: ");
                m.append(e.as_str());
                return Err(m);
            },
        };
        let ghost expected = file_views(files@);
        let mut rust_lines: usize = 0;
        let mut i: usize = 0;
        while i < packages.len()
            invariant
                i <= packages@.len(),
                code_lines(packages@) <= usize::MAX,
                rust_lines == code_lines(packages@.take(i as int)),
            decreases packages@.len() - i,
        {
            proof {
                assert(packages@.take(i + 1).drop_last() =~= packages@.take(i as int));
                lemma_code_lines_prefix(packages@, i + 1);
            }
            rust_lines = rust_lines + line_count(packages[i].code.as_str());
            i = i + 1;
        }
        proof {
            assert(packages@.take(packages@.len() as int) =~= packages@);
        }
        let mut luau_lines: usize = 0;
        let mut k: usize = 0;
        while k < files.len()
            invariant
                k <= files@.len(),
                expected == file_views(files@),
                lua_lines(expected) <= usize::MAX,
                luau_lines == lua_lines(expected.take(k as int)),
            decreases files@.len() - k,
        {
            proof {
                assert(expected.take(k + 1).drop_last() =~= expected.take(k as int));
                lemma_lua_lines_prefix(expected, k + 1);
            }
            if str_eq(files[k].file_type.as_str(), "lua") {
                luau_lines = luau_lines + line_count(files[k].content.as_str());
            }
            k = k + 1;
        }
        proof {
            assert(expected.take(files@.len() as int) =~= expected);
        }
        let package_count = packages.len();
        self.compiled_packages = packages;
        let metrics = BundleMetrics { package_count, rust_lines, luau_lines, time_ms };
        Ok(BundleResult { success: true, error: None, files, metrics })
    }

    /// Minify Lua code.
    pub fn minify_lua(&self, code: &str) -> (r: String)
        ensures
            r@ == minified_lines(lines_of(code@)),
    {
        minify_lua(code)
    }

    /// What the bundler reports of itself: the number of packages of the
    /// last bundle, and its configuration.
    pub fn get_status(&self) -> (r: BundleStatus)
        ensures
            r.packages == self.packages().len(),
            r.config.project_name@ == self.config().project_name@,
            r.config.output_format@ == self.config().output_format@,
            r.config.include_docs == self.config().include_docs,
            r.config.minify == self.config().minify,
    {
        BundleStatus { packages: self.compiled_packages.len(), config: clone_config(&self.config) }
    }
}

/// The lines of a prefix are at most those of the whole.
proof fn lemma_code_lines_prefix(packages: Seq<CompiledPackage>, n: int)
    requires
        0 <= n <= packages.len(),
    ensures
        code_lines(packages.take(n)) <= code_lines(packages),
    decreases packages.len() - n,
{
    if n < packages.len() {
        lemma_code_lines_prefix(packages, n + 1);
        assert(packages.take(n + 1).drop_last() =~= packages.take(n));
    } else {
        assert(packages.take(n) =~= packages);
    }
}

/// The Lua lines of a prefix are at most those of the whole.
proof fn lemma_lua_lines_prefix(files: Seq<(Seq<char>, Seq<char>, Seq<char>)>, n: int)
    requires
        0 <= n <= files.len(),
    ensures
        lua_lines(files.take(n)) <= lua_lines(files),
    decreases files.len() - n,
{
    if n < files.len() {
        lemma_lua_lines_prefix(files, n + 1);
        assert(files.take(n + 1).drop_last() =~= files.take(n));
    } else {
        assert(files.take(n) =~= files);
    }
}

} // verus!
