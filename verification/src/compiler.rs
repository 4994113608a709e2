//! The compiler: Rust source in, Luau out.

use vstd::prelude::*;
use crate::debug::trace::{HEADER_END, entry_text, entry_trace, exit_text, exit_trace};
use crate::error::Error;
use crate::luau::{LuauAst, LuauFunction, LuauStmt};
use crate::luau::generator::{block_text, deeper, function_text, generate_code, indent, names_text, stmt_text};
use crate::text::views;
use crate::luau::optimizer::{optimization_header, optimize_code};
use crate::runtime::{
    DEBUG_HELPERS_SRC, PARALLEL_HELPERS_SRC, POOL_HELPERS_SRC, RUNTIME_BANNER, generate_runtime_module,
    lemma_runtime_sections, runtime_module_text,
};
use crate::runtime::diagnostics::{
    DebugInfo,
    generate_debug_symbols,
    generate_source_map,
    pair_views,
    source_map_entries,
    symbols_text,
};
use crate::syntax::{ItemView, RustItem, item_reads, item_view, read_depth, read_source, rust_file, source_items};
use crate::text::lines_of;
use crate::text::paths::occurs_in;
use crate::transformer::{
    TransformError,
    TransformErrorKind,
    item_stmt_count,
    items_error,
    items_output_ok,
    lemma_item_output_len,
    lemma_read_items_alike,
    same_decl,
    same_decls,
    transform_items,
};

verus! {

/// Optimization level for the compilation process
#[derive(Debug, Clone, Copy, PartialEq, Eq, Structural)]
pub enum OptimizationLevel {
    /// Minimal optimizations (faster compilation)
    Minimal,
    /// Default optimizations (balanced)
    Default,
    /// Aggressive optimizations (slower compilation, potentially faster execution)
    Aggressive,
}

/// Compilation options
#[derive(Debug, Clone)]
pub struct CompileOptions {
    /// Whether to include runtime helpers in the compiled output
    pub include_runtime: bool,
    /// Whether to add debug information to the compiled output
    pub debug_mode: bool,
    /// Whether to attempt automatic parallelization
    pub enable_parallelization: bool,
    /// Optimization level to apply
    pub optimization_level: OptimizationLevel,
    /// Whether to write Luau type declarations beside the output
    pub generate_type_declarations: bool,
    /// Where type declarations go
    pub type_declarations_dir: Option<String>,
    /// The Rojo project to compile into, if any
    pub rojo_project_path: Option<String>,
    /// Whether to serve the project with Rojo afterwards
    pub serve_with_rojo: bool,
    /// Whether to open Rojo's page in a browser
    pub open_rojo_browser: bool,
}

/// The default options: the runtime included, no debug information, no
/// parallelization, the default optimization level, no Rojo.
pub open spec fn default_compile_options() -> CompileOptions {
    CompileOptions {
        include_runtime: true,
        debug_mode: false,
        enable_parallelization: false,
        optimization_level: OptimizationLevel::Default,
        generate_type_declarations: false,
        type_declarations_dir: None,
        rojo_project_path: None,
        serve_with_rojo: false,
        open_rojo_browser: false,
    }
}

impl Default for CompileOptions {
    fn default() -> (r: Self)
        ensures
            r == default_compile_options(),
    {
        CompileOptions {
            include_runtime: true,
            debug_mode: false,
            enable_parallelization: false,
            optimization_level: OptimizationLevel::Default,
            generate_type_declarations: false,
            type_declarations_dir: None,
            rojo_project_path: None,
            serve_with_rojo: false,
            open_rojo_browser: false,
        }
    }
}

/// The directives that open code compiled in debug mode.
pub const DEBUG_PREFIX: &'static str = "--!optimize 2\n--!native\n\n";

/// The prefix `syn`'s messages get in a parse error.
pub const SYNTAX_ERROR_PREFIX: &'static str = "syntax error: ";

/// The message of a transformation error of kind `kind` carrying `text`.
pub open spec fn kind_message(kind: TransformErrorKind, text: Seq<char>) -> Seq<char> {
    match kind {
        TransformErrorKind::UnsupportedFeature => "unsupported feature: "@ + text,
        TransformErrorKind::Type => "type error: "@ + text,
        TransformErrorKind::Other => "transformation error: "@ + text,
    }
}

/// Whether `after` is `before` with debug tracing: a named function gets
/// the entry trace as its first statement and the exit trace as its last;
/// any other statement stays as it is.
pub open spec fn traced_stmt(before: LuauStmt, after: LuauStmt) -> bool {
    match before {
        LuauStmt::FunctionDecl(f) => match f.name {
            Some(n) => after matches LuauStmt::FunctionDecl(g) && {
                &&& g.name == f.name
                &&& g.params@ == f.params@
                &&& g.is_variadic == f.is_variadic
                &&& g.body@.len() == f.body@.len() + 2
                &&& g.body@[0] matches LuauStmt::Raw(a) && a@ == entry_text(n@)
                &&& g.body@.subrange(1, g.body@.len() - 1) == f.body@
                &&& g.body@.last() matches LuauStmt::Raw(b) && b@ == exit_text(n@)
            },
            None => after == before,
        },
        _ => after == before,
    }
}

/// Whether `after` is `before` with each statement traced.
pub open spec fn traced(before: Seq<LuauStmt>, after: Seq<LuauStmt>) -> bool {
    &&& after.len() == before.len()
    &&& forall|i: int| 0 <= i < before.len() ==> traced_stmt(#[trigger] before[i], after[i])
}

/// Whether `after` is what the compiler emits for the translated
/// statements `before`: traced in debug mode, else the same.
pub open spec fn emitted(debug_mode: bool, before: Seq<LuauStmt>, after: Seq<LuauStmt>) -> bool {
    if debug_mode {
        traced(before, after)
    } else {
        after == before
    }
}

/// The output for the Rust source `src` whose items translate to `stmts`:
/// the generated code, after the runtime module where it is included,
/// under the directives of the optimization level; in debug mode also
/// under the debug directives, with debug symbols that map its lines to
/// those of the source.
pub open spec fn compiled_text(src: Seq<char>, stmts: Seq<LuauStmt>, options: CompileOptions) -> Seq<char> {
    let code = "-- Generated by roblox-rs\n\n"@ + block_text(stmts, 0);
    let linked = if options.include_runtime {
        runtime_module_text() + "\n"@ + code
    } else {
        code
    };
    let optimized = optimization_header(options.optimization_level) + linked;
    if options.debug_mode {
        let d = DEBUG_PREFIX@ + optimized;
        symbols_text(source_map_entries(lines_of(src), lines_of(d)), Seq::empty(), Seq::empty()) + d
    } else {
        optimized
    }
}

/// What compiling the items `items` of the source `src` gives: the
/// transformation error of the first item that has one, else the output
/// for the items' translation.
pub open spec fn compile_outcome(
    src: Seq<char>,
    items: Seq<RustItem>,
    options: CompileOptions,
    r: Result<String, Error>,
) -> bool {
    match items_error(items) {
        Some(e) => r matches Err(Error::Transform(m)) && m@ == kind_message(e.0, e.1),
        None => r matches Ok(out) && exists|s1: Seq<LuauStmt>, s2: Seq<LuauStmt>|
            #![trigger items_output_ok(items, s1), emitted(options.debug_mode, s1, s2)]
            items_output_ok(items, s1) && emitted(options.debug_mode, s1, s2) && out@
                == compiled_text(src, s2, options),
    }
}

/// What compiling the source `src` gives: the parse error where `syn`
/// rejects it, else the outcome for the items read from it.
pub open spec fn compile_result(src: Seq<char>, options: CompileOptions, r: Result<String, Error>) -> bool {
    match rust_file(src) {
        Err(m) => r matches Err(Error::Parse(p)) && p@ == SYNTAX_ERROR_PREFIX@ + m,
        Ok(_) => exists|items: Seq<RustItem>|
            #![trigger source_items(src, items), compile_outcome(src, items, options, r)]
            source_items(src, items) && compile_outcome(src, items, options, r),
    }
}

/// The output of a successful compilation of `src`: there are items whose
/// translation, traced in debug mode, the output is the text of.
proof fn lemma_output_shape(src: Seq<char>, options: CompileOptions, r: Result<String, Error>) -> (s2:
    Seq<LuauStmt>)
    requires
        compile_result(src, options, r),
        r is Ok,
    ensures
        r matches Ok(out) && out@ == compiled_text(src, s2, options),
{
    let items = choose|items: Seq<RustItem>|
        #![trigger source_items(src, items), compile_outcome(src, items, options, r)]
        source_items(src, items) && compile_outcome(src, items, options, r);
    let (s1, s2) = choose|s1: Seq<LuauStmt>, s2: Seq<LuauStmt>|
        #![trigger items_output_ok(items, s1), emitted(options.debug_mode, s1, s2)]
        items_output_ok(items, s1) && emitted(options.debug_mode, s1, s2) && r->Ok_0@
            == compiled_text(src, s2, options);
    s2
}

/// `part` occurs in any text that has it between two others.
proof fn lemma_occurs_between(pre: Seq<char>, part: Seq<char>, post: Seq<char>)
    ensures
        occurs_in(part, pre + part + post),
{
    let whole = pre + part + post;
    let i = pre.len() as int;
    assert(whole.subrange(i, i + part.len()) =~= part);
}

/// Concatenation regroups.
proof fn lemma_regroup(a: Seq<char>, b: Seq<char>, c: Seq<char>)
    ensures
        a + (b + c) == a + b + c,
{
    assert(a + (b + c) =~= a + b + c);
}

/// Compiling with the runtime included links the whole runtime module into
/// every output: it occurs in the text of each successful compilation.
pub proof fn law_runtime_linked(src: Seq<char>, options: CompileOptions, r: Result<String, Error>)
    requires
        compile_result(src, options, r),
        options.include_runtime,
        r is Ok,
    ensures
        occurs_in(runtime_module_text(), r->Ok_0@),
{
    let s2 = lemma_output_shape(src, options, r);
    let out = r->Ok_0@;
    let rt = runtime_module_text();
    let code = "-- Generated by roblox-rs\n\n"@ + block_text(s2, 0);
    let header = optimization_header(options.optimization_level);
    let post = "\n"@ + code;
    lemma_regroup(rt, "\n"@, code);
    let linked = rt + "\n"@ + code;
    assert(linked == rt + post);
    let optimized = header + linked;
    lemma_regroup(header, rt, post);
    if options.debug_mode {
        let d = DEBUG_PREFIX@ + optimized;
        let sym = symbols_text(source_map_entries(lines_of(src), lines_of(d)), Seq::empty(), Seq::empty());
        assert(out == sym + d);
        lemma_regroup(DEBUG_PREFIX@, header + rt, post);
        lemma_regroup(DEBUG_PREFIX@, header, rt);
        lemma_regroup(sym, DEBUG_PREFIX@ + header + rt, post);
        lemma_regroup(sym, DEBUG_PREFIX@ + header, rt);
        lemma_occurs_between(sym + (DEBUG_PREFIX@ + header), rt, post);
    } else {
        lemma_occurs_between(header, rt, post);
    }
}

/// What occurs in a text that occurs in another occurs in that one too.
proof fn lemma_occurs_within(part: Seq<char>, mid: Seq<char>, whole: Seq<char>)
    requires
        occurs_in(part, mid),
        occurs_in(mid, whole),
    ensures
        occurs_in(part, whole),
{
    let i = choose|i: int| 0 <= i && i + part.len() <= mid.len() && #[trigger] mid.subrange(i, i + part.len()) == part;
    let j = choose|j: int| 0 <= j && j + mid.len() <= whole.len() && #[trigger] whole.subrange(j, j + mid.len()) == mid;
    assert(whole.subrange(j + i, j + i + part.len()) =~= mid.subrange(i, i + part.len()));
}

/// Compiling with the runtime included brings its opening (the table
/// `RobloxRS`), its object pools, its parallel helpers and its debugging
/// helpers into every output.
pub proof fn law_runtime_sections(src: Seq<char>, options: CompileOptions, r: Result<String, Error>)
    requires
        compile_result(src, options, r),
        options.include_runtime,
        r is Ok,
    ensures
        occurs_in(RUNTIME_BANNER@, r->Ok_0@),
        occurs_in(POOL_HELPERS_SRC@, r->Ok_0@),
        occurs_in(PARALLEL_HELPERS_SRC@, r->Ok_0@),
        occurs_in(DEBUG_HELPERS_SRC@, r->Ok_0@),
{
    law_runtime_linked(src, options, r);
    let out = r->Ok_0@;
    let rt = runtime_module_text();
    lemma_runtime_sections();
    lemma_occurs_within(RUNTIME_BANNER@, rt, out);
    lemma_occurs_within(POOL_HELPERS_SRC@, rt, out);
    lemma_occurs_within(PARALLEL_HELPERS_SRC@, rt, out);
    lemma_occurs_within(DEBUG_HELPERS_SRC@, rt, out);
}

/// In debug mode every successful compilation begins with the block of
/// debug symbols, whose first entry is the source map.
pub proof fn law_debug_symbols_first(src: Seq<char>, options: CompileOptions, r: Result<String, Error>)
    requires
        compile_result(src, options, r),
        options.debug_mode,
        r is Ok,
    ensures
        r->Ok_0@.take(35) == "--[[DEBUG_SYMBOLS\n  source_map = {\n"@,
{
    reveal_strlit("--[[DEBUG_SYMBOLS\n");
    reveal_strlit("  source_map = {\n");
    reveal_strlit("--[[DEBUG_SYMBOLS\n  source_map = {\n");
    let s2 = lemma_output_shape(src, options, r);
    let out = r->Ok_0@;
    let code = "-- Generated by roblox-rs\n\n"@ + block_text(s2, 0);
    let linked = if options.include_runtime {
        runtime_module_text() + "\n"@ + code
    } else {
        code
    };
    let optimized = optimization_header(options.optimization_level) + linked;
    let d = DEBUG_PREFIX@ + optimized;
    let sym = symbols_text(source_map_entries(lines_of(src), lines_of(d)), Seq::empty(), Seq::empty());
    let head = "--[[DEBUG_SYMBOLS\n  source_map = {\n"@;
    assert(head =~= "--[[DEBUG_SYMBOLS\n"@ + "  source_map = {\n"@);
    assert(sym =~= head + (sym.skip(35)));
    assert(out =~= head + (sym.skip(35) + d));
    assert(out.take(35) =~= head);
}

/// `part` occurs in any text that begins or ends with a text it occurs in.
proof fn lemma_occurs_extend(part: Seq<char>, a: Seq<char>, b: Seq<char>)
    ensures
        occurs_in(part, a) ==> occurs_in(part, a + b),
        occurs_in(part, b) ==> occurs_in(part, a + b),
{
    if occurs_in(part, a) {
        let i = choose|i: int| 0 <= i && i + part.len() <= a.len() && #[trigger] a.subrange(i, i + part.len()) == part;
        assert((a + b).subrange(i, i + part.len()) =~= a.subrange(i, i + part.len()));
    }
    if occurs_in(part, b) {
        let i = choose|i: int| 0 <= i && i + part.len() <= b.len() && #[trigger] b.subrange(i, i + part.len()) == part;
        let k = a.len() + i;
        assert((a + b).subrange(k, k + part.len()) =~= b.subrange(i, i + part.len()));
    }
}

/// The translation of the items holds, for the free function at position
/// `k`, a function declaration of the same name.
proof fn lemma_function_stmt(items: Seq<RustItem>, out: Seq<LuauStmt>, k: int) -> (j: int)
    requires
        items_output_ok(items, out),
        0 <= k < items.len(),
        items[k] is Fn,
    ensures
        0 <= j < out.len(),
        out[j] matches LuauStmt::FunctionDecl(g) && g.name matches Some(n) && n@ == items[k]->Fn_0.name@,
    decreases items.len(),
{
    let c = item_stmt_count(items.last());
    lemma_item_output_len(items.last(), out.skip(out.len() - c));
    if k == items.len() - 1 {
        let j = out.len() - 1;
        assert(out.skip(out.len() - c)[0] == out[j]);
        j
    } else {
        assert(items.drop_last()[k] == items[k]);
        let j = lemma_function_stmt(items.drop_last(), out.take(out.len() - c), k);
        assert(out.take(out.len() - c)[j] == out[j]);
        j
    }
}

/// The text of each statement occurs in the text of its block.
proof fn lemma_stmt_in_block(stmts: Seq<LuauStmt>, j: int, level: nat)
    requires
        0 <= j < stmts.len(),
    ensures
        occurs_in(stmt_text(stmts[j], level), block_text(stmts, level)),
    decreases stmts.len(),
{
    let prev = block_text(stmts.drop_last(), level);
    if j == stmts.len() - 1 {
        lemma_occurs_between(prev, stmt_text(stmts[j], level), seq!['\n']);
    } else {
        assert(stmts.drop_last()[j] == stmts[j]);
        lemma_stmt_in_block(stmts.drop_last(), j, level);
        lemma_occurs_extend(stmt_text(stmts[j], level), prev, stmt_text(stmts.last(), level));
        lemma_occurs_extend(stmt_text(stmts[j], level), prev + stmt_text(stmts.last(), level), seq!['\n']);
    }
}

/// Every free function of the source is defined under its own name in the
/// output of each successful compilation: `function <name>(` occurs in it.
pub proof fn law_functions_defined(src: Seq<char>, options: CompileOptions, r: Result<String, Error>, k: int)
    requires
        compile_result(src, options, r),
        r is Ok,
        rust_file(src) is Ok,
        0 <= k < rust_file(src)->Ok_0.len(),
        item_view(rust_file(src)->Ok_0[k]) is Fn,
    ensures
        occurs_in("function "@ + item_view(rust_file(src)->Ok_0[k])->Fn_0 + "("@, r->Ok_0@),
{
    reveal_strlit("(");
    let items = choose|items: Seq<RustItem>|
        #![trigger source_items(src, items), compile_outcome(src, items, options, r)]
        source_items(src, items) && compile_outcome(src, items, options, r);
    assert(item_reads(rust_file(src)->Ok_0[k], read_depth(), items[k]));
    let out = r->Ok_0@;
    let name = items[k]->Fn_0.name@;
    let part = "function "@ + name + "("@;
    let (s1, s2) = choose|s1: Seq<LuauStmt>, s2: Seq<LuauStmt>|
        #![trigger items_output_ok(items, s1), emitted(options.debug_mode, s1, s2)]
        items_output_ok(items, s1) && emitted(options.debug_mode, s1, s2) && out == compiled_text(src, s2, options);
    let j = lemma_function_stmt(items, s1, k);
    if options.debug_mode {
        assert(traced_stmt(s1[j], s2[j]));
    }
    let g = s2[j]->FunctionDecl_0;
    assert(g.name matches Some(n) && n@ == name);
    let ft = function_text(g, 0);
    assert(stmt_text(s2[j], 0) == ft);
    assert(indent(0) == Seq::<char>::empty());
    assert(ft =~= part + ft.skip(part.len() as int));
    lemma_occurs_between(Seq::empty(), part, ft.skip(part.len() as int));
    assert(Seq::<char>::empty() + part + ft.skip(part.len() as int) =~= ft);
    lemma_stmt_in_block(s2, j, 0);
    let bt = block_text(s2, 0);
    assert(occurs_in(part, bt)) by {
        let i = choose|i: int| 0 <= i && i + part.len() <= ft.len() && #[trigger] ft.subrange(i, i + part.len()) == part;
        let m = choose|m: int| 0 <= m && m + ft.len() <= bt.len() && #[trigger] bt.subrange(m, m + ft.len()) == ft;
        assert(bt.subrange(m + i, m + i + part.len()) =~= ft.subrange(i, i + part.len()));
    }
    lemma_code_in_output(src, options, s2, part);
}

/// What occurs in the generated code occurs in the whole output.
proof fn lemma_code_in_output(src: Seq<char>, options: CompileOptions, s2: Seq<LuauStmt>, part: Seq<char>)
    requires
        occurs_in(part, block_text(s2, 0)),
    ensures
        occurs_in(part, compiled_text(src, s2, options)),
{
    let bt = block_text(s2, 0);
    let code = "-- Generated by roblox-rs\n\n"@ + bt;
    lemma_occurs_extend(part, "-- Generated by roblox-rs\n\n"@, bt);
    let linked = if options.include_runtime {
        runtime_module_text() + "\n"@ + code
    } else {
        code
    };
    lemma_occurs_extend(part, runtime_module_text() + "\n"@, code);
    let optimized = optimization_header(options.optimization_level) + linked;
    lemma_occurs_extend(part, optimization_header(options.optimization_level), linked);
    if options.debug_mode {
        let d = DEBUG_PREFIX@ + optimized;
        lemma_occurs_extend(part, DEBUG_PREFIX@, optimized);
        let sym = symbols_text(source_map_entries(lines_of(src), lines_of(d)), Seq::empty(), Seq::empty());
        lemma_occurs_extend(part, sym, d);
    }
}

/// The body of a function occurs in its text.
proof fn lemma_body_in_function(g: LuauFunction, l: nat)
    ensures
        occurs_in(block_text(g.body@, deeper(l)), function_text(g, l)),
{
    let bt = block_text(g.body@, deeper(l));
    let head = indent(l) + (match g.name {
        Some(nm) => "function "@ + nm@ + seq!['('],
        None => "function("@,
    }) + names_text(g.params@) + (if g.is_variadic {
        if g.params@.len() > 0 {
            ", ..."@
        } else {
            "..."@
        }
    } else {
        Seq::empty()
    }) + ")\n"@;
    lemma_occurs_between(head, bt, indent(l) + "end"@);
    assert(head + bt + (indent(l) + "end"@) =~= function_text(g, l));
}

/// A traced function named `name` has its entry trace in its text.
proof fn lemma_entry_in_function(g: LuauFunction, name: Seq<char>)
    requires
        g.body@.len() > 0,
        g.body@[0] matches LuauStmt::Raw(a) && a@ == entry_text(name),
    ensures
        occurs_in(entry_text(name), function_text(g, 0)),
{
    let body = g.body@;
    let l1 = deeper(0);
    let part = entry_text(name);
    lemma_stmt_in_block(body, 0, l1);
    let raw = body[0]->Raw_0@;
    assert(stmt_text(body[0], l1) == indent(l1) + raw);
    lemma_occurs_between(indent(l1), raw, Seq::empty());
    assert(indent(l1) + raw + Seq::<char>::empty() =~= stmt_text(body[0], l1));
    lemma_occurs_within(part, stmt_text(body[0], l1), block_text(body, l1));
    lemma_body_in_function(g, 0);
    lemma_occurs_within(part, block_text(body, l1), function_text(g, 0));
}

/// In debug mode every free function of the source traces each call: its
/// entry trace, which sets up the line, variable and source-map tables of
/// `RobloxRS.Debug` and records the function's name, occurs in the output.
pub proof fn law_debug_traces(src: Seq<char>, options: CompileOptions, r: Result<String, Error>, k: int)
    requires
        compile_result(src, options, r),
        options.debug_mode,
        r is Ok,
        rust_file(src) is Ok,
        0 <= k < rust_file(src)->Ok_0.len(),
        item_view(rust_file(src)->Ok_0[k]) is Fn,
    ensures
        occurs_in(entry_text(item_view(rust_file(src)->Ok_0[k])->Fn_0), r->Ok_0@),
        occurs_in(HEADER_END@, r->Ok_0@),
{
    let items = choose|items: Seq<RustItem>|
        #![trigger source_items(src, items), compile_outcome(src, items, options, r)]
        source_items(src, items) && compile_outcome(src, items, options, r);
    assert(item_reads(rust_file(src)->Ok_0[k], read_depth(), items[k]));
    let out = r->Ok_0@;
    let name = items[k]->Fn_0.name@;
    let part = entry_text(name);
    let (s1, s2) = choose|s1: Seq<LuauStmt>, s2: Seq<LuauStmt>|
        #![trigger items_output_ok(items, s1), emitted(options.debug_mode, s1, s2)]
        items_output_ok(items, s1) && emitted(options.debug_mode, s1, s2) && out == compiled_text(src, s2, options);
    let j = lemma_function_stmt(items, s1, k);
    assert(traced_stmt(s1[j], s2[j]));
    let g = s2[j]->FunctionDecl_0;
    lemma_entry_in_function(g, name);
    let ft = function_text(g, 0);
    assert(stmt_text(s2[j], 0) == ft);
    lemma_stmt_in_block(s2, j, 0);
    lemma_occurs_within(part, ft, block_text(s2, 0));
    lemma_code_in_output(src, options, s2, part);
    let hs = crate::debug::trace::HEADER_START@;
    lemma_occurs_between(hs + name, HEADER_END@, crate::debug::trace::ENTRY_START@ + name + crate::debug::trace::ENTRY_END@);
    assert(hs + name + HEADER_END@ + (crate::debug::trace::ENTRY_START@ + name + crate::debug::trace::ENTRY_END@) =~= part);
    lemma_occurs_within(HEADER_END@, part, out);
}

/// Two statements alike read alike at any level.
proof fn lemma_same_decl_text(a: LuauStmt, b: LuauStmt, l: nat)
    requires
        same_decl(a, b),
    ensures
        stmt_text(a, l) == stmt_text(b, l),
{
    match (a, b) {
        (LuauStmt::FunctionDecl(f), LuauStmt::FunctionDecl(g)) => {
            assert(block_text(f.body@, deeper(l)) == block_text(g.body@, deeper(l)));
            assert(views(f.params@).len() == f.params@.len());
            assert(views(g.params@).len() == g.params@.len());
            assert(names_text(f.params@) == names_text(g.params@));
            assert(stmt_text(a, l) == function_text(f, l));
            assert(stmt_text(b, l) == function_text(g, l));
        },
        _ => {},
    }
}

/// Blocks alike statement by statement read alike.
proof fn lemma_same_block_text(a: Seq<LuauStmt>, b: Seq<LuauStmt>, l: nat)
    requires
        same_decls(a, b),
    ensures
        block_text(a, l) == block_text(b, l),
    decreases a.len(),
{
    if a.len() > 0 {
        assert(same_decls(a.drop_last(), b.drop_last())) by {
            assert forall|i: int| 0 <= i < a.len() - 1 implies same_decl(#[trigger] a.drop_last()[i], b.drop_last()[i]) by {
                assert(a.drop_last()[i] == a[i]);
                assert(b.drop_last()[i] == b[i]);
            }
        }
        lemma_same_block_text(a.drop_last(), b.drop_last(), l);
        lemma_same_decl_text(a.last(), b.last(), l);
    }
}

/// The text of a block joined from two is the two texts joined.
proof fn lemma_block_text_concat(x: Seq<LuauStmt>, y: Seq<LuauStmt>, l: nat)
    ensures
        block_text(x + y, l) == block_text(x, l) + block_text(y, l),
    decreases y.len(),
{
    if y.len() == 0 {
        assert(x + y =~= x);
    } else {
        assert((x + y).drop_last() =~= x + y.drop_last());
        lemma_block_text_concat(x, y.drop_last(), l);
        assert((x + y).last() == y.last());
    }
}

/// Tracing keeps two alike statements alike.
proof fn lemma_traced_same(a: LuauStmt, a2: LuauStmt, b: LuauStmt, b2: LuauStmt)
    requires
        same_decl(a, b),
        traced_stmt(a, a2),
        traced_stmt(b, b2),
    ensures
        same_decl(a2, b2),
{
    match (a, b) {
        (LuauStmt::FunctionDecl(f), LuauStmt::FunctionDecl(g)) => {
            match (f.name, g.name) {
                (Some(n), Some(m)) => {
                    let fa = a2->FunctionDecl_0;
                    let gb = b2->FunctionDecl_0;
                    assert(fa.body@ =~= seq![fa.body@[0]] + f.body@ + seq![fa.body@.last()]);
                    assert(gb.body@ =~= seq![gb.body@[0]] + g.body@ + seq![gb.body@.last()]);
                    assert(fa.params@ == f.params@);
                    assert(gb.params@ == g.params@);
                    assert forall|l: nat| #[trigger] block_text(fa.body@, l) == block_text(gb.body@, l) by {
                        let ea = seq![fa.body@[0]];
                        let eb = seq![gb.body@[0]];
                        let xa = seq![fa.body@.last()];
                        let xb = seq![gb.body@.last()];
                        lemma_block_text_concat(ea + f.body@, xa, l);
                        lemma_block_text_concat(ea, f.body@, l);
                        lemma_block_text_concat(eb + g.body@, xb, l);
                        lemma_block_text_concat(eb, g.body@, l);
                        assert(ea.drop_last().len() == 0);
                        assert(eb.drop_last().len() == 0);
                        assert(xa.drop_last().len() == 0);
                        assert(xb.drop_last().len() == 0);
                        assert(block_text(ea.drop_last(), l) == Seq::<char>::empty());
                        assert(block_text(eb.drop_last(), l) == Seq::<char>::empty());
                        assert(block_text(xa.drop_last(), l) == Seq::<char>::empty());
                        assert(block_text(xb.drop_last(), l) == Seq::<char>::empty());
                        assert(stmt_text(ea.last(), l) == stmt_text(eb.last(), l));
                        assert(stmt_text(xa.last(), l) == stmt_text(xb.last(), l));
                        assert(block_text(f.body@, l) == block_text(g.body@, l));
                    }
                },
                _ => {},
            }
        },
        _ => {},
    }
}

/// Emitting keeps two alike translations alike.
proof fn lemma_emitted_same(debug: bool, s1: Seq<LuauStmt>, s2: Seq<LuauStmt>, t1: Seq<LuauStmt>, t2: Seq<LuauStmt>)
    requires
        same_decls(s1, t1),
        emitted(debug, s1, s2),
        emitted(debug, t1, t2),
    ensures
        same_decls(s2, t2),
{
    if debug {
        assert forall|i: int| 0 <= i < s2.len() implies same_decl(#[trigger] s2[i], t2[i]) by {
            assert(traced_stmt(s1[i], s2[i]));
            assert(traced_stmt(t1[i], t2[i]));
            lemma_traced_same(s1[i], s2[i], t1[i], t2[i]);
        }
    }
}

/// Compiling a source under given options has one outcome: any two results
/// that the contract of the compile functions admits read alike. So
/// `compile_default` gives what `compile` gives with the default options.
pub proof fn law_one_outcome(src: Seq<char>, options: CompileOptions, r1: Result<String, Error>, r2: Result<String, Error>)
    requires
        compile_result(src, options, r1),
        compile_result(src, options, r2),
    ensures
        r1 is Ok <==> r2 is Ok,
        r1 is Ok ==> r1->Ok_0@ == r2->Ok_0@,
        r1 matches Err(Error::Parse(p)) ==> r2 matches Err(Error::Parse(q)) && p@ == q@,
        r1 matches Err(Error::Transform(p)) ==> r2 matches Err(Error::Transform(q)) && p@ == q@,
{
    if rust_file(src) is Ok {
        let items1 = choose|items: Seq<RustItem>|
            #![trigger source_items(src, items), compile_outcome(src, items, options, r1)]
            source_items(src, items) && compile_outcome(src, items, options, r1);
        let items2 = choose|items: Seq<RustItem>|
            #![trigger source_items(src, items), compile_outcome(src, items, options, r2)]
            source_items(src, items) && compile_outcome(src, items, options, r2);
        lemma_read_items_alike(rust_file(src)->Ok_0, read_depth(), items1, items2);
        if items_error(items1) is None {
            let (s1, s2) = choose|s1: Seq<LuauStmt>, s2: Seq<LuauStmt>|
                #![trigger items_output_ok(items1, s1), emitted(options.debug_mode, s1, s2)]
                items_output_ok(items1, s1) && emitted(options.debug_mode, s1, s2) && r1->Ok_0@
                    == compiled_text(src, s2, options);
            let (t1, t2) = choose|s1: Seq<LuauStmt>, s2: Seq<LuauStmt>|
                #![trigger items_output_ok(items2, s1), emitted(options.debug_mode, s1, s2)]
                items_output_ok(items2, s1) && emitted(options.debug_mode, s1, s2) && r2->Ok_0@
                    == compiled_text(src, s2, options);
            assert(same_decls(s1, t1));
            lemma_emitted_same(options.debug_mode, s1, s2, t1, t2);
            lemma_same_block_text(s2, t2, 0);
            assert(compiled_text(src, s2, options) == compiled_text(src, t2, options));
        }
    }
}

/// Adds the debug traces to a named function's body.
fn trace_function(f: LuauFunction) -> (r: LuauStmt)
    ensures
        traced_stmt(LuauStmt::FunctionDecl(f), r),
{
    match f.name {
        Some(name) => {
            let mut body: Vec<LuauStmt> = Vec::new();
            body.push(LuauStmt::Raw(entry_trace(name.as_str())));
            let mut rest = f.body;
            let ghost inner = rest@;
            body.append(&mut rest);
            body.push(LuauStmt::Raw(exit_trace(name.as_str())));
            proof {
                assert(body@.subrange(1, body@.len() - 1) =~= inner);
            }
            LuauStmt::FunctionDecl(
                LuauFunction {
                    name: Some(name),
                    params: f.params,
                    body,
                    is_variadic: f.is_variadic,
                },
            )
        },
        None => LuauStmt::FunctionDecl(f),
    }
}

/// Adds debug traces to each named function among `stmts`.
pub fn trace_functions(stmts: Vec<LuauStmt>) -> (r: Vec<LuauStmt>)
    ensures
        traced(stmts@, r@),
{
    let ghost all = stmts@;
    let mut rest = stmts;
    let mut out: Vec<LuauStmt> = Vec::new();
    while rest.len() > 0
        invariant
            out@.len() + rest@.len() == all.len(),
            rest@ == all.skip(out@.len() as int),
            forall|i: int| 0 <= i < out@.len() ==> traced_stmt(#[trigger] all[i], out@[i]),
        decreases rest@.len(),
    {
        let s = rest.remove(0);
        let ghost k = out@.len() as int;
        assert(s == all[k]);
        let t = match s {
            LuauStmt::FunctionDecl(f) => trace_function(f),
            other => other,
        };
        out.push(t);
        proof {
            assert(rest@ =~= all.skip(out@.len() as int));
        }
    }
    out
}

/// Compile the items `items` of the Rust source `src` with the given
/// options.
pub fn compile_items(src: &str, items: &Vec<RustItem>, options: &CompileOptions) -> (r: Result<
    String,
    Error,
>)
    ensures
        compile_outcome(src@, items@, *options, r),
{
    let ast = match transform_items(items) {
        Ok(ast) => ast,
        Err(e) => {
            let m = e.message();
            proof {
                assert(m@ == kind_message(e.kind_and_text().0, e.kind_and_text().1));
            }
            return Err(Error::Transform(m));
        },
    };
    let ghost s1 = ast.statements@;
    let stmts = if options.debug_mode {
        trace_functions(ast.statements)
    } else {
        ast.statements
    };
    let ghost s2 = stmts@;
    let emitted_ast = LuauAst { statements: stmts };
    let code = match generate_code(&emitted_ast) {
        Ok(c) => c,
        Err(e) => {
            return Err(Error::CodeGen(e));
        },
    };
    let linked = if options.include_runtime {
        let mut l = generate_runtime_module();
        l.append("\n");
        l.append(code.as_str());
        l
    } else {
        code
    };
    let optimized = match optimize_code(linked.as_str(), options) {
        Ok(o) => o,
        Err(e) => {
            return Err(Error::Optimization(e));
        },
    };
    let out = if options.debug_mode {
        let mut d = String::from_str(DEBUG_PREFIX);
        d.append(optimized.as_str());
        let info = DebugInfo {
            source_map: generate_source_map(src, d.as_str()),
            type_info: Vec::new(),
            breakpoints: Vec::new(),
        };
        proof {
            assert(pair_views(info.type_info@) =~= Seq::empty());
            assert(info.breakpoints@ =~= Seq::<usize>::empty());
        }
        generate_debug_symbols(d.as_str(), &info)
    } else {
        optimized
    };
    proof {
        assert(items_output_ok(items@, s1) && emitted(options.debug_mode, s1, s2));
        assert(out@ == compiled_text(src@, s2, *options));
    }
    Ok(out)
}

/// Compile Rust code to Luau with the given options.
pub fn compile_with_options(input: &str, options: CompileOptions) -> (r: Result<String, Error>)
    ensures
        compile_result(input@, options, r),
{
    let items = match read_source(input) {
        Ok(v) => v,
        Err(e) => {
            let mut m = String::from_str(SYNTAX_ERROR_PREFIX);
            m.append(e.as_str());
            return Err(Error::Parse(m));
        },
    };
    compile_items(input, &items, &options)
}

/// Compile Rust code to Luau with the given options.
pub fn compile(input: &str, options: CompileOptions) -> (r: Result<String, Error>)
    ensures
        compile_result(input@, options, r),
{
    compile_with_options(input, options)
}

/// Compile Rust code to Luau with default options.
pub fn compile_default(input: &str) -> (r: Result<String, Error>)
    ensures
        compile_result(input@, default_compile_options(), r),
{
    compile(input, CompileOptions::default())
}

} // verus!
