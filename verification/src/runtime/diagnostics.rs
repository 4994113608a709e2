//! Debug symbols, diagnostics and profiling wrappers for generated code.

use vstd::prelude::*;
use crate::text::{decimal, lines_of, split_lines, usize_to_string, views};
use crate::text::paths::occurs_in;

verus! {

/// Debug information for runtime diagnostics. Each list keeps its entries
/// in the order they were added.
pub struct DebugInfo {
    pub source_map: Vec<(String, String)>,
    pub type_info: Vec<(String, String)>,
    pub breakpoints: Vec<usize>,
}

/// The line `    ["key"] = "value",` of a debug-symbol table.
pub open spec fn entry_line(key: Seq<char>, value: Seq<char>) -> Seq<char> {
    "    [\""@ + key + "\"] = \""@ + value + "\",\n"@
}

/// The lines of the entries of a debug-symbol table, in order.
pub open spec fn entries_text(entries: Seq<(Seq<char>, Seq<char>)>) -> Seq<char>
    decreases entries.len(),
{
    if entries.len() == 0 {
        Seq::empty()
    } else {
        entries_text(entries.drop_last()) + entry_line(entries.last().0, entries.last().1)
    }
}

/// The lines of the breakpoints of the debug symbols, in order.
pub open spec fn breakpoints_text(lines: Seq<usize>) -> Seq<char>
    decreases lines.len(),
{
    if lines.len() == 0 {
        Seq::empty()
    } else {
        breakpoints_text(lines.drop_last()) + "    "@ + decimal(lines.last() as nat) + ",\n"@
    }
}

/// The debug-symbol comment block for a source map, type information and
/// breakpoints.
pub open spec fn symbols_text(
    source_map: Seq<(Seq<char>, Seq<char>)>,
    type_info: Seq<(Seq<char>, Seq<char>)>,
    breakpoints: Seq<usize>,
) -> Seq<char> {
    "--[[DEBUG_SYMBOLS\n"@ + "  source_map = {\n"@ + entries_text(source_map) + "  },\n"@
        + "  type_info = {\n"@ + entries_text(type_info) + "  },\n"@ + "  breakpoints = {\n"@
        + breakpoints_text(breakpoints) + "  },\n"@ + "]]--\n\n"@
}

/// The debug-symbol comment block for `info`.
pub open spec fn debug_symbols_text(info: DebugInfo) -> Seq<char> {
    symbols_text(pair_views(info.source_map@), pair_views(info.type_info@), info.breakpoints@)
}

pub(crate) fn push_entries(out: &mut String, entries: &Vec<(String, String)>)
    ensures
        final(out)@ == old(out)@ + entries_text(pair_views(entries@)),
{
    let ghost start = out@;
    let mut i: usize = 0;
    while i < entries.len()
        invariant
            i <= entries.len(),
            out@ == start + entries_text(pair_views(entries@.take(i as int))),
        decreases entries.len() - i,
    {
        proof {
            assert(pair_views(entries@.take(i + 1)).drop_last() =~= pair_views(entries@.take(i as int)));
        }
        out.append("    [\"");
        out.append(entries[i].0.as_str());
        out.append("\"] = \"");
        out.append(entries[i].1.as_str());
        out.append("\",\n");
        i = i + 1;
        proof {
            assert(out@ =~= start + entries_text(pair_views(entries@.take(i as int))));
        }
    }
    proof {
        assert(entries@.take(entries.len() as int) =~= entries@);
    }
}

/// Generate debug symbols to inject into Luau code: a comment block with the
/// source map, the type information and the breakpoints, then the code.
pub fn generate_debug_symbols(code: &str, debug_info: &DebugInfo) -> (r: String)
    ensures
        r@ == debug_symbols_text(*debug_info) + code@,
{
    let mut s = String::from_str("--[[DEBUG_SYMBOLS\n");
    s.append("  source_map = {\n");
    push_entries(&mut s, &debug_info.source_map);
    s.append("  },\n");
    s.append("  type_info = {\n");
    push_entries(&mut s, &debug_info.type_info);
    s.append("  },\n");
    s.append("  breakpoints = {\n");
    let ghost start = s@;
    let bps = &debug_info.breakpoints;
    let mut i: usize = 0;
    while i < bps.len()
        invariant
            i <= bps.len(),
            s@ == start + breakpoints_text(bps@.take(i as int)),
        decreases bps.len() - i,
    {
        proof {
            assert(bps@.take(i + 1).drop_last() =~= bps@.take(i as int));
        }
        s.append("    ");
        s.append(usize_to_string(bps[i]).as_str());
        s.append(",\n");
        i = i + 1;
        proof {
            assert(s@ =~= start + breakpoints_text(bps@.take(i as int)));
        }
    }
    proof {
        assert(bps@.take(bps.len() as int) =~= bps@);
    }
    s.append("  },\n");
    s.append("]]--\n\n");
    s.append(code);
    s
}

/// The Luau that switches debug tracing on.
pub const DEBUG_INIT_SRC: &'static str = r#"
-- Initialize debug tracing
if RobloxRS and RobloxRS.Debug then
    RobloxRS.Debug.enabled = true
    print("Debug tracing initialized")
end
"#;

/// Inject debug statements into the Luau code: the initialization of debug
/// tracing, a line break, then the code.
pub fn inject_debug_statements(code: &str) -> (r: String)
    ensures
        r@ == DEBUG_INIT_SRC@ + "\n"@ + code@,
{
    let mut s = String::from_str(DEBUG_INIT_SRC);
    s.append("\n");
    s.append(code);
    s
}

/// Diagnostic severity levels
pub enum DiagnosticLevel {
    Error,
    Warning,
    Info,
}

/// The name of a severity level in a diagnostic.
pub open spec fn level_name(level: DiagnosticLevel) -> Seq<char> {
    match level {
        DiagnosticLevel::Error => "ERROR"@,
        DiagnosticLevel::Warning => "WARNING"@,
        DiagnosticLevel::Info => "INFO"@,
    }
}

/// The location part of a diagnostic: line and column, the line alone, or
/// nothing when the line is unknown.
pub open spec fn location_text(line: Option<usize>, column: Option<usize>) -> Seq<char> {
    match (line, column) {
        (Some(l), Some(c)) => " at line "@ + decimal(l as nat) + ", column "@ + decimal(c as nat),
        (Some(l), None) => " at line "@ + decimal(l as nat),
        (None, _) => Seq::empty(),
    }
}

/// Handle compiler diagnostics for reporting errors and warnings:
/// `LEVEL[ at line L[, column C]]: message`.
pub fn generate_diagnostic(
    level: DiagnosticLevel,
    message: &str,
    line: Option<usize>,
    column: Option<usize>,
) -> (r: String)
    ensures
        r@ == level_name(level) + location_text(line, column) + ": "@ + message@,
{
    let mut s = match level {
        DiagnosticLevel::Error => String::from_str("ERROR"),
        DiagnosticLevel::Warning => String::from_str("WARNING"),
        DiagnosticLevel::Info => String::from_str("INFO"),
    };
    match (line, column) {
        (Some(l), Some(c)) => {
            s.append(" at line ");
            s.append(usize_to_string(l).as_str());
            s.append(", column ");
            s.append(usize_to_string(c).as_str());
        },
        (Some(l), None) => {
            s.append(" at line ");
            s.append(usize_to_string(l).as_str());
        },
        (None, _) => {},
    }
    s.append(": ");
    s.append(message);
    s
}

/// The profiling wrapper of the function `name` whose definition tail is
/// `code`.
pub open spec fn profiling_wrapper_text(name: Seq<char>, code: Seq<char>) -> Seq<char> {
    "\nlocal function "@ + name + "_original"@ + code + "\n\nlocal function "@ + name
        + "(...)\n    local end_profile = RobloxRS.Profiler.start(\""@ + name
        + "\")\n    local result = {pcall("@ + name
        + "_original, ...)}\n    end_profile()\n    \n    if not result[1] then\n        error(result[2], 2)\n    end\n    \n    return unpack(result, 2)\nend\n\n"@
        + name + "_original = "@ + name + "\n"@
}

/// Generate profiling code for a function
pub fn generate_profiling_wrapper(function_name: &str, code: &str) -> (r: String)
    ensures
        r@ == profiling_wrapper_text(function_name@, code@),
{
    let mut s = String::from_str("\nlocal function ");
    s.append(function_name);
    s.append("_original");
    s.append(code);
    s.append("\n\nlocal function ");
    s.append(function_name);
    s.append("(...)\n    local end_profile = RobloxRS.Profiler.start(\"");
    s.append(function_name);
    s.append("\")\n    local result = {pcall(");
    s.append(function_name);
    s.append(
        "_original, ...)}\n    end_profile()\n    \n    if not result[1] then\n        error(result[2], 2)\n    end\n    \n    return unpack(result, 2)\nend\n\n",
    );
    s.append(function_name);
    s.append("_original = ");
    s.append(function_name);
    s.append("\n");
    s
}

/// `part` occurs in any text that has it between two others.
proof fn lemma_part_between(pre: Seq<char>, part: Seq<char>, post: Seq<char>)
    ensures
        occurs_in(part, pre + part + post),
{
    let whole = pre + part + post;
    let i = pre.len() as int;
    assert(whole.subrange(i, i + part.len()) =~= part);
}

/// The profiling wrapper keeps the original definition under the name
/// `<name>_original`, defines `<name>(...)` in its place, which starts the
/// profiler under the function's name and calls the original through
/// `pcall`, and ends by assigning `<name>` to `<name>_original`.
pub proof fn law_profiling_wrapper_parts(name: Seq<char>, code: Seq<char>)
    ensures
        occurs_in("local function "@ + name + "_original"@ + code + "\n"@, profiling_wrapper_text(name, code)),
        occurs_in("local function "@ + name + "(...)"@, profiling_wrapper_text(name, code)),
        occurs_in("RobloxRS.Profiler.start(\""@ + name + "\")"@, profiling_wrapper_text(name, code)),
        occurs_in("pcall("@, profiling_wrapper_text(name, code)),
        ({
            let w = profiling_wrapper_text(name, code);
            let tail = name + "_original = "@ + name + "\n"@;
            tail.len() <= w.len() && w.skip(w.len() - tail.len()) == tail
        }),
{
    let p1 = "\n"@;
    let p2 = "local function "@;
    let p3 = "_original"@;
    let p7 = "(...)"@;
    let p8 = "\n    local end_profile = "@;
    let p9 = "RobloxRS.Profiler.start(\""@;
    let p10 = "\")"@;
    let p11 = "\n    local result = {"@;
    let p12 = "pcall("@;
    let p13 = "_original, ...)}\n    end_profile()\n    \n    if not result[1] then\n        error(result[2], 2)\n    end\n    \n    return unpack(result, 2)\nend\n\n"@;
    let p14 = "_original = "@;
    reveal_strlit("\n");
    reveal_strlit("local function ");
    reveal_strlit("\nlocal function ");
    reveal_strlit("\n\nlocal function ");
    reveal_strlit("(...)");
    reveal_strlit("\n    local end_profile = ");
    reveal_strlit("RobloxRS.Profiler.start(\"");
    reveal_strlit("(...)\n    local end_profile = RobloxRS.Profiler.start(\"");
    reveal_strlit("\")");
    reveal_strlit("\n    local result = {");
    reveal_strlit("pcall(");
    reveal_strlit("\")\n    local result = {pcall(");
    assert("\nlocal function "@ =~= p1 + p2);
    assert("\n\nlocal function "@ =~= p1 + p1 + p2);
    assert("(...)\n    local end_profile = RobloxRS.Profiler.start(\""@ =~= p7 + p8 + p9);
    assert("\")\n    local result = {pcall("@ =~= p10 + p11 + p12);
    let w = profiling_wrapper_text(name, code);
    let head = p1;
    let part1 = p2 + name + p3 + code + p1;
    let mid1 = p1;
    let part2 = p2 + name + p7;
    let mid2 = p8;
    let part3 = p9 + name + p10;
    let mid3 = p11;
    let part4 = p12;
    let tail = name + p14 + name + p1;
    let rest = name + p13;
    assert(w =~= head + part1 + mid1 + part2 + mid2 + part3 + mid3 + part4 + rest + tail);
    lemma_part_between(head, part1, mid1 + part2 + mid2 + part3 + mid3 + part4 + rest + tail);
    assert(w =~= head + part1 + (mid1 + part2 + mid2 + part3 + mid3 + part4 + rest + tail));
    lemma_part_between(head + part1 + mid1, part2, mid2 + part3 + mid3 + part4 + rest + tail);
    assert(w =~= (head + part1 + mid1) + part2 + (mid2 + part3 + mid3 + part4 + rest + tail));
    lemma_part_between(head + part1 + mid1 + part2 + mid2, part3, mid3 + part4 + rest + tail);
    assert(w =~= (head + part1 + mid1 + part2 + mid2) + part3 + (mid3 + part4 + rest + tail));
    lemma_part_between(head + part1 + mid1 + part2 + mid2 + part3 + mid3, part4, rest + tail);
    assert(w =~= (head + part1 + mid1 + part2 + mid2 + part3 + mid3) + part4 + (rest + tail));
    let front = head + part1 + mid1 + part2 + mid2 + part3 + mid3 + part4 + rest;
    assert(w =~= front + tail);
    assert(w.skip(w.len() - tail.len()) =~= tail);
}

/// The source map between the lines of the Rust source and of the Luau
/// output: line `i` of the output maps to line `i` of the source, for as
/// many lines as both have.
pub open spec fn source_map_entries(rust: Seq<Seq<char>>, luau: Seq<Seq<char>>) -> Seq<(Seq<char>, Seq<char>)> {
    Seq::new(
        if luau.len() < rust.len() { luau.len() } else { rust.len() },
        |i: int| ("lua:"@ + decimal((i + 1) as nat), "rust:"@ + decimal((i + 1) as nat) + " - "@ + rust[i]),
    )
}

/// The views of a list of string pairs.
pub open spec fn pair_views(v: Seq<(String, String)>) -> Seq<(Seq<char>, Seq<char>)> {
    Seq::new(v.len(), |i: int| (v[i].0@, v[i].1@))
}

/// Generate a source map: `lua:<n>` to `rust:<n> - <source line n>` for
/// each line number `n` that both texts have.
pub fn generate_source_map(rust_source: &str, luau_output: &str) -> (r: Vec<(String, String)>)
    ensures
        pair_views(r@) == source_map_entries(lines_of(rust_source@), lines_of(luau_output@)),
{
    let rust_lines = split_lines(rust_source);
    let luau_lines = split_lines(luau_output);
    let n = if luau_lines.len() < rust_lines.len() {
        luau_lines.len()
    } else {
        rust_lines.len()
    };
    let ghost want = source_map_entries(lines_of(rust_source@), lines_of(luau_output@));
    let mut out: Vec<(String, String)> = Vec::new();
    let mut i: usize = 0;
    proof {
        assert(views(rust_lines@).len() == rust_lines@.len());
        assert(views(luau_lines@).len() == luau_lines@.len());
        assert(pair_views(out@) =~= want.take(0));
    }
    while i < n
        invariant
            i <= n,
            out@.len() == i,
            n == want.len(),
            n <= rust_lines@.len(),
            views(rust_lines@) == lines_of(rust_source@),
            views(luau_lines@) == lines_of(luau_output@),
            want == source_map_entries(lines_of(rust_source@), lines_of(luau_output@)),
            pair_views(out@) == want.take(i as int),
        decreases n - i,
    {
        let number = usize_to_string(i + 1);
        let mut key = String::from_str("lua:");
        key.append(number.as_str());
        let mut value = String::from_str("rust:");
        value.append(number.as_str());
        value.append(" - ");
        value.append(rust_lines[i].as_str());
        let ghost old_out = out@;
        out.push((key, value));
        i = i + 1;
        proof {
            assert(views(rust_lines@)[i - 1] == rust_lines@[i - 1]@);
            assert(want[i - 1] == ("lua:"@ + decimal(i as nat), "rust:"@ + decimal(i as nat) + " - "@
                + lines_of(rust_source@)[i - 1]));
            assert forall|k: int| 0 <= k < i implies #[trigger] pair_views(out@)[k] == want.take(
                i as int,
            )[k] by {
                if k < i - 1 {
                    assert(out@[k] == old_out[k]);
                    assert(pair_views(old_out)[k] == want.take(i - 1)[k]);
                }
            }
            assert(pair_views(out@) =~= want.take(i as int));
        }
    }
    proof {
        assert(want.take(n as int) =~= want);
    }
    out
}

/// Test the diagnostics module: a sample function with debug symbols and
/// debug tracing added.
pub fn test_diagnostics() -> (r: String)
    ensures
        r@ == DEBUG_INIT_SRC@ + "\n"@ + "--[[DEBUG_SYMBOLS\n"@ + "  source_map = {\n"@ + entry_line(
            "test.rs:5"@,
            "test.lua:2"@,
        ) + "  },\n"@ + "  type_info = {\n"@ + entry_line("test"@, "fn() -> ()"@) + "  },\n"@
            + "  breakpoints = {\n"@ + "    "@ + decimal(3) + ",\n"@ + "  },\n"@ + "]]--\n\n"@
            + SAMPLE_CODE_SRC@,
{
    let mut source_map: Vec<(String, String)> = Vec::new();
    source_map.push((String::from_str("test.rs:5"), String::from_str("test.lua:2")));
    let mut type_info: Vec<(String, String)> = Vec::new();
    type_info.push((String::from_str("test"), String::from_str("fn() -> ()")));
    let mut breakpoints: Vec<usize> = Vec::new();
    breakpoints.push(3);
    let debug_info = DebugInfo { source_map, type_info, breakpoints };
    proof {
        assert(debug_info.source_map@.drop_last() =~= Seq::<(String, String)>::empty());
        assert(debug_info.type_info@.drop_last() =~= Seq::<(String, String)>::empty());
        assert(debug_info.breakpoints@.drop_last() =~= Seq::<usize>::empty());
        assert(pair_views(debug_info.source_map@).drop_last() =~= Seq::<(Seq<char>, Seq<char>)>::empty());
        assert(pair_views(debug_info.type_info@).drop_last() =~= Seq::<(Seq<char>, Seq<char>)>::empty());
        assert(entries_text(pair_views(debug_info.source_map@).drop_last()) == Seq::<char>::empty());
        assert(entries_text(pair_views(debug_info.type_info@).drop_last()) == Seq::<char>::empty());
        assert(breakpoints_text(debug_info.breakpoints@.drop_last()) == Seq::<char>::empty());
        assert(entries_text(pair_views(debug_info.source_map@)) =~= entry_line("test.rs:5"@, "test.lua:2"@));
        assert(entries_text(pair_views(debug_info.type_info@)) =~= entry_line("test"@, "fn() -> ()"@));
        assert(breakpoints_text(debug_info.breakpoints@) =~= "    "@ + decimal(3) + ",\n"@);
    }
    let with_debug_symbols = generate_debug_symbols(SAMPLE_CODE_SRC, &debug_info);
    inject_debug_statements(with_debug_symbols.as_str())
}

/// The sample function of `test_diagnostics`.
pub const SAMPLE_CODE_SRC: &'static str = r#"
local function test()
    print("Hello, world!")
end

test()
"#;

} // verus!
