//! The debug header the source-map debugger prepends to generated code,
//! and the tracing hook for functions.

use vstd::prelude::*;
use crate::ast::luau::Function;
use crate::runtime::diagnostics::{entries_text, pair_views};

verus! {

/// Debug information gathered by the debugger: the source map and the types
/// of variables, each by name in the order the names were first added.
#[derive(Debug)]
pub struct DebugInfo {
    pub source_map: Vec<(String, String)>,
    pub variable_types: Vec<(String, String)>,
}

/// The header's opening, up to the source map's entries.
pub const SYMBOLS_HEAD: &'static str = "// Generated with debug information by Roblox-RS\n\n// Source Mapping\nlocal RobloxRSDebug = {}\nRobloxRSDebug.sourceMap = {\n";

/// The text between the source map's entries and the variable types'.
pub const SYMBOLS_MID: &'static str = "}\n\n-- Variable Type Information\nRobloxRSDebug.variableTypes = {\n";

/// The rest of the header: the helper functions and breakpoint support.
pub const SYMBOLS_TAIL: &'static str = "}\n\n-- Debug Helper Functions\nfunction RobloxRSDebug.getSourceMapping(luaLine)\n    return RobloxRSDebug.sourceMap[luaLine]\nend\n\nfunction RobloxRSDebug.getVariableType(varName)\n    return RobloxRSDebug.variableTypes[varName]\nend\n\n-- Breakpoint Support\nRobloxRSDebug.breakpoints = {}\n\nfunction RobloxRSDebug.setBreakpoint(line)\n    RobloxRSDebug.breakpoints[tostring(line)] = true\nend\n\nfunction RobloxRSDebug.removeBreakpoint(line)\n    RobloxRSDebug.breakpoints[tostring(line)] = nil\nend\n\nfunction RobloxRSDebug.checkBreakpoint(line)\n    if RobloxRSDebug.breakpoints[tostring(line)] then\n        print(\"Breakpoint hit at line: \" .. line)\n        print(\"Source: \" .. (RobloxRSDebug.getSourceMapping(\"lua:\" .. line) or \"unknown\"))\n            -- Here we would implement breakpoint behavior\n        end\n    end\n})\n\n";

/// The debug header for `info`, followed by the code.
pub open spec fn debug_symbols_text(info: DebugInfo, code: Seq<char>) -> Seq<char> {
    SYMBOLS_HEAD@ + entries_text(pair_views(info.source_map@)) + SYMBOLS_MID@ + entries_text(
        pair_views(info.variable_types@),
    ) + SYMBOLS_TAIL@ + code
}

/// Prepend the debug header for `debug_info` to `luau_output`: the source
/// map and the variable types as Luau tables, with helper functions to read
/// them and to set breakpoints.
pub fn generate_debug_symbols(luau_output: &str, debug_info: &DebugInfo) -> (r: String)
    ensures
        r@ == debug_symbols_text(*debug_info, luau_output@),
{
    let mut out = String::from_str(SYMBOLS_HEAD);
    crate::runtime::diagnostics::push_entries(&mut out, &debug_info.source_map);
    out.append(SYMBOLS_MID);
    crate::runtime::diagnostics::push_entries(&mut out, &debug_info.variable_types);
    out.append(SYMBOLS_TAIL);
    out.append(luau_output);
    out
}

/// The call that traces an entry into the function `name`.
pub open spec fn trace_call_text(name: Seq<char>) -> Seq<char> {
    "RobloxRS.Debug.traceCall(\""@ + name + "\", { ... })"@
}

/// The call that traces an entry into the function `name`.
pub fn trace_call(name: &str) -> (r: String)
    ensures
        r@ == trace_call_text(name@),
{
    let mut r = String::from_str("RobloxRS.Debug.traceCall(\"");
    r.append(name);
    r.append("\", { ... })");
    r
}

/// Prepare the trace call for a function's entry. The call is not put into
/// the function's body yet: the function is left as it is.
pub fn inject_debug_tracers(function: &mut Function)
    ensures
        *final(function) == *old(function),
{
    let _call = trace_call(function.name.as_str());
}

} // verus!
