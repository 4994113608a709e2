//! The Luau text the debugger wraps around a function's body.

use vstd::prelude::*;

verus! {

/// The debug header's text before the function's name.
pub const HEADER_START: &'static str = "\n                    -- Debug information for function: ";

/// The debug header's text after the function's name: it makes sure the
/// debug tables exist.
pub const HEADER_END: &'static str = "\n                    if not RobloxRS then RobloxRS = { Debug = { } } end\n                    if not RobloxRS.Debug.line_info then\n                        RobloxRS.Debug.line_info = {}\n                        RobloxRS.Debug.variable_info = {}\n                        RobloxRS.Debug.source_map = {}\n                        RobloxRS.Debug.heap_tracker = {}\n                    end\n                ";

/// The entry trace's text before the function's name.
pub const ENTRY_START: &'static str = "\n                    RobloxRS.Debug.line_info['";

/// The entry trace's text after the function's name: the function's record
/// of variables, types, heap objects and call time.
pub const ENTRY_END: &'static str = "'] = {\n                        variables = {},\n                        types = {},\n                        heap_objects = {},\n                        call_time = os.clock()\n                    }\n                ";

/// The exit trace's text before the function's name.
pub const EXIT_START: &'static str = "\n                    local __exit_time = os.clock()\n                    RobloxRS.Debug.line_info['";

/// The exit trace's text between the two mentions of the function's name.
pub const EXIT_MID: &'static str = "'].execution_time = __exit_time - RobloxRS.Debug.line_info['";

/// The exit trace's text after the function's name.
pub const EXIT_END: &'static str = "'].call_time\n                ";

/// The type-tracking line's text before the function's name.
pub const TYPE_START: &'static str = "\n                        RobloxRS.Debug.line_info['";

/// The type-tracking line's text between the function's and the
/// parameter's names.
pub const TYPE_MID: &'static str = "'].types['";

/// The type-tracking line's text between the parameter's name and its type.
pub const TYPE_EQ: &'static str = "'] = '";

/// The text the debugger puts before the body of function `name`: the debug
/// header, then the entry trace.
pub open spec fn entry_text(name: Seq<char>) -> Seq<char> {
    HEADER_START@ + name + HEADER_END@ + ENTRY_START@ + name + ENTRY_END@
}

/// The text the debugger puts after the body of function `name`: it
/// records the time the call took.
pub open spec fn exit_text(name: Seq<char>) -> Seq<char> {
    EXIT_START@ + name + EXIT_MID@ + name + EXIT_END@
}

/// The line that records the type of parameter `param` of function `name`.
pub open spec fn type_line(name: Seq<char>, param: Seq<char>, ty: Seq<char>) -> Seq<char> {
    TYPE_START@ + name + TYPE_MID@ + param + TYPE_EQ@ + ty + "'"@
}

/// The entry text of function `name`.
pub fn entry_trace(name: &str) -> (r: String)
    ensures
        r@ == entry_text(name@),
{
    let mut r = String::from_str(HEADER_START);
    r.append(name);
    r.append(HEADER_END);
    r.append(ENTRY_START);
    r.append(name);
    r.append(ENTRY_END);
    r
}

/// The exit text of function `name`.
pub fn exit_trace(name: &str) -> (r: String)
    ensures
        r@ == exit_text(name@),
{
    let mut r = String::from_str(EXIT_START);
    r.append(name);
    r.append(EXIT_MID);
    r.append(name);
    r.append(EXIT_END);
    r
}

/// Appends the line that records the type of a parameter.
pub fn push_type_line(out: &mut String, name: &str, param: &str, ty: &str)
    ensures
        final(out)@ == old(out)@ + type_line(name@, param@, ty@),
{
    out.append(TYPE_START);
    out.append(name);
    out.append(TYPE_MID);
    out.append(param);
    out.append(TYPE_EQ);
    out.append(ty);
    out.append("'");
}

} // verus!
