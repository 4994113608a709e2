//! Writing Luau source for a node tree of `ast::luau`, under the hints the
//! analysis gives: inlining, object pools, parallel blocks, vectorized
//! operations and cached values.

use vstd::prelude::*;
use crate::analysis::OptimizationHint;
use crate::analysis::analyzer::{CodeAnalyzer, hint_views, nodes_hints};
use crate::ast::luau::Program;
use crate::memory::{default_memory_settings, default_pool_config};
use crate::memory::manager::{MemoryManager, memory_code_text};
use crate::memory::pool::{ObjectPool, POOL_CODE_SRC};
use crate::runtime::optimized::{RuntimeOptimizer, SIMD_HELPERS_SRC, sections_text};
use crate::ast::luau::{
    BinaryOp, BufferOptimizationLevel, Function, LuauNode, LuauValue, Parameter, Table, TypeAnnotation,
    annotation_text,
};

use crate::keyed::str_eq;
use crate::luau::generator::deeper;
use crate::text::{decimal, decimal_int, i64_to_string, join, join_strings, usize_to_string, views};
use crate::text::number::{is_usize_text, parse_usize};

verus! {

/// How much the generated code is optimized; `Unoptimized` and `Basic`
/// keep the debugging aids in it.
#[derive(Debug, Clone, Copy)]
pub enum OptimizationLevel {
    Unoptimized,
    Basic,
    Advanced,
    Extreme,
}

/// What the generated code depends on besides the node: the level, the
/// analysis' hints, and whether tables are pre-allocated.
pub struct GenConfig {
    pub optimization_level: OptimizationLevel,
    pub hints: Vec<OptimizationHint>,
    pub pre_allocate_tables: bool,
}

/// Writes Luau source for nodes, appending to its output.
pub struct LuauCodeGenerator {
    pub config: GenConfig,
    pub indent_level: usize,
    pub output: String,
    /// Gives the runtime helpers for optimized operations
    pub runtime_optimizer: RuntimeOptimizer,
    /// Gives the memory management code
    pub memory_manager: MemoryManager,
}

/// The code a program is written with: the directives of the level, the
/// runtime helpers, and the code of each node of the body on its own line.
pub struct GeneratedCode {
    pub code: String,
    pub optimization_info: OptimizationInfo,
}

/// The names of the hints a program was written under, by kind.
pub struct OptimizationInfo {
    pub inlined_functions: Vec<String>,
    pub parallelized_loops: Vec<String>,
    pub vectorized_ops: Vec<String>,
}

/// The helper that runs a function over an array's items in threads.
pub const PARALLEL_HELPER: &'static str = "\n                            local function parallel_for(array, fn)\n                                local threads = {}\n                                local size = #array\n                                local chunk_size = math.ceil(size / 4) -- Use 4 threads\n                                \n                                for i = 1, size, chunk_size do\n                                    local thread = coroutine.create(function()\n                                        local end_idx = math.min(i + chunk_size - 1, size)\n                                        for j = i, end_idx do\n                                            fn(array[j], j)\n                                        end\n                                    end)\n                                    table.insert(threads, thread)\n                                end\n                                \n                                for _, thread in ipairs(threads) do\n                                    coroutine.resume(thread)\n                                end\n                            end\n                        \n";

/// The helper that combines two arrays item by item.
pub const VECTOR_HELPER: &'static str = "\n                            local function vector_op(a, b, op)\n                                local result = table.create(#a)\n                                for i = 1, #a do\n                                    result[i] = op(a[i], b[i])\n                                end\n                                return result\n                            end\n                        \n";

/// The helper that keeps objects for reuse.
pub const POOL_HELPER: &'static str = "\n                            local ObjectPool = {}\n                            \n                            function ObjectPool.new(factory, initial_size)\n                                local pool = {\n                                    objects = table.create(initial_size),\n                                    factory = factory,\n                                    size = 0\n                                }\n                                \n                                for i = 1, initial_size do\n                                    pool.objects[i] = factory()\n                                    pool.size = pool.size + 1\n                                end\n                                \n                                return pool\n                            end\n                            \n                            function ObjectPool:acquire()\n                                if self.size > 0 then\n                                    self.size = self.size - 1\n                                    return self.objects[self.size + 1]\n                                end\n                                return self.factory()\n                            end\n                            \n                            function ObjectPool:release(obj)\n                                self.size = self.size + 1\n                                self.objects[self.size] = obj\n                            end\n                        \n";

/// The code that checks for a breakpoint before a node runs.
pub const DEBUG_POINT: &'static str = "\n            if RobloxRS and RobloxRS.Debug then\n                local locals = {}\n                -- Capture local variables in scope\n                local function capture_locals()\n                    local variables = {}\n                    local i = 1\n                    while true do\n                        local name, value = debug.getlocal(2, i)\n                        if not name then break end\n                        variables[name] = value\n                        i = i + 1\n                    end\n                    return variables\n                end\n                locals = capture_locals()\n                RobloxRS.Debug.check_breakpoint(debug.getinfo(1).currentline, locals)\n            end\n        \n";

/// Whether the level keeps the debugging aids.
pub open spec fn debug_level(c: GenConfig) -> bool {
    match c.optimization_level {
        OptimizationLevel::Unoptimized => true,
        OptimizationLevel::Basic => true,
        _ => false,
    }
}

/// Whether a hint asks to inline the function `name`.
pub open spec fn inline_hint(hints: Seq<OptimizationHint>, name: Seq<char>) -> bool {
    exists|i: int| 0 <= i < hints.len() && (#[trigger] hints[i] matches OptimizationHint::InlineFunction(n) && n@ == name)
}

/// Whether a hint asks for object pools.
pub open spec fn pool_hint(hints: Seq<OptimizationHint>) -> bool {
    exists|i: int| 0 <= i < hints.len() && #[trigger] hints[i] is UseObjectPool
}

/// Whether a hint asks for parallel loops.
pub open spec fn parallel_hint(hints: Seq<OptimizationHint>) -> bool {
    exists|i: int| 0 <= i < hints.len() && #[trigger] hints[i] is ParallelizeLoop
}

/// Whether a hint asks for vectorized operations.
pub open spec fn vectorize_hint(hints: Seq<OptimizationHint>) -> bool {
    exists|i: int| 0 <= i < hints.len() && #[trigger] hints[i] is VectorizeOperation
}

/// The names of the values to cache, each once, in the order of their
/// first hint.
pub open spec fn cache_names(hints: Seq<OptimizationHint>) -> Seq<Seq<char>>
    decreases hints.len(),
{
    if hints.len() == 0 {
        Seq::empty()
    } else {
        let prev = cache_names(hints.drop_last());
        match hints.last() {
            OptimizationHint::CacheValue(n) => if prev.contains(n@) {
                prev
            } else {
                prev.push(n@)
            },
            _ => prev,
        }
    }
}

/// The lines that cache the values `names` in locals.
pub open spec fn cache_lines(names: Seq<Seq<char>>) -> Seq<char>
    decreases names.len(),
{
    if names.len() == 0 {
        Seq::empty()
    } else {
        cache_lines(names.drop_last()) + "    local _"@ + names.last() + "_cache = "@ + names.last()
            + "\n"@
    }
}

/// The size that allocation tracking reports for a table of `n` fields:
/// eight bytes a field, held at the largest machine integer.
pub open spec fn tracked_size(n: nat) -> nat {
    if n * 8 <= usize::MAX {
        n * 8
    } else {
        usize::MAX as nat
    }
}

/// The indentation of level `level`.
pub open spec fn indent_text(level: nat) -> Seq<char>
    decreases level,
{
    if level == 0 {
        Seq::empty()
    } else {
        indent_text((level - 1) as nat) + "    "@
    }
}

/// The Luau spelling of a binary operator.
pub open spec fn op_text(op: BinaryOp) -> Seq<char> {
    match op {
        BinaryOp::Add => "+"@,
        BinaryOp::Sub => "-"@,
        BinaryOp::Mul => "*"@,
        BinaryOp::Div => "/"@,
        BinaryOp::Mod => "%"@,
        BinaryOp::Eq => "=="@,
        BinaryOp::Ne => "~="@,
        BinaryOp::Lt => "<"@,
        BinaryOp::Le => "<="@,
        BinaryOp::Gt => ">"@,
        BinaryOp::Ge => ">="@,
        BinaryOp::And => "and"@,
        BinaryOp::Or => "or"@,
    }
}

/// The text of a literal value.
pub open spec fn value_text(v: LuauValue) -> Seq<char> {
    match v {
        LuauValue::Nil => "nil"@,
        LuauValue::Bool(b) => if b {
            "true"@
        } else {
            "false"@
        },
        LuauValue::Number(n) => decimal_int(n as int),
        LuauValue::String(s) => "\""@ + s@ + "\""@,
    }
}

/// The text of a node, as `generate_node` writes it at indentation `ind`:
/// in debug levels a table's allocation is tracked first; with a pool hint
/// a table is taken from the object pool, field by field; any other node is
/// written by `regular_text`.
pub open spec fn node_text(c: GenConfig, ind: nat, n: LuauNode) -> Seq<char>
    decreases n, 2nat,
{
    match n {
        LuauNode::Table(t) => (if debug_level(c) {
            "MemoryManager:trackAllocation("@ + decimal(tracked_size(t.fields@.len())) + ")\n"@
        } else {
            Seq::empty()
        }) + if pool_hint(c.hints@) {
            "local obj = ObjectPool:acquire('table', "@ + decimal(t.fields@.len()) + ")\n"@
                + pooled_fields_text(c, ind, t.fields@)
        } else {
            regular_text(c, ind, n)
        },
        _ => regular_text(c, ind, n),
    }
}

/// The assignments that fill a pooled table's fields.
pub open spec fn pooled_fields_text(c: GenConfig, ind: nat, fields: Seq<(String, LuauNode)>) -> Seq<char>
    decreases fields, 0nat,
{
    if fields.len() == 0 {
        Seq::empty()
    } else {
        pooled_fields_text(c, ind, fields.drop_last()) + "obj[\""@ + fields.last().0@ + "\"] = "@
            + node_text(c, ind, fields.last().1) + "\n"@
    }
}

/// The texts of nodes one after the other.
pub open spec fn nodes_text(c: GenConfig, ind: nat, nodes: Seq<LuauNode>) -> Seq<char>
    decreases nodes, 0nat,
{
    if nodes.len() == 0 {
        Seq::empty()
    } else {
        nodes_text(c, ind, nodes.drop_last()) + node_text(c, ind, nodes.last())
    }
}

/// The texts of nodes, each after the indentation of level `ind`.
pub open spec fn indented_nodes_text(c: GenConfig, ind: nat, nodes: Seq<LuauNode>) -> Seq<char>
    decreases nodes, 0nat,
{
    if nodes.len() == 0 {
        Seq::empty()
    } else {
        indented_nodes_text(c, ind, nodes.drop_last()) + indent_text(ind) + node_text(c, ind, nodes.last())
    }
}

/// The texts of nodes, each by itself.
pub open spec fn node_texts(c: GenConfig, ind: nat, nodes: Seq<LuauNode>) -> Seq<Seq<char>>
    decreases nodes, 0nat,
{
    if nodes.len() == 0 {
        Seq::empty()
    } else {
        node_texts(c, ind, nodes.drop_last()).push(node_text(c, ind, nodes.last()))
    }
}

/// The text a node is written as without pooling or allocation tracking:
/// in debug levels after a breakpoint check. A function is inlined where a
/// hint asks; a block runs in parallel, and a binary operation is
/// vectorized, where a hint asks.
pub open spec fn regular_text(c: GenConfig, ind: nat, n: LuauNode) -> Seq<char>
    decreases n, 1nat,
{
    (if debug_level(c) {
        DEBUG_POINT@
    } else {
        Seq::empty()
    }) + regular_body_text(c, ind, n)
}

/// The text of a node itself, after any breakpoint check.
pub open spec fn regular_body_text(c: GenConfig, ind: nat, n: LuauNode) -> Seq<char>
    decreases n, 0nat,
{
    match n {
        LuauNode::Function(f) => if inline_hint(c.hints@, f.name@) {
            match *f.body {
                LuauNode::Block(nodes) => nodes_text(c, ind, nodes@),
                _ => Seq::empty(),
            }
        } else {
            function_text(c, ind, *f)
        },
        LuauNode::Return(e) => "return "@ + node_text(c, ind, *e) + "\n"@,
        LuauNode::Local { name, value } => "local "@ + name@ + " = "@ + node_text(c, ind, *value) + "\n"@,
        LuauNode::If { condition, then_branch, else_branch } => "if "@ + node_text(c, ind, *condition)
            + " then\n"@ + node_text(c, ind, *then_branch) + match else_branch {
            Some(e) => "else\n"@ + node_text(c, ind, *e),
            None => Seq::empty(),
        } + "end\n"@,
        LuauNode::Table(t) => if pool_hint(c.hints@) {
            "ObjectPool:acquire()"@
        } else {
            table_text(c, ind, t)
        },
        LuauNode::Buffer(b) => "buffer.create("@ + decimal(b.initial_size as nat) + match b.optimization_level {
            BufferOptimizationLevel::Speed => ", {speed=true})"@,
            BufferOptimizationLevel::Size => ", {compact=true})"@,
            BufferOptimizationLevel::Default => ")"@,
        },
        LuauNode::Program(p) => nodes_text(c, ind, p.body@),
        LuauNode::Block(nodes) => if parallel_hint(c.hints@) {
            "parallel_for(array, function(item, index)\n"@ + indented_nodes_text(c, deeper(ind), nodes@)
                + "end)\n"@
        } else {
            nodes_text(c, ind, nodes@)
        },
        LuauNode::Binary { left, op, right } => if vectorize_hint(c.hints@) {
            "vector_op("@ + node_text(c, ind, *left) + ", "@ + node_text(c, ind, *right)
                + ", function(a, b) return a "@ + op@ + " b end)"@
        } else {
            node_text(c, ind, *left) + " "@ + op@ + " "@ + node_text(c, ind, *right)
        },
        LuauNode::Identifier(name) => name@,
        LuauNode::Number(x) => decimal_int(x as int),
        LuauNode::String(s) => "\""@ + s@ + "\""@,
        LuauNode::Boolean(b) => if b {
            "true"@
        } else {
            "false"@
        },
        LuauNode::Var(name) => name@,
        LuauNode::Call { func, args } => node_text(c, ind, *func) + "("@ + join(node_texts(c, ind, args@), ", "@)
            + ")"@,
        LuauNode::Literal(v) => value_text(v),
        LuauNode::BinaryExpr { left, op, right } => node_text(c, ind, *left) + " "@ + op_text(op) + " "@
            + node_text(c, ind, *right),
    }
}

/// The text of the value of the last field named `key`, written on its
/// own, or `0` where there is none.
pub open spec fn last_field_text(c: GenConfig, fields: Seq<(String, LuauNode)>, key: Seq<char>) -> Seq<char>
    decreases fields, 0nat,
{
    if fields.len() == 0 {
        "0"@
    } else if fields.last().0@ == key {
        node_text(c, 0, fields.last().1)
    } else {
        last_field_text(c, fields.drop_last(), key)
    }
}

/// The entries of a table constructor: the value alone for a key that
/// reads as an index, else `key = value`.
pub open spec fn field_entry_texts(c: GenConfig, ind: nat, fields: Seq<(String, LuauNode)>) -> Seq<Seq<char>>
    decreases fields, 0nat,
{
    if fields.len() == 0 {
        Seq::empty()
    } else {
        let (key, value) = fields.last();
        field_entry_texts(c, ind, fields.drop_last()).push(
            if is_usize_text(key@) {
                node_text(c, ind, value)
            } else {
                key@ + " = "@ + node_text(c, ind, value)
            },
        )
    }
}

/// The text of a table without a native type: `table.create(n)` for an
/// array-like table with a size to pre-allocate, else its constructor.
pub open spec fn standard_table_text(c: GenConfig, ind: nat, t: Table) -> Seq<char>
    decreases t, 0nat,
{
    if t.optimization_hints.array_like && t.optimization_hints.pre_allocate is Some {
        "table.create("@ + decimal(t.optimization_hints.pre_allocate->Some_0 as nat) + ")"@
    } else {
        "{"@ + join(field_entry_texts(c, ind, t.fields@), ", "@) + "}"@
    }
}

/// The text of a table: the local `t` it is built in, pre-allocated where
/// tables are, then `Vector3.new(x, y, z)` or `Color3.new(r, g, b)` for a
/// table marked with that native type, else the table itself.
pub open spec fn table_text(c: GenConfig, ind: nat, t: Table) -> Seq<char>
    decreases t, 1nat,
{
    (if c.pre_allocate_tables {
        "local t = MemoryManager:preAllocateTable("@ + decimal(t.fields@.len()) + ")\n"@
    } else {
        "local t = {}\n"@
    }) + match t.optimization_hints.native_buffer_type {
        Some(k) => if k@ == "Vector3"@ {
            "Vector3.new("@ + last_field_text(c, t.fields@, "x"@) + ", "@ + last_field_text(c, t.fields@, "y"@)
                + ", "@ + last_field_text(c, t.fields@, "z"@) + ")"@
        } else if k@ == "Color3"@ {
            "Color3.new("@ + last_field_text(c, t.fields@, "r"@) + ", "@ + last_field_text(c, t.fields@, "g"@)
                + ", "@ + last_field_text(c, t.fields@, "b"@) + ")"@
        } else {
            standard_table_text(c, ind, t)
        },
        None => standard_table_text(c, ind, t),
    }
}

/// The text of one parameter: its name, and where it has a type, `: ` and
/// the type, followed in debug levels by a check of the argument's type.
pub open spec fn param_text(c: GenConfig, p: Parameter) -> Seq<char> {
    p.name@ + match p.type_annotation {
        Some(t) => ": "@ + annotation_text(t) + if debug_level(c) {
            "\n                        assert(type("@ + p.name@ + ") == '"@ + annotation_text(t)
                + "', 'Expected "@ + p.name@ + " to be "@ + annotation_text(t) + ", got ' .. type("@
                + p.name@ + "))\n                    \n"@
        } else {
            Seq::empty()
        },
        None => Seq::empty(),
    }
}

/// The parameters' texts separated by `, `.
pub open spec fn params_text(c: GenConfig, ps: Seq<Parameter>) -> Seq<char>
    decreases ps.len(),
{
    if ps.len() == 0 {
        Seq::empty()
    } else if ps.len() == 1 {
        param_text(c, ps[0])
    } else {
        params_text(c, ps.drop_last()) + ", "@ + param_text(c, ps.last())
    }
}

/// The text of a function: a comment, the header, in debug levels a clock
/// reading before and a timing report after the body; a body that is a
/// block, one level deeper, after the locals that cache hinted values.
pub open spec fn function_text(c: GenConfig, ind: nat, f: Function) -> Seq<char>
    decreases f, 0nat,
{
    "-- Performance optimized function\n"@ + "function "@ + f.name@ + "("@ + params_text(c, f.params@)
        + ")\n"@ + (if debug_level(c) {
        "    local __start_time = os.clock()\n"@
    } else {
        Seq::empty()
    }) + (match *f.body {
        LuauNode::Block(_) => cache_lines(cache_names(c.hints@)) + node_text(c, deeper(ind), *f.body),
        _ => Seq::empty(),
    }) + (if debug_level(c) {
        "    local __end_time = os.clock()\n"@ + "    print('"@ + f.name@
            + " execution time:', __end_time - __start_time)\n"@
    } else {
        Seq::empty()
    }) + "end\n"@
}

/// Whether `after` is `before` with `text` written to its output.
pub open spec fn appended(before: LuauCodeGenerator, after: LuauCodeGenerator, text: Seq<char>) -> bool {
    &&& after.config == before.config
    &&& after.indent_level == before.indent_level
    &&& after.runtime_optimizer == before.runtime_optimizer
    &&& after.memory_manager == before.memory_manager
    &&& after.output@ == before.output@ + text
}

/// The directives that open a program at a level.
pub open spec fn directives_text(level: OptimizationLevel) -> Seq<char> {
    match level {
        OptimizationLevel::Unoptimized => "--!optimize 0\n"@,
        OptimizationLevel::Basic => "--!optimize 1\n--!native\n"@,
        _ => "--!optimize 2\n--!native\n--!strict\n"@,
    }
}

/// The helpers the hints ask for, each once, in the order of the first
/// hint that asks for it.
pub open spec fn helpers_text(hs: Seq<OptimizationHint>) -> Seq<char>
    decreases hs.len(),
{
    if hs.len() == 0 {
        Seq::empty()
    } else {
        let prev = hs.drop_last();
        helpers_text(prev) + match hs.last() {
            OptimizationHint::ParallelizeLoop(_) => if parallel_hint(prev) {
                Seq::empty()
            } else {
                PARALLEL_HELPER@
            },
            OptimizationHint::VectorizeOperation(_) => if vectorize_hint(prev) {
                Seq::empty()
            } else {
                VECTOR_HELPER@
            },
            OptimizationHint::UseObjectPool(_) => if pool_hint(prev) {
                Seq::empty()
            } else {
                POOL_HELPER@
            },
            _ => Seq::empty(),
        }
    }
}

/// The runtime code a program starts with: the helpers for optimized
/// operations, the memory management code, the object pool where a hint
/// asks for pools, and the helpers the hints ask for.
pub open spec fn runtime_helpers_text(g: LuauCodeGenerator) -> Seq<char> {
    "-- Optimized Runtime Helpers\n"@ + SIMD_HELPERS_SRC@ + sections_text(g.runtime_optimizer.registered())
        + "\n"@ + "-- Memory Management Implementation\n"@ + memory_code_text(g.memory_manager.settings())
        + "\n"@ + (if pool_hint(g.config.hints@) {
        "-- Object Pool Implementation\n"@ + POOL_CODE_SRC@ + "\n"@
    } else {
        Seq::empty()
    }) + helpers_text(g.config.hints@)
}

/// The code of nodes, each followed by a line break.
pub open spec fn node_lines_text(c: GenConfig, ind: nat, nodes: Seq<LuauNode>) -> Seq<char>
    decreases nodes.len(),
{
    if nodes.len() == 0 {
        Seq::empty()
    } else {
        node_lines_text(c, ind, nodes.drop_last()) + node_text(c, ind, nodes.last()) + "\n"@
    }
}

/// The names the hints of one kind carry, in order.
pub open spec fn hint_names(hs: Seq<OptimizationHint>, kind: int) -> Seq<Seq<char>>
    decreases hs.len(),
{
    if hs.len() == 0 {
        Seq::empty()
    } else {
        let prev = hint_names(hs.drop_last(), kind);
        match hs.last() {
            OptimizationHint::InlineFunction(n) => if kind == 0 {
                prev.push(n@)
            } else {
                prev
            },
            OptimizationHint::ParallelizeLoop(n) => if kind == 1 {
                prev.push(n@)
            } else {
                prev
            },
            OptimizationHint::VectorizeOperation(n) => if kind == 2 {
                prev.push(n@)
            } else {
                prev
            },
            _ => prev,
        }
    }
}

/// Whether `names` has one reading `s`.
pub(crate) fn contains_text(names: &Vec<String>, s: &str) -> (r: bool)
    ensures
        r == views(names@).contains(s@),
{
    let mut i: usize = 0;
    while i < names.len()
        invariant
            i <= names.len(),
            forall|k: int| 0 <= k < i ==> views(names@)[k] != s@,
        decreases names.len() - i,
    {
        if str_eq(names[i].as_str(), s) {
            assert(views(names@)[i as int] == s@);
            return true;
        }
        i = i + 1;
    }
    false
}

/// The size allocation tracking reports for `n` fields.
fn tracked_size_of(n: usize) -> (r: usize)
    ensures
        r as nat == tracked_size(n as nat),
{
    if n <= usize::MAX / 8 {
        n * 8
    } else {
        usize::MAX
    }
}

/// The Luau spelling of a binary operator.
fn op_str(op: BinaryOp) -> (r: &'static str)
    ensures
        r@ == op_text(op),
{
    match op {
        BinaryOp::Add => "+",
        BinaryOp::Sub => "-",
        BinaryOp::Mul => "*",
        BinaryOp::Div => "/",
        BinaryOp::Mod => "%",
        BinaryOp::Eq => "==",
        BinaryOp::Ne => "~=",
        BinaryOp::Lt => "<",
        BinaryOp::Le => "<=",
        BinaryOp::Gt => ">",
        BinaryOp::Ge => ">=",
        BinaryOp::And => "and",
        BinaryOp::Or => "or",
    }
}

/// The text of a literal value.
fn value_string(v: &LuauValue) -> (r: String)
    ensures
        r@ == value_text(*v),
{
    match v {
        LuauValue::Nil => String::from_str("nil"),
        LuauValue::Bool(b) => if *b {
            String::from_str("true")
        } else {
            String::from_str("false")
        },
        LuauValue::Number(n) => i64_to_string(*n),
        LuauValue::String(s) => {
            let mut r = String::from_str("\"");
            r.append(s.as_str());
            r.append("\"");
            r
        },
    }
}

impl LuauCodeGenerator {
    /// A generator at the `Basic` level, with no hints, that pre-allocates
    /// tables.
    pub fn new() -> (r: Self)
        ensures
            r.config.optimization_level is Basic,
            r.config.hints@.len() == 0,
            r.config.pre_allocate_tables,
            r.indent_level == 0,
            r.output@ == Seq::<char>::empty(),
    {
        LuauCodeGenerator::with_optimization_level(OptimizationLevel::Basic)
    }

    /// A generator at the given level, with no hints, that pre-allocates
    /// tables.
    pub fn with_optimization_level(level: OptimizationLevel) -> (r: Self)
        ensures
            r.config.optimization_level == level,
            r.config.hints@.len() == 0,
            r.config.pre_allocate_tables,
            r.indent_level == 0,
            r.output@ == Seq::<char>::empty(),
    {
        LuauCodeGenerator {
            config: GenConfig { optimization_level: level, hints: Vec::new(), pre_allocate_tables: true },
            indent_level: 0,
            output: String::new(),
            runtime_optimizer: RuntimeOptimizer::new(),
            memory_manager: MemoryManager::new(default_memory_settings()),
        }
    }

    /// The code written so far.
    pub fn output(&self) -> (r: &String)
        ensures
            r == &self.output,
    {
        &self.output
    }

    fn write(&mut self, s: &str)
        ensures
            appended(*old(self), *final(self), s@),
    {
        self.output.append(s);
    }

    fn write_indent(&mut self)
        ensures
            appended(*old(self), *final(self), indent_text(old(self).indent_level as nat)),
    {
        let ghost start = self.output@;
        let mut i: usize = 0;
        while i < self.indent_level
            invariant
                i <= self.indent_level,
                self.config == old(self).config,
                self.runtime_optimizer == old(self).runtime_optimizer,
                self.memory_manager == old(self).memory_manager,
                self.indent_level == old(self).indent_level,
                self.output@ == start + indent_text(i as nat),
            decreases self.indent_level - i,
        {
            self.write("    ");
            i = i + 1;
            proof {
                assert(self.output@ =~= start + indent_text(i as nat));
            }
        }
    }

    fn is_debug_level(&self) -> (r: bool)
        ensures
            r == debug_level(self.config),
    {
        match self.config.optimization_level {
            OptimizationLevel::Unoptimized => true,
            OptimizationLevel::Basic => true,
            _ => false,
        }
    }

    fn has_pool_hint(&self) -> (r: bool)
        ensures
            r == pool_hint(self.config.hints@),
    {
        let mut i: usize = 0;
        while i < self.config.hints.len()
            invariant
                i <= self.config.hints@.len(),
                forall|k: int| 0 <= k < i ==> !(#[trigger] self.config.hints@[k] is UseObjectPool),
            decreases self.config.hints@.len() - i,
        {
            match &self.config.hints[i] {
                OptimizationHint::UseObjectPool(_) => {
                    return true;
                },
                _ => {},
            }
            i = i + 1;
        }
        false
    }

    fn has_parallel_hint(&self) -> (r: bool)
        ensures
            r == parallel_hint(self.config.hints@),
    {
        let mut i: usize = 0;
        while i < self.config.hints.len()
            invariant
                i <= self.config.hints@.len(),
                forall|k: int| 0 <= k < i ==> !(#[trigger] self.config.hints@[k] is ParallelizeLoop),
            decreases self.config.hints@.len() - i,
        {
            match &self.config.hints[i] {
                OptimizationHint::ParallelizeLoop(_) => {
                    return true;
                },
                _ => {},
            }
            i = i + 1;
        }
        false
    }

    fn has_vectorize_hint(&self) -> (r: bool)
        ensures
            r == vectorize_hint(self.config.hints@),
    {
        let mut i: usize = 0;
        while i < self.config.hints.len()
            invariant
                i <= self.config.hints@.len(),
                forall|k: int| 0 <= k < i ==> !(#[trigger] self.config.hints@[k] is VectorizeOperation),
            decreases self.config.hints@.len() - i,
        {
            match &self.config.hints[i] {
                OptimizationHint::VectorizeOperation(_) => {
                    return true;
                },
                _ => {},
            }
            i = i + 1;
        }
        false
    }

    fn has_inline_hint(&self, name: &str) -> (r: bool)
        ensures
            r == inline_hint(self.config.hints@, name@),
    {
        let mut i: usize = 0;
        while i < self.config.hints.len()
            invariant
                i <= self.config.hints@.len(),
                forall|k: int|
                    0 <= k < i ==> !(#[trigger] self.config.hints@[k] matches OptimizationHint::InlineFunction(n)
                        && n@ == name@),
            decreases self.config.hints@.len() - i,
        {
            match &self.config.hints[i] {
                OptimizationHint::InlineFunction(n) => {
                    if str_eq(n.as_str(), name) {
                        return true;
                    }
                },
                _ => {},
            }
            i = i + 1;
        }
        false
    }

    /// The names of the values to cache.
    fn cached_values(&self) -> (r: Vec<String>)
        ensures
            views(r@) == cache_names(self.config.hints@),
    {
        let mut out: Vec<String> = Vec::new();
        let mut i: usize = 0;
        while i < self.config.hints.len()
            invariant
                i <= self.config.hints@.len(),
                views(out@) == cache_names(self.config.hints@.take(i as int)),
            decreases self.config.hints@.len() - i,
        {
            proof {
                assert(self.config.hints@.take(i + 1).drop_last() =~= self.config.hints@.take(i as int));
            }
            match &self.config.hints[i] {
                OptimizationHint::CacheValue(n) => {
                    if !contains_text(&out, n.as_str()) {
                        let ghost before = out@;
                        out.push(n.clone());
                        proof {
                            assert(views(out@) =~= views(before).push(n@));
                        }
                    }
                },
                _ => {},
            }
            i = i + 1;
        }
        proof {
            assert(self.config.hints@.take(self.config.hints@.len() as int) =~= self.config.hints@);
        }
        out
    }
}

impl LuauCodeGenerator {
    /// Write a node: in debug levels a table's allocation is tracked first;
    /// with a pool hint a table is taken from the object pool and filled
    /// field by field; any other node is written as `generate_regular_node`
    /// writes it.
    pub fn generate_node(&mut self, node: &LuauNode) -> (r: Result<(), String>)
        ensures
            r is Ok,
            appended(*old(self), *final(self), node_text(old(self).config, old(self).indent_level as nat, *node)),
        decreases node, 3nat,
    {
        let ghost start = self.output@;
        match node {
            LuauNode::Table(t) => {
                if self.is_debug_level() {
                    self.write("MemoryManager:trackAllocation(");
                    let size = usize_to_string(tracked_size_of(t.fields.len()));
                    self.write(size.as_str());
                    self.write(")\n");
                }
                let ghost mid = self.output@;
                if self.has_pool_hint() {
                    self.write("local obj = ObjectPool:acquire('table', ");
                    let n = usize_to_string(t.fields.len());
                    self.write(n.as_str());
                    self.write(")\n");
                    self.generate_pooled_fields(&t.fields);
                } else {
                    let _ = self.generate_regular_node(node);
                }
                proof {
                    assert(self.output@ =~= start + node_text(old(self).config, old(self).indent_level as nat, *node));
                }
                Ok(())
            },
            _ => self.generate_regular_node(node),
        }
    }

    /// The assignments that fill a pooled table's fields.
    fn generate_pooled_fields(&mut self, fields: &Vec<(String, LuauNode)>)
        ensures
            appended(*old(self), *final(self), pooled_fields_text(old(self).config, old(self).indent_level as nat, fields@)),
        decreases fields, 0nat,
    {
        let ghost start = self.output@;
        let ghost c = self.config;
        let ghost ind = self.indent_level as nat;
        let mut i: usize = 0;
        while i < fields.len()
            invariant
                i <= fields.len(),
                self.config == c,
                self.runtime_optimizer == old(self).runtime_optimizer,
                self.memory_manager == old(self).memory_manager,
                self.indent_level as nat == ind,
                self.output@ == start + pooled_fields_text(c, ind, fields@.take(i as int)),
            decreases fields.len() - i,
        {
            proof {
                assert(fields@.take(i + 1).drop_last() =~= fields@.take(i as int));
                assert(decreases_to!(fields => fields@[i as int]));
                assert(decreases_to!(fields@[i as int] => fields@[i as int].1));
            }
            self.write("obj[\"");
            self.write(fields[i].0.as_str());
            self.write("\"] = ");
            let _ = self.generate_node(&fields[i].1);
            self.write("\n");
            i = i + 1;
            proof {
                assert(self.output@ =~= start + pooled_fields_text(c, ind, fields@.take(i as int)));
            }
        }
        proof {
            assert(fields@.take(fields.len() as int) =~= fields@);
        }
    }

    /// Write nodes one after the other.
    fn generate_nodes(&mut self, nodes: &Vec<LuauNode>)
        ensures
            appended(*old(self), *final(self), nodes_text(old(self).config, old(self).indent_level as nat, nodes@)),
        decreases nodes, 0nat,
    {
        let ghost start = self.output@;
        let ghost c = self.config;
        let ghost ind = self.indent_level as nat;
        let mut i: usize = 0;
        while i < nodes.len()
            invariant
                i <= nodes.len(),
                self.config == c,
                self.runtime_optimizer == old(self).runtime_optimizer,
                self.memory_manager == old(self).memory_manager,
                self.indent_level as nat == ind,
                self.output@ == start + nodes_text(c, ind, nodes@.take(i as int)),
            decreases nodes.len() - i,
        {
            proof {
                assert(nodes@.take(i + 1).drop_last() =~= nodes@.take(i as int));
                assert(decreases_to!(nodes => nodes@[i as int]));
            }
            let _ = self.generate_node(&nodes[i]);
            i = i + 1;
            proof {
                assert(self.output@ =~= start + nodes_text(c, ind, nodes@.take(i as int)));
            }
        }
        proof {
            assert(nodes@.take(nodes.len() as int) =~= nodes@);
        }
    }

    /// Write nodes, each after the current indentation.
    fn generate_indented_nodes(&mut self, nodes: &Vec<LuauNode>)
        ensures
            appended(
                *old(self),
                *final(self),
                indented_nodes_text(old(self).config, old(self).indent_level as nat, nodes@),
            ),
        decreases nodes, 0nat,
    {
        let ghost start = self.output@;
        let ghost c = self.config;
        let ghost ind = self.indent_level as nat;
        let mut i: usize = 0;
        while i < nodes.len()
            invariant
                i <= nodes.len(),
                self.config == c,
                self.runtime_optimizer == old(self).runtime_optimizer,
                self.memory_manager == old(self).memory_manager,
                self.indent_level as nat == ind,
                self.output@ == start + indented_nodes_text(c, ind, nodes@.take(i as int)),
            decreases nodes.len() - i,
        {
            proof {
                assert(nodes@.take(i + 1).drop_last() =~= nodes@.take(i as int));
                assert(decreases_to!(nodes => nodes@[i as int]));
            }
            self.write_indent();
            let _ = self.generate_node(&nodes[i]);
            i = i + 1;
            proof {
                assert(self.output@ =~= start + indented_nodes_text(c, ind, nodes@.take(i as int)));
            }
        }
        proof {
            assert(nodes@.take(nodes.len() as int) =~= nodes@);
        }
    }

    /// The text of a node written by itself at indentation `level`; the
    /// generator is left as it was.
    fn node_string(&mut self, node: &LuauNode, level: usize) -> (r: String)
        ensures
            r@ == node_text(old(self).config, level as nat, *node),
            final(self).config == old(self).config,
            final(self).indent_level == old(self).indent_level,
            final(self).output == old(self).output,
            final(self).runtime_optimizer == old(self).runtime_optimizer,
            final(self).memory_manager == old(self).memory_manager,
        decreases node, 4nat,
    {
        let mut saved = String::new();
        core::mem::swap(&mut self.output, &mut saved);
        let saved_level = self.indent_level;
        self.indent_level = level;
        let _ = self.generate_node(node);
        let mut text = String::new();
        core::mem::swap(&mut self.output, &mut text);
        self.output = saved;
        self.indent_level = saved_level;
        text
    }

    /// The texts of nodes, each written by itself.
    fn node_strings(&mut self, nodes: &Vec<LuauNode>) -> (r: Vec<String>)
        ensures
            views(r@) == node_texts(old(self).config, old(self).indent_level as nat, nodes@),
            *final(self) == *old(self),
        decreases nodes, 0nat,
    {
        let ghost c = self.config;
        let ghost ind = self.indent_level as nat;
        let mut out: Vec<String> = Vec::new();
        let mut i: usize = 0;
        while i < nodes.len()
            invariant
                i <= nodes.len(),
                *self == *old(self),
                c == old(self).config,
                ind == old(self).indent_level as nat,
                views(out@) == node_texts(c, ind, nodes@.take(i as int)),
            decreases nodes.len() - i,
        {
            proof {
                assert(nodes@.take(i + 1).drop_last() =~= nodes@.take(i as int));
                assert(decreases_to!(nodes => nodes@[i as int]));
            }
            let level = self.indent_level;
            let t = self.node_string(&nodes[i], level);
            let ghost before = out@;
            out.push(t);
            i = i + 1;
            proof {
                assert(views(out@) =~= views(before).push(t@));
            }
        }
        proof {
            assert(nodes@.take(nodes.len() as int) =~= nodes@);
        }
        out
    }
}

impl LuauCodeGenerator {
    /// Write a node without pooling or allocation tracking: in debug levels
    /// after a breakpoint check. A function is inlined where a hint asks; a
    /// block runs in parallel, and a binary operation is vectorized, where
    /// a hint asks.
    pub fn generate_regular_node(&mut self, node: &LuauNode) -> (r: Result<(), String>)
        ensures
            r is Ok,
            appended(*old(self), *final(self), regular_text(old(self).config, old(self).indent_level as nat, *node)),
        decreases node, 2nat,
    {
        let ghost start = self.output@;
        let ghost c = self.config;
        let ghost ind = self.indent_level as nat;
        if self.is_debug_level() {
            self.write(DEBUG_POINT);
        }
        match node {
            LuauNode::Function(_) | LuauNode::Return(_) | LuauNode::Local { .. } | LuauNode::If { .. } => {
                self.generate_statement_node(node);
            },
            LuauNode::Table(_) | LuauNode::Buffer(_) | LuauNode::Program(_) | LuauNode::Block(_) => {
                self.generate_container_node(node);
            },
            _ => {
                self.generate_expression_node(node);
            },
        }
        proof {
            assert(self.output@ =~= start + regular_text(c, ind, *node));
        }
        Ok(())
    }

    /// Write a function, a return, a local or an if.
    fn generate_statement_node(&mut self, node: &LuauNode)
        requires
            node is Function || node is Return || node is Local || node is If,
        ensures
            appended(*old(self), *final(self), regular_body_text(old(self).config, old(self).indent_level as nat, *node)),
        decreases node, 0nat,
    {
        let ghost start = self.output@;
        let ghost c = self.config;
        let ghost ind = self.indent_level as nat;
        match node {
            LuauNode::Function(f) => {
                if self.has_inline_hint(f.name.as_str()) {
                    match &*f.body {
                        LuauNode::Block(nodes) => {
                            self.generate_nodes(nodes);
                        },
                        _ => {},
                    }
                } else {
                    self.generate_function(f);
                }
            },
            LuauNode::Return(e) => {
                self.write("return ");
                let _ = self.generate_node(e);
                self.write("\n");
            },
            LuauNode::Local { name, value } => {
                self.write("local ");
                self.write(name.as_str());
                self.write(" = ");
                let _ = self.generate_node(value);
                self.write("\n");
            },
            LuauNode::If { condition, then_branch, else_branch } => {
                self.write("if ");
                let _ = self.generate_node(condition);
                self.write(" then\n");
                let _ = self.generate_node(then_branch);
                match else_branch {
                    Some(e) => {
                        self.write("else\n");
                        let _ = self.generate_node(e);
                    },
                    None => {},
                }
                self.write("end\n");
            },
            _ => {},
        }
        proof {
            assert(self.output@ =~= start + regular_body_text(c, ind, *node));
        }
    }

    /// Write a table, a buffer, a program or a block.
    fn generate_container_node(&mut self, node: &LuauNode)
        requires
            node is Table || node is Buffer || node is Program || node is Block,
        ensures
            appended(*old(self), *final(self), regular_body_text(old(self).config, old(self).indent_level as nat, *node)),
        decreases node, 0nat,
    {
        let ghost start = self.output@;
        let ghost c = self.config;
        let ghost ind = self.indent_level as nat;
        match node {
            LuauNode::Table(t) => {
                if self.has_pool_hint() {
                    self.write("ObjectPool:acquire()");
                } else {
                    let _ = self.generate_table(t);
                }
            },
            LuauNode::Buffer(b) => {
                self.write("buffer.create(");
                let n = usize_to_string(b.initial_size);
                self.write(n.as_str());
                match b.optimization_level {
                    BufferOptimizationLevel::Speed => self.write(", {speed=true})"),
                    BufferOptimizationLevel::Size => self.write(", {compact=true})"),
                    BufferOptimizationLevel::Default => self.write(")"),
                }
            },
            LuauNode::Program(p) => {
                self.generate_nodes(&p.body);
            },
            LuauNode::Block(nodes) => {
                if self.has_parallel_hint() {
                    self.write("parallel_for(array, function(item, index)\n");
                    let saved = self.indent_level;
                    self.indent_level = if saved < usize::MAX {
                        saved + 1
                    } else {
                        saved
                    };
                    self.generate_indented_nodes(nodes);
                    self.indent_level = saved;
                    self.write("end)\n");
                } else {
                    self.generate_nodes(nodes);
                }
            },
            _ => {},
        }
        proof {
            assert(self.output@ =~= start + regular_body_text(c, ind, *node));
        }
    }

    /// Write an operation, a name, a literal or a call.
    fn generate_expression_node(&mut self, node: &LuauNode)
        requires
            !(node is Function || node is Return || node is Local || node is If || node is Table || node is Buffer || node is Program || node is Block),
        ensures
            appended(*old(self), *final(self), regular_body_text(old(self).config, old(self).indent_level as nat, *node)),
        decreases node, 0nat,
    {
        let ghost start = self.output@;
        let ghost c = self.config;
        let ghost ind = self.indent_level as nat;
        match node {
            LuauNode::Binary { left, op, right } => {
                if self.has_vectorize_hint() {
                    self.write("vector_op(");
                    let _ = self.generate_node(left);
                    self.write(", ");
                    let _ = self.generate_node(right);
                    self.write(", function(a, b) return a ");
                    self.write(op.as_str());
                    self.write(" b end)");
                } else {
                    let _ = self.generate_node(left);
                    self.write(" ");
                    self.write(op.as_str());
                    self.write(" ");
                    let _ = self.generate_node(right);
                }
            },
            LuauNode::Identifier(name) => {
                self.write(name.as_str());
            },
            LuauNode::Number(x) => {
                let t = i64_to_string(*x);
                self.write(t.as_str());
            },
            LuauNode::String(text) => {
                self.write("\"");
                self.write(text.as_str());
                self.write("\"");
            },
            LuauNode::Boolean(b) => {
                if *b {
                    self.write("true");
                } else {
                    self.write("false");
                }
            },
            LuauNode::Var(name) => {
                self.write(name.as_str());
            },
            LuauNode::Call { func, args } => {
                let _ = self.generate_node(func);
                self.write("(");
                let texts = self.node_strings(args);
                let joined = join_strings(&texts, ", ");
                self.write(joined.as_str());
                self.write(")");
            },
            LuauNode::Literal(v) => {
                let t = value_string(v);
                self.write(t.as_str());
            },
            LuauNode::BinaryExpr { left, op, right } => {
                let _ = self.generate_node(left);
                self.write(" ");
                self.write(op_str(*op));
                self.write(" ");
                let _ = self.generate_node(right);
            },
            _ => {},
        }
        proof {
            assert(self.output@ =~= start + regular_body_text(c, ind, *node));
        }
    }

    /// Write one parameter.
    fn generate_param(&mut self, p: &Parameter)
        ensures
            appended(*old(self), *final(self), param_text(old(self).config, *p)),
    {
        let ghost start = self.output@;
        self.write(p.name.as_str());
        match &p.type_annotation {
            Some(t) => {
                let ty = t.to_text();
                self.write(": ");
                self.write(ty.as_str());
                if self.is_debug_level() {
                    self.write("\n                        assert(type(");
                    self.write(p.name.as_str());
                    self.write(") == '");
                    self.write(ty.as_str());
                    self.write("', 'Expected ");
                    self.write(p.name.as_str());
                    self.write(" to be ");
                    self.write(ty.as_str());
                    self.write(", got ' .. type(");
                    self.write(p.name.as_str());
                    self.write("))\n                    \n");
                }
            },
            None => {},
        }
        proof {
            assert(self.output@ =~= start + param_text(old(self).config, *p));
        }
    }

    /// Write parameters separated by `, `.
    fn generate_params(&mut self, ps: &Vec<Parameter>)
        ensures
            appended(*old(self), *final(self), params_text(old(self).config, ps@)),
    {
        let ghost start = self.output@;
        let ghost c = self.config;
        let mut i: usize = 0;
        while i < ps.len()
            invariant
                i <= ps.len(),
                self.config == c,
                self.runtime_optimizer == old(self).runtime_optimizer,
                self.memory_manager == old(self).memory_manager,
                self.indent_level == old(self).indent_level,
                c == old(self).config,
                self.output@ == start + params_text(c, ps@.take(i as int)),
            decreases ps.len() - i,
        {
            proof {
                assert(ps@.take(i + 1).drop_last() =~= ps@.take(i as int));
            }
            if i > 0 {
                self.write(", ");
            }
            self.generate_param(&ps[i]);
            i = i + 1;
            proof {
                assert(self.output@ =~= start + params_text(c, ps@.take(i as int)));
            }
        }
        proof {
            assert(ps@.take(ps.len() as int) =~= ps@);
        }
    }

    /// Write a function: a comment, the header, in debug levels a clock
    /// reading before and a timing report after the body; a body that is a
    /// block, one level deeper, after the locals that cache hinted values.
    #[verifier::rlimit(80)]
    fn generate_function(&mut self, f: &Function)
        ensures
            appended(*old(self), *final(self), function_text(old(self).config, old(self).indent_level as nat, *f)),
        decreases f, 0nat,
    {
        let ghost start = self.output@;
        let ghost c = self.config;
        let ghost ind = self.indent_level as nat;
        self.write("-- Performance optimized function\n");
        self.write("function ");
        self.write(f.name.as_str());
        self.write("(");
        self.generate_params(&f.params);
        self.write(")\n");
        if self.is_debug_level() {
            self.write("    local __start_time = os.clock()\n");
        }
        let ghost before_body = self.output@;
        match &*f.body {
            LuauNode::Block(_) => {
                let names = self.cached_values();
                let mut i: usize = 0;
                while i < names.len()
                    invariant
                        i <= names.len(),
                        self.config == c,
                        self.runtime_optimizer == old(self).runtime_optimizer,
                        self.memory_manager == old(self).memory_manager,
                        self.indent_level as nat == ind,
                        views(names@) == cache_names(c.hints@),
                        self.output@ == before_body + cache_lines(views(names@).take(i as int)),
                    decreases names.len() - i,
                {
                    proof {
                        assert(views(names@).take(i + 1).drop_last() =~= views(names@).take(i as int));
                    }
                    self.write("    local _");
                    self.write(names[i].as_str());
                    self.write("_cache = ");
                    self.write(names[i].as_str());
                    self.write("\n");
                    i = i + 1;
                    proof {
                        assert(self.output@ =~= before_body + cache_lines(views(names@).take(i as int)));
                    }
                }
                proof {
                    assert(views(names@).take(names.len() as int) =~= views(names@));
                }
                let saved = self.indent_level;
                self.indent_level = if saved < usize::MAX {
                    saved + 1
                } else {
                    saved
                };
                let _ = self.generate_node(&f.body);
                self.indent_level = saved;
            },
            _ => {},
        }
        if self.is_debug_level() {
            self.write("    local __end_time = os.clock()\n");
            self.write("    print('");
            self.write(f.name.as_str());
            self.write(" execution time:', __end_time - __start_time)\n");
        }
        self.write("end\n");
        proof {
            assert(self.output@ =~= start + function_text(c, ind, *f));
        }
    }

    /// The text of the value of the last field named `key`, written by
    /// itself, or `0` where there is none.
    fn last_field_string(&mut self, fields: &Vec<(String, LuauNode)>, key: &str) -> (r: String)
        ensures
            r@ == last_field_text(old(self).config, fields@, key@),
            *final(self) == *old(self),
        decreases fields, 0nat,
    {
        let ghost c = self.config;
        let mut i: usize = fields.len();
        proof {
            assert(fields@.take(fields.len() as int) =~= fields@);
        }
        while i > 0
            invariant
                i <= fields.len(),
                *self == *old(self),
                c == old(self).config,
                last_field_text(c, fields@, key@) == last_field_text(c, fields@.take(i as int), key@),
            decreases i,
        {
            i = i - 1;
            proof {
                assert(fields@.take(i + 1).drop_last() =~= fields@.take(i as int));
                assert(decreases_to!(fields => fields@[i as int]));
                assert(decreases_to!(fields@[i as int] => fields@[i as int].1));
            }
            if str_eq(fields[i].0.as_str(), key) {
                return self.node_string(&fields[i].1, 0);
            }
        }
        String::from_str("0")
    }

    /// The entries of a table constructor, each written by itself.
    fn field_entry_strings(&mut self, fields: &Vec<(String, LuauNode)>) -> (r: Vec<String>)
        ensures
            views(r@) == field_entry_texts(old(self).config, old(self).indent_level as nat, fields@),
            *final(self) == *old(self),
        decreases fields, 0nat,
    {
        let ghost c = self.config;
        let ghost ind = self.indent_level as nat;
        let mut out: Vec<String> = Vec::new();
        let mut i: usize = 0;
        while i < fields.len()
            invariant
                i <= fields.len(),
                *self == *old(self),
                c == old(self).config,
                ind == old(self).indent_level as nat,
                views(out@) == field_entry_texts(c, ind, fields@.take(i as int)),
            decreases fields.len() - i,
        {
            proof {
                assert(fields@.take(i + 1).drop_last() =~= fields@.take(i as int));
                assert(decreases_to!(fields => fields@[i as int]));
                assert(decreases_to!(fields@[i as int] => fields@[i as int].1));
            }
            let level = self.indent_level;
            let value = self.node_string(&fields[i].1, level);
            let entry = if parse_usize(fields[i].0.as_str()).is_some() {
                value
            } else {
                let mut e = fields[i].0.clone();
                e.append(" = ");
                e.append(value.as_str());
                e
            };
            let ghost before = out@;
            out.push(entry);
            i = i + 1;
            proof {
                assert(views(out@) =~= views(before).push(entry@));
            }
        }
        proof {
            assert(fields@.take(fields.len() as int) =~= fields@);
        }
        out
    }

    /// Write a table without a native type: `table.create(n)` for an
    /// array-like table with a size to pre-allocate, else its constructor.
    fn generate_standard_table(&mut self, t: &Table)
        ensures
            appended(*old(self), *final(self), standard_table_text(old(self).config, old(self).indent_level as nat, *t)),
        decreases t, 0nat,
    {
        let ghost start = self.output@;
        match t.optimization_hints.pre_allocate {
            Some(n) => {
                if t.optimization_hints.array_like {
                    self.write("table.create(");
                    let s = usize_to_string(n);
                    self.write(s.as_str());
                    self.write(")");
                    proof {
                        assert(self.output@ =~= start + standard_table_text(old(self).config, old(self).indent_level as nat, *t));
                    }
                    return;
                }
            },
            None => {},
        }
        let entries = self.field_entry_strings(&t.fields);
        let joined = join_strings(&entries, ", ");
        self.write("{");
        self.write(joined.as_str());
        self.write("}");
        proof {
            assert(self.output@ =~= start + standard_table_text(old(self).config, old(self).indent_level as nat, *t));
        }
    }

    /// Write a table: the local `t` it is built in, pre-allocated where
    /// tables are, then `Vector3.new(x, y, z)` or `Color3.new(r, g, b)` for
    /// a table marked with that native type, else the table itself.
    #[verifier::rlimit(60)]
    pub fn generate_table(&mut self, t: &Table) -> (r: Result<(), String>)
        ensures
            r is Ok,
            appended(*old(self), *final(self), table_text(old(self).config, old(self).indent_level as nat, *t)),
        decreases t, 1nat,
    {
        let ghost start = self.output@;
        let ghost c = self.config;
        let ghost ind = self.indent_level as nat;
        if self.config.pre_allocate_tables {
            self.write("local t = MemoryManager:preAllocateTable(");
            let n = usize_to_string(t.fields.len());
            self.write(n.as_str());
            self.write(")\n");
        } else {
            self.write("local t = {}\n");
        }
        let ghost mid = self.output@;
        let mut native = false;
        match &t.optimization_hints.native_buffer_type {
            Some(k) => {
                if str_eq(k.as_str(), "Vector3") {
                    let x = self.last_field_string(&t.fields, "x");
                    let y = self.last_field_string(&t.fields, "y");
                    let z = self.last_field_string(&t.fields, "z");
                    self.write("Vector3.new(");
                    self.write(x.as_str());
                    self.write(", ");
                    self.write(y.as_str());
                    self.write(", ");
                    self.write(z.as_str());
                    self.write(")");
                    native = true;
                } else if str_eq(k.as_str(), "Color3") {
                    let r = self.last_field_string(&t.fields, "r");
                    let g = self.last_field_string(&t.fields, "g");
                    let b = self.last_field_string(&t.fields, "b");
                    self.write("Color3.new(");
                    self.write(r.as_str());
                    self.write(", ");
                    self.write(g.as_str());
                    self.write(", ");
                    self.write(b.as_str());
                    self.write(")");
                    native = true;
                }
            },
            None => {},
        }
        if !native {
            self.generate_standard_table(t);
        }
        proof {
            assert(self.output@ =~= start + table_text(c, ind, *t));
        }
        Ok(())
    }
}

impl LuauCodeGenerator {
    /// Write the runtime code a program starts with (see
    /// `runtime_helpers_text`).
    #[verifier::rlimit(60)]
    fn add_runtime_helpers(&mut self) -> (r: Result<(), String>)
        ensures
            r is Ok,
            appended(*old(self), *final(self), runtime_helpers_text(*old(self))),
    {
        let ghost start = self.output@;
        self.write("-- Optimized Runtime Helpers\n");
        let rt = self.runtime_optimizer.generate_runtime_code();
        self.write(rt.as_str());
        self.write("\n");
        self.write("-- Memory Management Implementation\n");
        let mm = self.memory_manager.generate_memory_code();
        self.write(mm.as_str());
        self.write("\n");
        if self.has_pool_hint() {
            let pool = ObjectPool::new(default_pool_config());
            self.write("-- Object Pool Implementation\n");
            let code = pool.generate_pool_code();
            self.write(code.as_str());
            self.write("\n");
        }
        let ghost mid = self.output@;
        let ghost hs = self.config.hints@;
        let mut parallel_added = false;
        let mut vector_added = false;
        let mut pool_added = false;
        let mut i: usize = 0;
        while i < self.config.hints.len()
            invariant
                i <= self.config.hints@.len(),
                hs == self.config.hints@,
                self.config == old(self).config,
                self.runtime_optimizer == old(self).runtime_optimizer,
                self.memory_manager == old(self).memory_manager,
                self.indent_level == old(self).indent_level,
                self.output@ == mid + helpers_text(hs.take(i as int)),
                parallel_added == parallel_hint(hs.take(i as int)),
                vector_added == vectorize_hint(hs.take(i as int)),
                pool_added == pool_hint(hs.take(i as int)),
            decreases self.config.hints@.len() - i,
        {
            let ghost prev = hs.take(i as int);
            let ghost next = hs.take(i + 1);
            proof {
                assert(next.drop_last() =~= prev);
                assert(next.last() == hs[i as int]);
                assert(next[i as int] == hs[i as int]);
                assert forall|k: int| 0 <= k < i implies #[trigger] next[k] == prev[k] by {}
            }
            match &self.config.hints[i] {
                OptimizationHint::ParallelizeLoop(_) => {
                    if !parallel_added {
                        self.write(PARALLEL_HELPER);
                        parallel_added = true;
                    }
                },
                OptimizationHint::VectorizeOperation(_) => {
                    if !vector_added {
                        self.write(VECTOR_HELPER);
                        vector_added = true;
                    }
                },
                OptimizationHint::UseObjectPool(_) => {
                    if !pool_added {
                        self.write(POOL_HELPER);
                        pool_added = true;
                    }
                },
                _ => {},
            }
            proof {
                assert(parallel_hint(next) == (parallel_hint(prev) || next[i as int] is ParallelizeLoop));
                assert(vectorize_hint(next) == (vectorize_hint(prev) || next[i as int] is VectorizeOperation));
                assert(pool_hint(next) == (pool_hint(prev) || next[i as int] is UseObjectPool));
            }
            i = i + 1;
        }
        proof {
            assert(hs.take(hs.len() as int) =~= hs);
            assert(self.output@ =~= start + runtime_helpers_text(*old(self)));
        }
        Ok(())
    }

    /// The names the hints of one kind carry (0: inlined functions, 1:
    /// parallel loops, 2: vectorized operations).
    fn hint_names_of(&self, kind: u8) -> (r: Vec<String>)
        requires
            kind <= 2,
        ensures
            views(r@) == hint_names(self.config.hints@, kind as int),
    {
        let mut out: Vec<String> = Vec::new();
        let mut i: usize = 0;
        while i < self.config.hints.len()
            invariant
                i <= self.config.hints@.len(),
                views(out@) == hint_names(self.config.hints@.take(i as int), kind as int),
            decreases self.config.hints@.len() - i,
        {
            proof {
                assert(self.config.hints@.take(i + 1).drop_last() =~= self.config.hints@.take(i as int));
            }
            let ghost before = out@;
            let picked = match &self.config.hints[i] {
                OptimizationHint::InlineFunction(n) => if kind == 0 {
                    Some(n)
                } else {
                    None
                },
                OptimizationHint::ParallelizeLoop(n) => if kind == 1 {
                    Some(n)
                } else {
                    None
                },
                OptimizationHint::VectorizeOperation(n) => if kind == 2 {
                    Some(n)
                } else {
                    None
                },
                _ => None,
            };
            match picked {
                Some(n) => {
                    out.push(n.clone());
                    proof {
                        assert(views(out@) =~= views(before).push(n@));
                    }
                },
                None => {},
            }
            i = i + 1;
        }
        proof {
            assert(self.config.hints@.take(self.config.hints@.len() as int) =~= self.config.hints@);
        }
        out
    }

    /// Write a program: analyze its nodes, adding the hints they give; then
    /// write the directives of the level, a blank line, the runtime code,
    /// and each node of the body on its own line. Gives the code written so
    /// far with the names of the hints in force.
    #[verifier::rlimit(60)]
    pub fn generate(&mut self, program: &Program) -> (r: Result<GeneratedCode, String>)
        ensures
            hint_views(final(self).config.hints@) == hint_views(old(self).config.hints@) + nodes_hints(
                program.body@,
            ),
            final(self).config.optimization_level == old(self).config.optimization_level,
            final(self).config.pre_allocate_tables == old(self).config.pre_allocate_tables,
            final(self).indent_level == old(self).indent_level,
            final(self).runtime_optimizer == old(self).runtime_optimizer,
            final(self).memory_manager == old(self).memory_manager,
            final(self).output@ == old(self).output@ + directives_text(old(self).config.optimization_level)
                + "\n"@ + runtime_helpers_text(*final(self)) + node_lines_text(
                final(self).config,
                old(self).indent_level as nat,
                program.body@,
            ),
            r matches Ok(g) && {
                &&& g.code@ == final(self).output@
                &&& views(g.optimization_info.inlined_functions@) == hint_names(final(self).config.hints@, 0)
                &&& views(g.optimization_info.parallelized_loops@) == hint_names(final(self).config.hints@, 1)
                &&& views(g.optimization_info.vectorized_ops@) == hint_names(final(self).config.hints@, 2)
            },
    {
        let ghost start = self.output@;
        let mut hints: Vec<OptimizationHint> = Vec::new();
        core::mem::swap(&mut hints, &mut self.config.hints);
        let mut analyzer = CodeAnalyzer { optimization_hints: hints };
        let ghost first = hint_views(analyzer.optimization_hints@);
        let mut i: usize = 0;
        while i < program.body.len()
            invariant
                i <= program.body.len(),
                hint_views(analyzer.optimization_hints@) == first + nodes_hints(program.body@.take(i as int)),
            decreases program.body.len() - i,
        {
            proof {
                assert(program.body@.take(i + 1).drop_last() =~= program.body@.take(i as int));
            }
            let _ = analyzer.analyze_node(&program.body[i]);
            i = i + 1;
            proof {
                assert(hint_views(analyzer.optimization_hints@) =~= first + nodes_hints(program.body@.take(i as int)));
            }
        }
        proof {
            assert(program.body@.take(program.body@.len() as int) =~= program.body@);
        }
        self.config.hints = analyzer.optimization_hints;
        let ghost before_text = self.output@;
        match self.config.optimization_level {
            OptimizationLevel::Unoptimized => {
                self.write("--!optimize 0\n");
            },
            OptimizationLevel::Basic => {
                self.write("--!optimize 1\n--!native\n");
            },
            _ => {
                self.write("--!optimize 2\n--!native\n--!strict\n");
            },
        }
        self.write("\n");
        proof {
            assert(self.output@ =~= before_text + directives_text(old(self).config.optimization_level) + "\n"@);
        }
        let ghost snap = *self;
        let _ = self.add_runtime_helpers();
        let ghost body_start = self.output@;
        proof {
            assert(body_start == snap.output@ + runtime_helpers_text(snap));
        }
        let ghost c = self.config;
        let ghost ind = self.indent_level as nat;
        let mut j: usize = 0;
        while j < program.body.len()
            invariant
                j <= program.body.len(),
                self.config == c,
                self.runtime_optimizer == old(self).runtime_optimizer,
                self.memory_manager == old(self).memory_manager,
                self.indent_level as nat == ind,
                ind == old(self).indent_level as nat,
                self.output@ == body_start + node_lines_text(c, ind, program.body@.take(j as int)),
            decreases program.body.len() - j,
        {
            proof {
                assert(program.body@.take(j + 1).drop_last() =~= program.body@.take(j as int));
            }
            let _ = self.generate_node(&program.body[j]);
            self.write("\n");
            j = j + 1;
            proof {
                assert(self.output@ =~= body_start + node_lines_text(c, ind, program.body@.take(j as int)));
            }
        }
        proof {
            assert(program.body@.take(program.body@.len() as int) =~= program.body@);
            assert(runtime_helpers_text(*self) == runtime_helpers_text(snap));
            assert(before_text == start);
            assert(self.output@ =~= start + directives_text(old(self).config.optimization_level) + "\n"@
                + runtime_helpers_text(*self) + node_lines_text(c, ind, program.body@));
        }
        let inlined_functions = self.hint_names_of(0);
        let parallelized_loops = self.hint_names_of(1);
        let vectorized_ops = self.hint_names_of(2);
        Ok(GeneratedCode {
            code: self.output.clone(),
            optimization_info: OptimizationInfo { inlined_functions, parallelized_loops, vectorized_ops },
        })
    }
}

} // verus!
