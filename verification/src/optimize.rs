//! Optimization passes over the Luau node tree: each pass rewrites the
//! nodes it is about, and inside a program the nodes of its body.

use vstd::prelude::*;

pub mod optimized;
use crate::ast::luau::{
    Buffer,
    BufferOptimizationLevel,
    LuauNode,
    Program,
    Table,
    TableOptimizationHints,
};
use crate::compiler::{CompileOptions, OptimizationLevel};
use crate::keyed::str_eq;
use crate::text::number::{is_usize_text, parse_usize};

verus! {

/// Optimization pass that can be applied to the Luau AST
pub trait OptimizationPass {
    fn optimize(&self, node: &mut LuauNode);
}

/// Whether `after` is `before` with `step` applied to each node that is not
/// a program, and inside each program to the nodes of its body.
pub open spec fn pass_done(step: spec_fn(LuauNode, LuauNode) -> bool, before: LuauNode, after: LuauNode) -> bool
    decreases before,
{
    match before {
        LuauNode::Program(p) => after matches LuauNode::Program(q) && q.type_annotations
            == p.type_annotations && pass_done_all(step, p.body@, q.body@),
        _ => step(before, after),
    }
}

/// `pass_done` for each pair of nodes of two sequences of the same length.
pub open spec fn pass_done_all(
    step: spec_fn(LuauNode, LuauNode) -> bool,
    before: Seq<LuauNode>,
    after: Seq<LuauNode>,
) -> bool
    decreases before,
{
    &&& before.len() == after.len()
    &&& before.len() > 0 ==> {
        &&& pass_done_all(step, before.drop_last(), after.drop_last())
        &&& pass_done(step, before.last(), after.last())
    }
}

/// The level a buffer of `size` elements is optimized for: speed above a
/// thousand elements, size below a hundred, else the default.
pub open spec fn buffer_level(size: usize) -> BufferOptimizationLevel {
    if size > 1000 {
        BufferOptimizationLevel::Speed
    } else if size < 100 {
        BufferOptimizationLevel::Size
    } else {
        BufferOptimizationLevel::Default
    }
}

/// The buffer pass on one node: a buffer gets the level of its size.
pub open spec fn buffer_step(before: LuauNode, after: LuauNode) -> bool {
    match before {
        LuauNode::Buffer(b) => after matches LuauNode::Buffer(a) && a.initial_size == b.initial_size
            && a.element_type == b.element_type && a.optimization_level == buffer_level(
            b.initial_size,
        ),
        _ => after == before,
    }
}

/// Whether every key of `fields` reads as a `usize`.
pub open spec fn index_keys(fields: Seq<(String, LuauNode)>) -> bool {
    forall|i: int| 0 <= i < fields.len() ==> is_usize_text(#[trigger] fields[i].0@)
}

/// The table pass on one node: a table whose keys all read as indices is
/// marked array-like and pre-allocated to its number of fields; any other
/// table is marked not array-like.
pub open spec fn table_step(before: LuauNode, after: LuauNode) -> bool {
    match before {
        LuauNode::Table(t) => after matches LuauNode::Table(u) && {
            let h = t.optimization_hints;
            let k = u.optimization_hints;
            &&& u.fields == t.fields
            &&& k.array_like == index_keys(t.fields@)
            &&& k.pre_allocate == (if index_keys(t.fields@) {
                Some(t.fields@.len() as usize)
            } else {
                h.pre_allocate
            })
            &&& k.stable_keys == h.stable_keys
            &&& k.native_buffer_type == h.native_buffer_type
            &&& k.table_reuse == h.table_reuse
        },
        _ => after == before,
    }
}

/// Whether one of the keys of `fields` reads `key`.
pub open spec fn has_key(fields: Seq<(String, LuauNode)>, key: Seq<char>) -> bool {
    exists|i: int| 0 <= i < fields.len() && #[trigger] fields[i].0@ == key
}

/// Whether the keys of `fields` include `x`, `y` and `z`.
pub open spec fn vector3_pattern(fields: Seq<(String, LuauNode)>) -> bool {
    has_key(fields, "x"@) && has_key(fields, "y"@) && has_key(fields, "z"@)
}

/// Whether the keys of `fields` include `r`, `g` and `b`.
pub open spec fn color3_pattern(fields: Seq<(String, LuauNode)>) -> bool {
    has_key(fields, "r"@) && has_key(fields, "g"@) && has_key(fields, "b"@)
}

/// The Roblox buffer pass on one node: a table with `x`, `y` and `z` keys
/// is marked for `Vector3`, else one with `r`, `g` and `b` keys for
/// `Color3`; other tables keep their hints.
pub open spec fn roblox_step(before: LuauNode, after: LuauNode) -> bool {
    match before {
        LuauNode::Table(t) => after matches LuauNode::Table(u) && {
            let h = t.optimization_hints;
            let k = u.optimization_hints;
            &&& u.fields == t.fields
            &&& k.array_like == h.array_like
            &&& k.pre_allocate == h.pre_allocate
            &&& k.stable_keys == h.stable_keys
            &&& k.table_reuse == h.table_reuse
            &&& if vector3_pattern(t.fields@) {
                k.native_buffer_type matches Some(n) && n@ == "Vector3"@
            } else if color3_pattern(t.fields@) {
                k.native_buffer_type matches Some(n) && n@ == "Color3"@
            } else {
                k.native_buffer_type == h.native_buffer_type
            }
        },
        _ => after == before,
    }
}

/// The buffer pass as a step relation.
pub open spec fn buffer_pass() -> spec_fn(LuauNode, LuauNode) -> bool {
    |a: LuauNode, b: LuauNode| buffer_step(a, b)
}

/// The table pass as a step relation.
pub open spec fn table_pass() -> spec_fn(LuauNode, LuauNode) -> bool {
    |a: LuauNode, b: LuauNode| table_step(a, b)
}

/// The Roblox buffer pass as a step relation.
pub open spec fn roblox_pass() -> spec_fn(LuauNode, LuauNode) -> bool {
    |a: LuauNode, b: LuauNode| roblox_step(a, b)
}

/// The passes that rewrite nodes.
#[derive(Clone, Copy)]
enum Step {
    Buffer,
    Table,
    Roblox,
}

spec fn step_of(s: Step) -> spec_fn(LuauNode, LuauNode) -> bool {
    match s {
        Step::Buffer => buffer_pass(),
        Step::Table => table_pass(),
        Step::Roblox => roblox_pass(),
    }
}

/// The optimization level for a buffer of `size` elements.
fn optimize_buffer(size: usize) -> (r: BufferOptimizationLevel)
    ensures
        r == buffer_level(size),
{
    if size > 1000 {
        BufferOptimizationLevel::Speed
    } else if size < 100 {
        BufferOptimizationLevel::Size
    } else {
        BufferOptimizationLevel::Default
    }
}

/// Whether all keys of `fields` read as indices.
fn all_index_keys(fields: &Vec<(String, LuauNode)>) -> (r: bool)
    ensures
        r == index_keys(fields@),
{
    let mut i: usize = 0;
    while i < fields.len()
        invariant
            i <= fields@.len(),
            forall|k: int| 0 <= k < i ==> is_usize_text(#[trigger] fields@[k].0@),
        decreases fields@.len() - i,
    {
        if parse_usize(fields[i].0.as_str()).is_none() {
            return false;
        }
        i = i + 1;
    }
    true
}

/// Whether one of the keys of `fields` reads `key`.
fn find_field_key(fields: &Vec<(String, LuauNode)>, key: &str) -> (r: bool)
    ensures
        r == has_key(fields@, key@),
{
    let mut i: usize = 0;
    while i < fields.len()
        invariant
            i <= fields@.len(),
            forall|k: int| 0 <= k < i ==> #[trigger] fields@[k].0@ != key@,
        decreases fields@.len() - i,
    {
        if str_eq(fields[i].0.as_str(), key) {
            return true;
        }
        i = i + 1;
    }
    false
}

/// Whether the keys of `fields` include `x`, `y` and `z`.
fn is_vector3_pattern(fields: &Vec<(String, LuauNode)>) -> (r: bool)
    ensures
        r == vector3_pattern(fields@),
{
    find_field_key(fields, "x") && find_field_key(fields, "y") && find_field_key(fields, "z")
}

/// Whether the keys of `fields` include `r`, `g` and `b`.
fn is_color3_pattern(fields: &Vec<(String, LuauNode)>) -> (r: bool)
    ensures
        r == color3_pattern(fields@),
{
    find_field_key(fields, "r") && find_field_key(fields, "g") && find_field_key(fields, "b")
}

/// One step of a pass on a node that is not a program.
fn apply_step(s: Step, node: LuauNode) -> (r: LuauNode)
    ensures
        (step_of(s))(node, r),
{
    match s {
        Step::Buffer => match node {
            LuauNode::Buffer(b) => {
                let level = optimize_buffer(b.initial_size);
                LuauNode::Buffer(
                    Buffer {
                        initial_size: b.initial_size,
                        element_type: b.element_type,
                        optimization_level: level,
                    },
                )
            },
            other => other,
        },
        Step::Table => match node {
            LuauNode::Table(t) => {
                let array_like = all_index_keys(&t.fields);
                let len = t.fields.len();
                let h = t.optimization_hints;
                let pre_allocate = if array_like {
                    Some(len)
                } else {
                    h.pre_allocate
                };
                LuauNode::Table(
                    Table {
                        fields: t.fields,
                        optimization_hints: TableOptimizationHints {
                            pre_allocate,
                            array_like,
                            stable_keys: h.stable_keys,
                            native_buffer_type: h.native_buffer_type,
                            table_reuse: h.table_reuse,
                        },
                    },
                )
            },
            other => other,
        },
        Step::Roblox => match node {
            LuauNode::Table(t) => {
                let vector = is_vector3_pattern(&t.fields);
                let color = is_color3_pattern(&t.fields);
                let h = t.optimization_hints;
                let native = if vector {
                    Some(String::from_str("Vector3"))
                } else if color {
                    Some(String::from_str("Color3"))
                } else {
                    h.native_buffer_type
                };
                LuauNode::Table(
                    Table {
                        fields: t.fields,
                        optimization_hints: TableOptimizationHints {
                            pre_allocate: h.pre_allocate,
                            array_like: h.array_like,
                            stable_keys: h.stable_keys,
                            native_buffer_type: native,
                            table_reuse: h.table_reuse,
                        },
                    },
                )
            },
            other => other,
        },
    }
}

/// A pass on a node: its step, and inside a program the pass on each node
/// of its body.
fn rewrite(s: Step, node: LuauNode) -> (r: LuauNode)
    ensures
        pass_done(step_of(s), node, r),
    decreases node, 1nat,
{
    match node {
        LuauNode::Program(p) => {
            let Program { body, type_annotations } = p;
            let out = rewrite_all(s, body);
            LuauNode::Program(Program { body: out, type_annotations })
        },
        other => apply_step(s, other),
    }
}

/// A pass on each node of a sequence.
fn rewrite_all(s: Step, nodes: Vec<LuauNode>) -> (r: Vec<LuauNode>)
    ensures
        pass_done_all(step_of(s), nodes@, r@),
    decreases nodes, 0nat,
{
    let ghost all = nodes@;
    let mut rest = nodes;
    let mut out: Vec<LuauNode> = Vec::new();
    while rest.len() > 0
        invariant
            all == nodes@,
            out@.len() + rest@.len() == all.len(),
            rest@ == all.skip(out@.len() as int),
            pass_done_all(step_of(s), all.take(out@.len() as int), out@),
        decreases rest@.len(),
    {
        let ghost k = out@.len() as int;
        let n = rest.remove(0);
        assert(n == all[k]);
        proof {
            assert(decreases_to!(nodes => nodes@));
            assert(decreases_to!(nodes@ => nodes@[k]));
        }
        let m = rewrite(s, n);
        let ghost before = out@;
        out.push(m);
        proof {
            assert(all.take(k + 1).drop_last() =~= all.take(k));
            assert(out@.drop_last() =~= before);
            assert(rest@ =~= all.skip(out@.len() as int));
        }
    }
    proof {
        assert(all.take(all.len() as int) =~= all);
    }
    out
}

/// Optimizes buffer operations for better performance
pub struct BufferOptimizer;

impl OptimizationPass for BufferOptimizer {
    /// Each buffer gets the optimization level of its size.
    fn optimize(&self, node: &mut LuauNode)
        ensures
            pass_done(buffer_pass(), *old(node), *final(node)),
    {
        let mut taken = LuauNode::Boolean(false);
        std::mem::swap(&mut taken, node);
        *node = rewrite(Step::Buffer, taken);
    }
}

/// Optimizes table operations and memory usage
pub struct TableOptimizer;

impl OptimizationPass for TableOptimizer {
    /// Each table whose keys are all indices is marked array-like and
    /// pre-allocated.
    fn optimize(&self, node: &mut LuauNode)
        ensures
            pass_done(table_pass(), *old(node), *final(node)),
    {
        let mut taken = LuauNode::Boolean(false);
        std::mem::swap(&mut taken, node);
        *node = rewrite(Step::Table, taken);
    }
}

/// Optimizes table usage with Roblox's native buffers
pub struct RobloxBufferOptimizer;

impl OptimizationPass for RobloxBufferOptimizer {
    /// Each table that looks like a vector or a color is marked for the
    /// native Roblox type.
    fn optimize(&self, node: &mut LuauNode)
        ensures
            pass_done(roblox_pass(), *old(node), *final(node)),
    {
        let mut taken = LuauNode::Boolean(false);
        std::mem::swap(&mut taken, node);
        *node = rewrite(Step::Roblox, taken);
    }
}

/// Optimizes object creation with pooling patterns
pub struct ObjectPoolOptimizer;

impl OptimizationPass for ObjectPoolOptimizer {
    /// No pooling pattern is recognized yet: the tree is left as it is.
    fn optimize(&self, node: &mut LuauNode)
        ensures
            *final(node) == *old(node),
    {
    }
}

/// Optimizes loops to reduce garbage collection pressure
pub struct LoopOptimizer;

impl OptimizationPass for LoopOptimizer {
    /// No loop rewrite is applied yet: the tree is left as it is.
    fn optimize(&self, node: &mut LuauNode)
        ensures
            *final(node) == *old(node),
    {
    }
}

/// Optimizes conditional statements to reduce branching complexity
pub struct ConditionalOptimizer;

impl OptimizationPass for ConditionalOptimizer {
    /// No conditional is simplified yet: the tree is left as it is.
    fn optimize(&self, node: &mut LuauNode)
        ensures
            *final(node) == *old(node),
    {
    }
}

/// Whether `after` is `before` after the pipeline's passes: buffers,
/// tables, object pools, loops, conditionals and Roblox buffers, in turn
/// (the pool, loop and conditional passes change nothing yet).
pub open spec fn pipeline_done(before: LuauNode, after: LuauNode) -> bool {
    exists|a: LuauNode, b: LuauNode|
        #![trigger pass_done(buffer_pass(), before, a), pass_done(table_pass(), a, b)]
        pass_done(buffer_pass(), before, a) && pass_done(table_pass(), a, b) && pass_done(roblox_pass(), b, after)
}

/// Runs the optimization passes one after the other.
pub struct OptimizationPipeline {
    /// How many passes the pipeline runs
    pub pass_count: usize,
}

/// Runs the buffer (0), table (1) or Roblox buffer (2) pass on a program
/// in place.
fn run_on_program(program: &mut Program, step: u8)
    requires
        step <= 2,
    ensures
        step == 0 ==> pass_done(buffer_pass(), LuauNode::Program(*old(program)), LuauNode::Program(*final(program))),
        step == 1 ==> pass_done(table_pass(), LuauNode::Program(*old(program)), LuauNode::Program(*final(program))),
        step == 2 ==> pass_done(roblox_pass(), LuauNode::Program(*old(program)), LuauNode::Program(*final(program))),
{
    let mut taken = Program { body: Vec::new(), type_annotations: Vec::new() };
    std::mem::swap(&mut taken, program);
    let ghost before = taken;
    let mut node = LuauNode::Program(taken);
    if step == 0 {
        BufferOptimizer.optimize(&mut node);
    } else if step == 1 {
        TableOptimizer.optimize(&mut node);
    } else {
        RobloxBufferOptimizer.optimize(&mut node);
    }
    match node {
        LuauNode::Program(q) => {
            *program = q;
        },
        _ => {},
    }
}

impl OptimizationPipeline {
    /// The pipeline of the six Roblox passes.
    pub fn new() -> (r: Self)
        ensures
            r.pass_count == 6,
    {
        OptimizationPipeline { pass_count: 6 }
    }

    /// Apply each pass in turn to the program; the object pool, loop and
    /// conditional passes leave it as it is.
    pub fn optimize(&self, program: &mut Program)
        ensures
            pipeline_done(LuauNode::Program(*old(program)), LuauNode::Program(*final(program))),
    {
        let ghost p0 = *program;
        run_on_program(program, 0);
        let ghost p1 = *program;
        run_on_program(program, 1);
        let ghost p2 = *program;
        run_on_program(program, 2);
        proof {
            assert(pass_done(buffer_pass(), LuauNode::Program(p0), LuauNode::Program(p1)));
            assert(pass_done(table_pass(), LuauNode::Program(p1), LuauNode::Program(p2)));
        }
    }
}

/// Apply optimizations to a Luau program by the compile options' level:
/// the buffer pass at the minimal level, the pipeline at the default
/// level, and the pipeline then the Roblox buffer pass again at the
/// aggressive level.
pub fn optimize_program(program: &mut Program, options: &CompileOptions)
    ensures
        match options.optimization_level {
            OptimizationLevel::Minimal => pass_done(
                buffer_pass(),
                LuauNode::Program(*old(program)),
                LuauNode::Program(*final(program)),
            ),
            OptimizationLevel::Default => pipeline_done(
                LuauNode::Program(*old(program)),
                LuauNode::Program(*final(program)),
            ),
            OptimizationLevel::Aggressive => exists|m: Program|
                #![trigger pipeline_done(LuauNode::Program(*old(program)), LuauNode::Program(m))]
                pipeline_done(LuauNode::Program(*old(program)), LuauNode::Program(m)) && pass_done(
                    roblox_pass(),
                    LuauNode::Program(m),
                    LuauNode::Program(*final(program)),
                ),
        },
{
    let pipeline = OptimizationPipeline::new();
    match options.optimization_level {
        OptimizationLevel::Minimal => {
            run_on_program(program, 0);
        },
        OptimizationLevel::Default => {
            pipeline.optimize(program);
        },
        OptimizationLevel::Aggressive => {
            pipeline.optimize(program);
            let ghost m = *program;
            run_on_program(program, 2);
            proof {
                assert(pipeline_done(LuauNode::Program(*old(program)), LuauNode::Program(m)));
            }
        },
    }
}

} // verus!
