//! Applying the analysis' hints to nodes, and keeping count of what was
//! applied and of the memory it saves.

use vstd::prelude::*;
use crate::analysis::OptimizationHint;
use crate::analysis::analyzer::{CodeAnalyzer, HintKind, hint_views, node_hints, numeric_table};
use crate::ast::luau::LuauNode;
use crate::keyed::str_eq;
use crate::text::{decimal, usize_to_string, views};

verus! {

/// What was applied to one node, and the memory it saves (negative) or
/// costs, in bytes.
pub struct OptimizedNode {
    pub optimizations_applied: Vec<String>,
    pub memory_impact: i64,
}

/// How many nodes were optimized, and the memory saved in all.
pub struct OptimizationStats {
    pub total_optimizations: usize,
    pub memory_savings: i64,
}

/// Applies the analysis' hints to nodes and records what was applied.
pub struct OptimizationManager {
    pub analyzer: CodeAnalyzer,
    /// Each optimized node under the name `node_<n>`, in order
    pub optimized_nodes: Vec<(String, OptimizedNode)>,
    pub optimization_stats: OptimizationStats,
}

/// Whether `node` calls the function `name` with at most three arguments.
pub open spec fn inlinable_call(node: LuauNode, name: Seq<char>) -> bool {
    match node {
        LuauNode::Call { func, args } => match *func {
            LuauNode::Identifier(f) => f@ == name && args@.len() <= 3,
            _ => false,
        },
        _ => false,
    }
}

/// Whether `node` is a table of more than ten fields.
pub open spec fn poolable(node: LuauNode) -> bool {
    match node {
        LuauNode::Table(t) => t.fields@.len() > 10,
        _ => false,
    }
}

/// Whether `node` is an operation on two numeric tables.
pub open spec fn vectorizable(node: LuauNode) -> bool {
    match node {
        LuauNode::Binary { left, right, .. } => match *left {
            LuauNode::Table(l) => match *right {
                LuauNode::Table(r) => numeric_table(l) && numeric_table(r),
                _ => false,
            },
            _ => false,
        },
        _ => false,
    }
}

/// The name of the optimization a hint applies to `node`, if it applies:
/// inlining to a small call of the named function, pooling to a large
/// table, vectorizing to an operation on numeric tables.
pub open spec fn applied_name(h: (HintKind, Seq<char>), node: LuauNode) -> Option<Seq<char>> {
    match h.0 {
        HintKind::Inline => if inlinable_call(node, h.1) {
            Some("inlined_function_"@ + h.1)
        } else {
            None
        },
        HintKind::Pool => if poolable(node) {
            Some("object_pooling_"@ + h.1)
        } else {
            None
        },
        HintKind::Vectorize => if vectorizable(node) {
            Some("vectorized_op_"@ + h.1)
        } else {
            None
        },
        _ => None,
    }
}

/// The optimizations the hints apply to `node`, in the hints' order.
pub open spec fn applied(hs: Seq<(HintKind, Seq<char>)>, node: LuauNode) -> Seq<Seq<char>>
    decreases hs.len(),
{
    if hs.len() == 0 {
        Seq::empty()
    } else {
        match applied_name(hs.last(), node) {
            Some(n) => applied(hs.drop_last(), node).push(n),
            None => applied(hs.drop_last(), node),
        }
    }
}

/// The memory pooling saves on a table: eight bytes a field.
pub open spec fn pool_saving(node: LuauNode) -> int {
    match node {
        LuauNode::Table(t) => -(t.fields@.len() * 8),
        _ => 0,
    }
}

/// The memory the hints' pooling saves on `node`, once per pool hint.
pub open spec fn memory_impact(hs: Seq<(HintKind, Seq<char>)>, node: LuauNode) -> int
    decreases hs.len(),
{
    if hs.len() == 0 {
        0
    } else {
        memory_impact(hs.drop_last(), node) + match hs.last().0 {
            HintKind::Pool => if poolable(node) {
                pool_saving(node)
            } else {
                0
            },
            _ => 0,
        }
    }
}

/// The hints in force once `node` is analyzed by `m`'s analyzer.
pub open spec fn hints_after(m: OptimizationManager, node: LuauNode) -> Seq<(HintKind, Seq<char>)> {
    hint_views(m.analyzer.optimization_hints@) + node_hints(node)
}

/// Whether optimizing `node` keeps `m`'s counts within machine integers.
pub open spec fn can_record(m: OptimizationManager, node: LuauNode) -> bool {
    let hs = hints_after(m, node);
    &&& poolable(node) ==> -pool_saving(node) <= i64::MAX
    &&& memory_impact(hs, node) >= i64::MIN
    &&& m.optimization_stats.memory_savings + memory_impact(hs, node) >= i64::MIN
    &&& applied(hs, node).len() > 0 ==> m.optimization_stats.total_optimizations < usize::MAX
}

/// Pooling only saves memory, so a prefix of the hints saves no more than
/// all of them.
proof fn lemma_impact_prefix(hs: Seq<(HintKind, Seq<char>)>, node: LuauNode, i: int)
    requires
        0 <= i <= hs.len(),
    ensures
        memory_impact(hs, node) <= memory_impact(hs.take(i), node) <= 0,
    decreases hs.len(),
{
    if i < hs.len() {
        assert(hs.drop_last().take(i) =~= hs.take(i));
        lemma_impact_prefix(hs.drop_last(), node, i);
    } else {
        assert(hs.take(i) =~= hs);
        lemma_impact_nonpositive(hs, node);
    }
}

proof fn lemma_impact_nonpositive(hs: Seq<(HintKind, Seq<char>)>, node: LuauNode)
    ensures
        memory_impact(hs, node) <= 0,
    decreases hs.len(),
{
    if hs.len() > 0 {
        lemma_impact_nonpositive(hs.drop_last(), node);
    }
}

fn is_inlinable_call(node: &LuauNode, name: &str) -> (r: bool)
    ensures
        r == inlinable_call(*node, name@),
{
    match node {
        LuauNode::Call { func, args } => match &**func {
            LuauNode::Identifier(f) => str_eq(f.as_str(), name) && args.len() <= 3,
            _ => false,
        },
        _ => false,
    }
}

fn is_poolable(node: &LuauNode) -> (r: bool)
    ensures
        r == poolable(*node),
{
    match node {
        LuauNode::Table(t) => t.fields.len() > 10,
        _ => false,
    }
}

fn is_vectorizable(node: &LuauNode) -> (r: bool)
    ensures
        r == vectorizable(*node),
{
    match node {
        LuauNode::Binary { left, right, .. } => match &**left {
            LuauNode::Table(l) => match &**right {
                LuauNode::Table(r) => numeric_fields(l) && numeric_fields(r),
                _ => false,
            },
            _ => false,
        },
        _ => false,
    }
}

fn numeric_fields(t: &crate::ast::luau::Table) -> (r: bool)
    ensures
        r == numeric_table(*t),
{
    let mut i: usize = 0;
    while i < t.fields.len()
        invariant
            i <= t.fields@.len(),
            forall|k: int| 0 <= k < i ==> (#[trigger] t.fields@[k]).1 is Number,
        decreases t.fields@.len() - i,
    {
        match &t.fields[i].1 {
            LuauNode::Number(_) => {},
            _ => {
                return false;
            },
        }
        i = i + 1;
    }
    true
}

/// `prefix` followed by `name`.
fn named(prefix: &str, name: &str) -> (r: String)
    ensures
        r@ == prefix@ + name@,
{
    let mut s = String::from_str(prefix);
    s.append(name);
    s
}

impl OptimizationManager {
    /// A manager that has optimized nothing.
    pub fn new() -> (r: Self)
        ensures
            r.analyzer.optimization_hints@.len() == 0,
            r.optimized_nodes@.len() == 0,
            r.optimization_stats.total_optimizations == 0,
            r.optimization_stats.memory_savings == 0,
    {
        OptimizationManager {
            analyzer: CodeAnalyzer::new(),
            optimized_nodes: Vec::new(),
            optimization_stats: OptimizationStats { total_optimizations: 0, memory_savings: 0 },
        }
    }

    /// The counts so far.
    pub fn get_stats(&self) -> (r: &OptimizationStats)
        ensures
            r == &self.optimization_stats,
    {
        &self.optimization_stats
    }

    /// The optimized nodes so far.
    pub fn get_optimized_nodes(&self) -> (r: &Vec<(String, OptimizedNode)>)
        ensures
            r == &self.optimized_nodes,
    {
        &self.optimized_nodes
    }

    /// Analyze `node`, then apply each hint in force to it. Where any
    /// applies, the node is recorded as `node_<n>` (`n` the number recorded
    /// before) with the optimizations applied and the memory they save,
    /// and the counts grow by one node and that memory. No optimization
    /// rewrites the node, which is given back.
    pub fn optimize_node(&mut self, node: LuauNode) -> (r: Result<LuauNode, String>)
        requires
            can_record(*old(self), node),
        ensures
            r == Ok::<LuauNode, String>(node),
            hint_views(final(self).analyzer.optimization_hints@) == hints_after(*old(self), node),
            ({
                let hs = hints_after(*old(self), node);
                let n = old(self).optimized_nodes@.len();
                if applied(hs, node).len() > 0 {
                    &&& final(self).optimized_nodes@.len() == n + 1
                    &&& final(self).optimized_nodes@.take(n as int) == old(self).optimized_nodes@
                    &&& final(self).optimized_nodes@[n as int].0@ == "node_"@ + decimal(n)
                    &&& views(final(self).optimized_nodes@[n as int].1.optimizations_applied@) == applied(hs, node)
                    &&& final(self).optimized_nodes@[n as int].1.memory_impact == memory_impact(hs, node)
                    &&& final(self).optimization_stats.total_optimizations
                        == old(self).optimization_stats.total_optimizations + 1
                    &&& final(self).optimization_stats.memory_savings == old(self).optimization_stats.memory_savings
                        + memory_impact(hs, node)
                } else {
                    &&& final(self).optimized_nodes == old(self).optimized_nodes
                    &&& final(self).optimization_stats == old(self).optimization_stats
                }
            }),
    {
        let _ = self.analyzer.analyze_node(&node);
        let ghost hs = hint_views(self.analyzer.optimization_hints@);
        let mut names: Vec<String> = Vec::new();
        let mut mem: i64 = 0;
        let mut i: usize = 0;
        while i < self.analyzer.optimization_hints.len()
            invariant
                i <= self.analyzer.optimization_hints@.len(),
                hs == hint_views(self.analyzer.optimization_hints@),
                hs == hints_after(*old(self), node),
                can_record(*old(self), node),
                self.optimized_nodes == old(self).optimized_nodes,
                self.optimization_stats == old(self).optimization_stats,
                views(names@) == applied(hs.take(i as int), node),
                mem as int == memory_impact(hs.take(i as int), node),
            decreases self.analyzer.optimization_hints@.len() - i,
        {
            proof {
                assert(hs.take(i + 1).drop_last() =~= hs.take(i as int));
                assert(hs.take(i + 1).last() == hs[i as int]);
                lemma_impact_prefix(hs, node, i + 1);
            }
            let ghost before = names@;
            match &self.analyzer.optimization_hints[i] {
                OptimizationHint::InlineFunction(n) => {
                    if is_inlinable_call(&node, n.as_str()) {
                        names.push(named("inlined_function_", n.as_str()));
                    }
                },
                OptimizationHint::UseObjectPool(n) => {
                    if is_poolable(&node) {
                        names.push(named("object_pooling_", n.as_str()));
                        match &node {
                            LuauNode::Table(t) => {
                                let saving: i64 = (t.fields.len() as i64) * 8;
                                mem = mem - saving;
                            },
                            _ => {},
                        }
                    }
                },
                OptimizationHint::VectorizeOperation(n) => {
                    if is_vectorizable(&node) {
                        names.push(named("vectorized_op_", n.as_str()));
                    }
                },
                _ => {},
            }
            proof {
                assert(views(names@) =~= applied(hs.take(i + 1), node));
            }
            i = i + 1;
        }
        proof {
            assert(hs.take(hs.len() as int) =~= hs);
            lemma_impact_nonpositive(hs, node);
        }
        if names.len() > 0 {
            let key = named("node_", usize_to_string(self.optimized_nodes.len()).as_str());
            self.optimized_nodes.push((key, OptimizedNode { optimizations_applied: names, memory_impact: mem }));
            self.optimization_stats.total_optimizations = self.optimization_stats.total_optimizations + 1;
            self.optimization_stats.memory_savings = self.optimization_stats.memory_savings + mem;
        }
        Ok(node)
    }
}

} // verus!
