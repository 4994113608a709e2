//! Finding optimization opportunities in a Luau node tree: tables worth
//! pooling, loops whose iterations are independent, and operations on
//! numeric arrays.

use vstd::prelude::*;
use crate::analysis::OptimizationHint;
use crate::ast::luau::{LuauNode, Table};
use crate::codegen::contains_text;
use crate::text::{decimal, usize_to_string, views};

verus! {

/// The kind of an optimization hint.
pub enum HintKind {
    Inline,
    Cache,
    Pool,
    Parallel,
    Vectorize,
}

/// A hint as its kind and the name it carries.
pub open spec fn hint_view(h: OptimizationHint) -> (HintKind, Seq<char>) {
    match h {
        OptimizationHint::InlineFunction(n) => (HintKind::Inline, n@),
        OptimizationHint::CacheValue(n) => (HintKind::Cache, n@),
        OptimizationHint::UseObjectPool(n) => (HintKind::Pool, n@),
        OptimizationHint::ParallelizeLoop(n) => (HintKind::Parallel, n@),
        OptimizationHint::VectorizeOperation(n) => (HintKind::Vectorize, n@),
    }
}

/// Hints as kinds and names.
pub open spec fn hint_views(hs: Seq<OptimizationHint>) -> Seq<(HintKind, Seq<char>)> {
    Seq::new(hs.len(), |i: int| hint_view(hs[i]))
}

/// Whether every value of a table is a number.
pub open spec fn numeric_table(t: Table) -> bool {
    forall|i: int| 0 <= i < t.fields@.len() ==> (#[trigger] t.fields@[i]).1 is Number
}

/// Whether a table is worth pooling: more than ten fields and a size to
/// pre-allocate.
pub open spec fn pool_worthy(t: Table) -> bool {
    t.fields@.len() > 10 && match t.optimization_hints.pre_allocate {
        Some(n) => n > 0,
        None => false,
    }
}

/// The name a node is, if it is an identifier.
pub open spec fn ident_name(n: LuauNode) -> Set<Seq<char>> {
    match n {
        LuauNode::Identifier(x) => set![x@],
        _ => Set::empty(),
    }
}

/// The identifiers among call arguments.
pub open spec fn ident_args(args: Seq<LuauNode>) -> Set<Seq<char>>
    decreases args.len(),
{
    if args.len() == 0 {
        Set::empty()
    } else {
        ident_args(args.drop_last()).union(ident_name(args.last()))
    }
}

/// The variable a node writes: the identifier on the left of an operation.
pub open spec fn node_writes(n: LuauNode) -> Set<Seq<char>> {
    match n {
        LuauNode::Binary { left, .. } => ident_name(*left),
        _ => Set::empty(),
    }
}

/// The variables a node reads: the identifier on the right of an
/// operation, and the identifiers passed to a call.
pub open spec fn node_reads(n: LuauNode) -> Set<Seq<char>> {
    match n {
        LuauNode::Binary { right, .. } => ident_name(*right),
        LuauNode::Call { args, .. } => ident_args(args@),
        _ => Set::empty(),
    }
}

/// The variables the nodes write.
pub open spec fn writes_of(ns: Seq<LuauNode>) -> Set<Seq<char>>
    decreases ns.len(),
{
    if ns.len() == 0 {
        Set::empty()
    } else {
        writes_of(ns.drop_last()).union(node_writes(ns.last()))
    }
}

/// The variables the nodes read.
pub open spec fn reads_of(ns: Seq<LuauNode>) -> Set<Seq<char>>
    decreases ns.len(),
{
    if ns.len() == 0 {
        Set::empty()
    } else {
        reads_of(ns.drop_last()).union(node_reads(ns.last()))
    }
}

/// Whether a loop body can run its iterations in parallel: at least two
/// nodes, and no variable both written and read.
pub open spec fn parallelizable(ns: Seq<LuauNode>) -> bool {
    ns.len() >= 2 && forall|x: Seq<char>| !(#[trigger] writes_of(ns).contains(x) && reads_of(ns).contains(x))
}

/// The hints for the blocks of a function body: `loop_<i>` for each block
/// at position `i` that can run in parallel.
pub open spec fn loop_hints(ns: Seq<LuauNode>) -> Seq<(HintKind, Seq<char>)>
    decreases ns.len(),
{
    if ns.len() == 0 {
        Seq::empty()
    } else {
        loop_hints(ns.drop_last()) + match ns.last() {
            LuauNode::Block(bn) => if parallelizable(bn@) {
                seq![(HintKind::Parallel, "loop_"@ + decimal((ns.len() - 1) as nat))]
            } else {
                Seq::empty()
            },
            _ => Seq::empty(),
        }
    }
}

/// The hints the analysis of a node adds, in order: a function's parallel
/// loops; those of the nodes of a block, of an operation's operands (then
/// `array_operation` where both are numeric tables) and of a call's callee
/// and arguments; `table_pool` for a table worth pooling.
pub open spec fn node_hints(n: LuauNode) -> Seq<(HintKind, Seq<char>)>
    decreases n, 1nat,
{
    match n {
        LuauNode::Function(f) => match *f.body {
            LuauNode::Block(nodes) => loop_hints(nodes@),
            _ => Seq::empty(),
        },
        LuauNode::Block(nodes) => nodes_hints(nodes@),
        LuauNode::Binary { left, right, .. } => node_hints(*left) + node_hints(*right) + match *left {
            LuauNode::Table(a) => match *right {
                LuauNode::Table(b) => if numeric_table(a) && numeric_table(b) {
                    seq![(HintKind::Vectorize, "array_operation"@)]
                } else {
                    Seq::empty()
                },
                _ => Seq::empty(),
            },
            _ => Seq::empty(),
        },
        LuauNode::Call { func, args } => node_hints(*func) + nodes_hints(args@),
        LuauNode::Table(t) => if pool_worthy(t) {
            seq![(HintKind::Pool, "table_pool"@)]
        } else {
            Seq::empty()
        },
        _ => Seq::empty(),
    }
}

/// The hints the analysis of nodes adds, one node after the other.
pub open spec fn nodes_hints(ns: Seq<LuauNode>) -> Seq<(HintKind, Seq<char>)>
    decreases ns, 0nat,
{
    if ns.len() == 0 {
        Seq::empty()
    } else {
        nodes_hints(ns.drop_last()) + node_hints(ns.last())
    }
}

/// Whether the names of `v` and `s` hold the same names.
pub open spec fn same_names(v: Seq<String>, s: Set<Seq<char>>) -> bool {
    forall|x: Seq<char>| #[trigger] views(v).contains(x) <==> s.contains(x)
}

/// Adds the name of an identifier node to `out`.
fn push_ident(out: &mut Vec<String>, n: &LuauNode)
    ensures
        forall|x: Seq<char>| #[trigger] views(final(out)@).contains(x) <==> (views(old(out)@).contains(x)
            || ident_name(*n).contains(x)),
{
    let ghost before = out@;
    match n {
        LuauNode::Identifier(x) => {
            out.push(x.clone());
            proof {
                assert(views(out@) =~= views(before).push(x@));
                assert forall|y: Seq<char>| #[trigger] views(out@).contains(y) <==> (views(before).contains(y)
                    || ident_name(*n).contains(y)) by {
                    if views(out@).contains(y) {
                        let k = choose|k: int| 0 <= k < views(out@).len() && views(out@)[k] == y;
                        if k < before.len() {
                            assert(views(before)[k] == y);
                        }
                    }
                    if views(before).contains(y) {
                        let k = choose|k: int| 0 <= k < views(before).len() && views(before)[k] == y;
                        assert(views(out@)[k] == y);
                    }
                    if ident_name(*n).contains(y) {
                        assert(views(out@)[before.len() as int] == y);
                    }
                }
            }
        },
        _ => {},
    }
}

/// The variables a loop body writes and reads.
fn collect_access(ns: &Vec<LuauNode>) -> (r: (Vec<String>, Vec<String>))
    ensures
        same_names(r.0@, writes_of(ns@)),
        same_names(r.1@, reads_of(ns@)),
{
    let mut writes: Vec<String> = Vec::new();
    let mut reads: Vec<String> = Vec::new();
    let mut i: usize = 0;
    while i < ns.len()
        invariant
            i <= ns.len(),
            same_names(writes@, writes_of(ns@.take(i as int))),
            same_names(reads@, reads_of(ns@.take(i as int))),
        decreases ns.len() - i,
    {
        proof {
            assert(ns@.take(i + 1).drop_last() =~= ns@.take(i as int));
        }
        match &ns[i] {
            LuauNode::Binary { left, right, .. } => {
                push_ident(&mut writes, left);
                push_ident(&mut reads, right);
            },
            LuauNode::Call { args, .. } => {
                let ghost r0 = reads@;
                let mut j: usize = 0;
                while j < args.len()
                    invariant
                        j <= args.len(),
                        forall|x: Seq<char>| #[trigger] views(reads@).contains(x) <==> (views(r0).contains(x)
                            || ident_args(args@.take(j as int)).contains(x)),
                    decreases args.len() - j,
                {
                    proof {
                        assert(args@.take(j + 1).drop_last() =~= args@.take(j as int));
                    }
                    push_ident(&mut reads, &args[j]);
                    j = j + 1;
                }
                proof {
                    assert(args@.take(args.len() as int) =~= args@);
                }
            },
            _ => {},
        }
        i = i + 1;
    }
    proof {
        assert(ns@.take(ns.len() as int) =~= ns@);
    }
    (writes, reads)
}

/// Whether a loop body can run its iterations in parallel.
fn is_parallelizable_loop(ns: &Vec<LuauNode>) -> (r: bool)
    ensures
        r == parallelizable(ns@),
{
    if ns.len() < 2 {
        return false;
    }
    let (writes, reads) = collect_access(ns);
    let mut i: usize = 0;
    while i < writes.len()
        invariant
            i <= writes.len(),
            same_names(writes@, writes_of(ns@)),
            same_names(reads@, reads_of(ns@)),
            forall|k: int| 0 <= k < i ==> !views(reads@).contains(#[trigger] views(writes@)[k]),
        decreases writes.len() - i,
    {
        if contains_text(&reads, writes[i].as_str()) {
            proof {
                let x = views(writes@)[i as int];
                assert(views(writes@).contains(x));
                assert(writes_of(ns@).contains(x) && reads_of(ns@).contains(x));
            }
            return false;
        }
        i = i + 1;
    }
    proof {
        assert forall|x: Seq<char>| !(#[trigger] writes_of(ns@).contains(x) && reads_of(ns@).contains(x)) by {
            if writes_of(ns@).contains(x) {
                assert(views(writes@).contains(x));
                let k = choose|k: int| 0 <= k < views(writes@).len() && views(writes@)[k] == x;
                assert(!views(reads@).contains(views(writes@)[k]));
            }
        }
    }
    true
}

/// Whether every value of a table is a number.
fn is_numeric_array(t: &Table) -> (r: bool)
    ensures
        r == numeric_table(*t),
{
    let mut i: usize = 0;
    while i < t.fields.len()
        invariant
            i <= t.fields@.len(),
            forall|k: int| 0 <= k < i ==> (#[trigger] t.fields@[k]).1 is Number,
        decreases t.fields@.len() - i,
    {
        match &t.fields[i].1 {
            LuauNode::Number(_) => {},
            _ => {
                return false;
            },
        }
        i = i + 1;
    }
    true
}

/// Whether a table is worth pooling.
fn should_use_object_pool(t: &Table) -> (r: bool)
    ensures
        r == pool_worthy(*t),
{
    t.fields.len() > 10 && match t.optimization_hints.pre_allocate {
        Some(n) => n > 0,
        None => false,
    }
}

/// Finds optimization opportunities in a node tree.
pub struct CodeAnalyzer {
    /// The hints found so far, in order
    pub optimization_hints: Vec<OptimizationHint>,
}

impl CodeAnalyzer {
    /// An analyzer that has found nothing.
    pub fn new() -> (r: Self)
        ensures
            r.optimization_hints@.len() == 0,
    {
        CodeAnalyzer { optimization_hints: Vec::new() }
    }

    /// The hints found so far.
    pub fn get_optimization_hints(&self) -> (r: &[OptimizationHint])
        ensures
            r@ == self.optimization_hints@,
    {
        self.optimization_hints.as_slice()
    }

    fn add_hint(&mut self, h: OptimizationHint)
        ensures
            hint_views(final(self).optimization_hints@) == hint_views(old(self).optimization_hints@).push(
                hint_view(h),
            ),
    {
        self.optimization_hints.push(h);
        proof {
            assert(hint_views(self.optimization_hints@) =~= hint_views(old(self).optimization_hints@).push(
                hint_view(h),
            ));
        }
    }

    /// Analyze a node and add the hints it gives (see `node_hints`).
    pub fn analyze_node(&mut self, node: &LuauNode) -> (r: Result<(), String>)
        ensures
            r is Ok,
            hint_views(final(self).optimization_hints@) == hint_views(old(self).optimization_hints@)
                + node_hints(*node),
        decreases node, 1nat,
    {
        let ghost start = hint_views(self.optimization_hints@);
        match node {
            LuauNode::Function(f) => {
                match &*f.body {
                    LuauNode::Block(nodes) => {
                        self.find_parallel_loops(nodes);
                    },
                    _ => {},
                }
            },
            LuauNode::Block(nodes) => {
                self.analyze_nodes(nodes);
            },
            LuauNode::Binary { left, right, .. } => {
                let _ = self.analyze_node(left);
                let _ = self.analyze_node(right);
                match &**left {
                    LuauNode::Table(a) => match &**right {
                        LuauNode::Table(b) => {
                            if is_numeric_array(a) && is_numeric_array(b) {
                                self.add_hint(OptimizationHint::VectorizeOperation(String::from_str("array_operation")));
                            }
                        },
                        _ => {},
                    },
                    _ => {},
                }
            },
            LuauNode::Call { func, args } => {
                let _ = self.analyze_node(func);
                self.analyze_nodes(args);
            },
            LuauNode::Table(t) => {
                if should_use_object_pool(t) {
                    self.add_hint(OptimizationHint::UseObjectPool(String::from_str("table_pool")));
                }
            },
            _ => {},
        }
        proof {
            assert(hint_views(self.optimization_hints@) =~= start + node_hints(*node));
        }
        Ok(())
    }

    /// Analyze nodes one after the other.
    fn analyze_nodes(&mut self, ns: &Vec<LuauNode>)
        ensures
            hint_views(final(self).optimization_hints@) == hint_views(old(self).optimization_hints@)
                + nodes_hints(ns@),
        decreases ns, 0nat,
    {
        let ghost start = hint_views(self.optimization_hints@);
        let mut i: usize = 0;
        while i < ns.len()
            invariant
                i <= ns.len(),
                hint_views(self.optimization_hints@) == start + nodes_hints(ns@.take(i as int)),
            decreases ns.len() - i,
        {
            proof {
                assert(ns@.take(i + 1).drop_last() =~= ns@.take(i as int));
                assert(decreases_to!(ns => ns@[i as int]));
            }
            let _ = self.analyze_node(&ns[i]);
            i = i + 1;
            proof {
                assert(hint_views(self.optimization_hints@) =~= start + nodes_hints(ns@.take(i as int)));
            }
        }
        proof {
            assert(ns@.take(ns.len() as int) =~= ns@);
        }
    }

    /// Add `loop_<i>` for each block at position `i` that can run in
    /// parallel.
    fn find_parallel_loops(&mut self, ns: &Vec<LuauNode>)
        ensures
            hint_views(final(self).optimization_hints@) == hint_views(old(self).optimization_hints@)
                + loop_hints(ns@),
    {
        let ghost start = hint_views(self.optimization_hints@);
        let mut i: usize = 0;
        while i < ns.len()
            invariant
                i <= ns.len(),
                hint_views(self.optimization_hints@) == start + loop_hints(ns@.take(i as int)),
            decreases ns.len() - i,
        {
            proof {
                assert(ns@.take(i + 1).drop_last() =~= ns@.take(i as int));
            }
            match &ns[i] {
                LuauNode::Block(bn) => {
                    if is_parallelizable_loop(bn) {
                        let mut name = String::from_str("loop_");
                        let n = usize_to_string(i);
                        name.append(n.as_str());
                        self.add_hint(OptimizationHint::ParallelizeLoop(name));
                    }
                },
                _ => {},
            }
            i = i + 1;
            proof {
                assert(hint_views(self.optimization_hints@) =~= start + loop_hints(ns@.take(i as int)));
            }
        }
        proof {
            assert(ns@.take(ns.len() as int) =~= ns@);
        }
    }
}

} // verus!
