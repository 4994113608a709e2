//! Finding parallelization opportunities in functions, and transforming
//! functions to run in parallel.

use vstd::prelude::*;
use crate::ast::luau::{Function, LuauNode};

verus! {

/// Analyzer for finding parallelization opportunities
pub struct ParallelAnalyzer {
    /// Dependencies found between code segments
    dependencies: Vec<Dependency>,
}

/// Represents a dependency between two code segments
struct Dependency {
    from: String,
    to: String,
    kind: DependencyKind,
}

/// The kinds of dependency between code segments.
enum DependencyKind {
    DataFlow,
    ControlFlow,
    AntiDependency,
    OutputDependency,
}

/// Represents the result of parallelization analysis
pub struct ParallelizationResult {
    /// Indices of parallelizable loops
    pub parallelizable_loops: Vec<usize>,
    /// Indices of independent statements
    pub parallelizable_statements: Vec<usize>,
    /// Best parallelization strategy
    pub strategy: ParallelizationStrategy,
    /// Whether it's safe to parallelize
    pub safe_to_parallelize: bool,
}

/// Different parallelization strategies
#[derive(Debug, Clone, Copy, PartialEq, Eq, Structural)]
pub enum ParallelizationStrategy {
    /// No parallelization possible
    Sequential,
    MapReduce,
    TaskParallel,
    DataParallel,
}

/// Transforms the AST to implement parallelization
pub struct ParallelTransformer {
    analyzer: ParallelAnalyzer,
}

/// Whether a node is a loop whose iterations are independent. No node is
/// recognized as one yet.
pub open spec fn parallelizable_loop(node: LuauNode) -> bool {
    false
}

/// The strategy for the loops and statements found: data parallelism for
/// loops, else task parallelism for statements, else none.
pub open spec fn strategy_for(loops: Seq<usize>, statements: Seq<usize>) -> ParallelizationStrategy {
    if loops.len() > 0 {
        ParallelizationStrategy::DataParallel
    } else if statements.len() > 0 {
        ParallelizationStrategy::TaskParallel
    } else {
        ParallelizationStrategy::Sequential
    }
}

/// Whether a node is a parallelizable loop.
fn is_parallelizable_loop(node: &LuauNode) -> (r: bool)
    ensures
        r == parallelizable_loop(*node),
{
    false
}

/// Look for parallelizable loops among `nodes` and the blocks inside them;
/// none is recognized yet, so the result is left as it is.
fn find_parallelizable_loops(nodes: &Vec<LuauNode>, result: &mut ParallelizationResult)
    ensures
        final(result).parallelizable_loops@ == old(result).parallelizable_loops@,
        final(result).parallelizable_statements@ == old(result).parallelizable_statements@,
        final(result).strategy == old(result).strategy,
        final(result).safe_to_parallelize == old(result).safe_to_parallelize,
    decreases nodes,
{
    let mut i: usize = 0;
    while i < nodes.len()
        invariant
            i <= nodes@.len(),
            result.parallelizable_loops@ == old(result).parallelizable_loops@,
            result.parallelizable_statements@ == old(result).parallelizable_statements@,
            result.strategy == old(result).strategy,
            result.safe_to_parallelize == old(result).safe_to_parallelize,
        decreases nodes@.len() - i,
    {
        match &nodes[i] {
            LuauNode::Block(inner) => {
                proof {
                    assert(decreases_to!(nodes => nodes@));
                    assert(decreases_to!(nodes@ => nodes@[i as int]));
                }
                find_parallelizable_loops(inner, result);
            },
            node => {
                if is_parallelizable_loop(node) {
                    result.parallelizable_loops.push(i);
                }
            },
        }
        i = i + 1;
    }
}

impl ParallelAnalyzer {
    /// The number of dependencies recorded.
    pub closed spec fn dependency_count(&self) -> nat {
        self.dependencies@.len()
    }

    /// An analyzer with no dependencies recorded.
    pub fn new() -> (r: Self)
        ensures
            r.dependency_count() == 0,
    {
        ParallelAnalyzer { dependencies: Vec::new() }
    }

    /// Analyze a function for parallelization opportunities: its body's
    /// loops, and the strategy they call for.
    pub fn analyze_function(&mut self, func: &Function) -> (r: ParallelizationResult)
        ensures
            r.parallelizable_loops@.len() == 0,
            r.parallelizable_statements@.len() == 0,
            r.strategy == strategy_for(r.parallelizable_loops@, r.parallelizable_statements@),
            r.safe_to_parallelize == (r.strategy != ParallelizationStrategy::Sequential),
    {
        let mut result = ParallelizationResult {
            parallelizable_loops: Vec::new(),
            parallelizable_statements: Vec::new(),
            strategy: ParallelizationStrategy::Sequential,
            safe_to_parallelize: false,
        };
        match &*func.body {
            LuauNode::Block(nodes) => {
                find_parallelizable_loops(nodes, &mut result);
            },
            _ => {},
        }
        determine_strategy(&mut result);
        result
    }
}

/// Set the strategy the loops and statements found call for.
fn determine_strategy(result: &mut ParallelizationResult)
    ensures
        final(result).parallelizable_loops@ == old(result).parallelizable_loops@,
        final(result).parallelizable_statements@ == old(result).parallelizable_statements@,
        final(result).strategy == strategy_for(
            old(result).parallelizable_loops@,
            old(result).parallelizable_statements@,
        ),
        final(result).safe_to_parallelize == (final(result).strategy
            != ParallelizationStrategy::Sequential),
{
    if result.parallelizable_loops.len() > 0 {
        result.strategy = ParallelizationStrategy::DataParallel;
        result.safe_to_parallelize = true;
    } else if result.parallelizable_statements.len() > 0 {
        result.strategy = ParallelizationStrategy::TaskParallel;
        result.safe_to_parallelize = true;
    } else {
        result.strategy = ParallelizationStrategy::Sequential;
        result.safe_to_parallelize = false;
    }
}

impl ParallelTransformer {
    /// The number of dependencies its analyzer recorded.
    pub closed spec fn dependency_count(&self) -> nat {
        self.analyzer.dependency_count()
    }

    /// A transformer with a new analyzer.
    pub fn new() -> (r: Self)
        ensures
            r.dependency_count() == 0,
    {
        ParallelTransformer { analyzer: ParallelAnalyzer::new() }
    }

    /// Process a function and transform it for parallelization where that
    /// is safe; returns whether it was transformed. As no loop is found to
    /// be parallelizable yet, no function is.
    pub fn process_function(&mut self, func: &mut Function) -> (r: Result<bool, String>)
        ensures
            r == Ok::<bool, String>(false),
            *final(func) == *old(func),
    {
        let result = self.analyzer.analyze_function(func);
        if !result.safe_to_parallelize {
            return Ok(false);
        }
        match result.strategy {
            ParallelizationStrategy::Sequential => Ok(false),
            _ => Ok(true),
        }
    }
}

} // verus!
