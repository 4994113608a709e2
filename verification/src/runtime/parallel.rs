//! Automatic parallelization of functions onto the runtime's parallel
//! helpers.

use vstd::prelude::*;
use crate::ast::luau::{Function, LuauNode};

verus! {

/// The ways a function can be parallelized.
#[derive(Debug, Clone, Copy, PartialEq, Eq, Structural)]
pub enum ParallelizationStrategy {
    /// No parallelization possible
    Sequential,
    MapReduce,
    TaskParallel,
    DataParallel,
}

/// The strategy a function can be parallelized with. No function is found
/// free of shared mutable state and side effects yet: the answer is always
/// that none applies.
pub fn analyze_for_parallelization(func: &Function) -> (r: ParallelizationStrategy)
    ensures
        r == ParallelizationStrategy::Sequential,
{
    ParallelizationStrategy::Sequential
}

/// Rewrite a function onto the runtime's parallel helpers where a strategy
/// applies; returns whether it was rewritten. As none applies yet, the
/// function is left as it is.
pub fn parallelize_function(func: &mut Function) -> (r: Result<bool, String>)
    ensures
        r == Ok::<bool, String>(false),
        *final(func) == *old(func),
{
    match analyze_for_parallelization(func) {
        ParallelizationStrategy::Sequential => Ok(false),
        _ => Ok(true),
    }
}

/// Whether a node (a function) could benefit from parallelization.
pub fn has_parallel_opportunity(node: &LuauNode) -> (r: bool)
    ensures
        !r,
{
    match node {
        LuauNode::Function(func) => match analyze_for_parallelization(func) {
            ParallelizationStrategy::Sequential => false,
            _ => true,
        },
        _ => false,
    }
}

} // verus!
