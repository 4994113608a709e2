//! Optimization directives for generated Luau code.

use vstd::prelude::*;
use crate::compiler::{CompileOptions, OptimizationLevel};

verus! {

/// The directive lines that open code optimized at `level`: none at the
/// minimal level, `--!optimize 1` by default, and `--!optimize 2` with
/// `--!native` when aggressive.
pub open spec fn optimization_header(level: OptimizationLevel) -> Seq<char> {
    match level {
        OptimizationLevel::Minimal => Seq::empty(),
        OptimizationLevel::Default => "--!optimize 1\n"@,
        OptimizationLevel::Aggressive => "--!optimize 2\n--!native\n"@,
    }
}

/// Optimize Luau code: the directives of the chosen level, then the code.
pub fn optimize_code(code: &str, options: &CompileOptions) -> (r: Result<String, String>)
    ensures
        r matches Ok(s) && s@ == optimization_header(options.optimization_level) + code@,
{
    let mut optimized = String::new();
    match options.optimization_level {
        OptimizationLevel::Minimal => {},
        OptimizationLevel::Default => {
            optimized.append("--!optimize 1\n");
        },
        OptimizationLevel::Aggressive => {
            optimized.append("--!optimize 2\n--!native\n");
        },
    }
    optimized.append(code);
    Ok(optimized)
}

} // verus!
