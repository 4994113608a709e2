//! A quick check of generated Luau: balanced brackets and a function
//! declaration.

use vstd::prelude::*;
use crate::text::{chars_of, decimal, usize_to_string};
use crate::text::paths::{contains_text, occurs_in};

verus! {

/// The depths of `{`, `(` and `[` after one more character, or `None` where
/// it closes one that is not open.
pub open spec fn depth_step(d: (nat, nat, nat), c: char) -> Option<(nat, nat, nat)> {
    let (b, p, k) = d;
    if c == '{' {
        Some((b + 1, p, k))
    } else if c == '}' {
        if b == 0 {
            None
        } else {
            Some(((b - 1) as nat, p, k))
        }
    } else if c == '(' {
        Some((b, p + 1, k))
    } else if c == ')' {
        if p == 0 {
            None
        } else {
            Some((b, (p - 1) as nat, k))
        }
    } else if c == '[' {
        Some((b, p, k + 1))
    } else if c == ']' {
        if k == 0 {
            None
        } else {
            Some((b, p, (k - 1) as nat))
        }
    } else {
        Some(d)
    }
}

/// The depths of braces, parentheses and brackets open at the end of
/// `code`, or `None` where some prefix closes more than it opened.
pub open spec fn bracket_depths(code: Seq<char>) -> Option<(nat, nat, nat)>
    decreases code.len(),
{
    if code.len() == 0 {
        Some((0, 0, 0))
    } else {
        match bracket_depths(code.drop_last()) {
            Some(d) => depth_step(d, code.last()),
            None => None,
        }
    }
}

/// What checking `code` answers: an error for a closing bracket, brace or
/// parenthesis that was not opened, one for those left open with their
/// counts, one where no function is declared; else success.
pub open spec fn luau_check(code: Seq<char>) -> Result<(), Seq<char>> {
    match bracket_depths(code) {
        None => Err("Syntax error: Unmatched closing bracket/brace/parenthesis"@),
        Some((b, p, k)) => if b > 0 || p > 0 || k > 0 {
            Err(
                "Syntax error: Unclosed brackets/braces/parentheses. Braces: "@ + decimal(b)
                    + ", Parentheses: "@ + decimal(p) + ", Brackets: "@ + decimal(k),
            )
        } else if !occurs_in("function "@, code) {
            Err("No function declarations found in generated code"@)
        } else {
            Ok(())
        },
    }
}

/// Check generated Luau code: brackets, braces and parentheses balance, and
/// a function is declared (which also gives it a Lua keyword).
pub fn check_luau(code: &str) -> (r: Result<(), String>)
    ensures
        match (r, luau_check(code@)) {
            (Ok(_), Ok(_)) => true,
            (Err(m), Err(e)) => m@ == e,
            _ => false,
        },
{
    let cs = chars_of(code);
    let mut braces: usize = 0;
    let mut parens: usize = 0;
    let mut brackets: usize = 0;
    let mut i: usize = 0;
    while i < cs.len()
        invariant
            i <= cs@.len(),
            cs@ == code@,
            braces <= i && parens <= i && brackets <= i,
            bracket_depths(cs@.take(i as int)) == Some((braces as nat, parens as nat, brackets as nat)),
        decreases cs@.len() - i,
    {
        proof {
            assert(cs@.take(i + 1).drop_last() =~= cs@.take(i as int));
        }
        let c = cs[i];
        let closed_unopened = if c == '{' {
            braces = braces + 1;
            false
        } else if c == '}' {
            if braces == 0 {
                true
            } else {
                braces = braces - 1;
                false
            }
        } else if c == '(' {
            parens = parens + 1;
            false
        } else if c == ')' {
            if parens == 0 {
                true
            } else {
                parens = parens - 1;
                false
            }
        } else if c == '[' {
            brackets = brackets + 1;
            false
        } else if c == ']' {
            if brackets == 0 {
                true
            } else {
                brackets = brackets - 1;
                false
            }
        } else {
            false
        };
        if closed_unopened {
            proof {
                lemma_depths_stay_failed(cs@, i as int + 1);
            }
            return Err(String::from_str("Syntax error: Unmatched closing bracket/brace/parenthesis"));
        }
        i = i + 1;
    }
    proof {
        assert(cs@.take(cs@.len() as int) =~= cs@);
    }
    if braces > 0 || parens > 0 || brackets > 0 {
        let mut m = String::from_str("Syntax error: Unclosed brackets/braces/parentheses. Braces: ");
        m.append(usize_to_string(braces).as_str());
        m.append(", Parentheses: ");
        m.append(usize_to_string(parens).as_str());
        m.append(", Brackets: ");
        m.append(usize_to_string(brackets).as_str());
        return Err(m);
    }
    if !contains_text(code, "function ") {
        return Err(String::from_str("No function declarations found in generated code"));
    }
    Ok(())
}

/// Once a prefix closes more than it opened, every longer prefix does too.
proof fn lemma_depths_stay_failed(code: Seq<char>, n: int)
    requires
        0 <= n <= code.len(),
        bracket_depths(code.take(n)) is None,
    ensures
        bracket_depths(code) is None,
    decreases code.len() - n,
{
    if n < code.len() {
        assert(code.take(n + 1).drop_last() =~= code.take(n));
        lemma_depths_stay_failed(code, n + 1);
    } else {
        assert(code.take(n) =~= code);
    }
}

} // verus!
