//! Translation of the statements and expressions of Rust function bodies:
//! into the Luau syntax tree the compiler prints (`translate_*`), and into
//! the node tree of `ast::luau` (`RustToLuauTransformer`).

use vstd::prelude::*;
use crate::keyed::str_eq;
use crate::luau::{LuauExpr, LuauStmt, LuauTable};
use crate::syntax::{LetPattern, RustExpr, RustStmt};
use crate::luau::generator::{block_text, deeper, expr_text, expr_texts, field_texts, stmt_text};
use crate::text::{decimal, join, join_strings, usize_to_string, views};
use crate::ast::luau::{Function, LuauNode, LuauValue, Parameter, Program, Table, TableOptimizationHints};
use crate::syntax::{ExprView, PatView, pat_view, FnParam, ImplMember, ItemParts, RustFn, StmtView, expr_reads, expr_view, exprs_reads, file_item_texts, parts_reads, read_depth, read_parts, rust_file, stmt_reads, stmt_view, stmts_reads};
use crate::transformer::struct_params;

verus! {

/// Luau's spelling of a Rust binary operator: `and`, `or` and `~=` for
/// `&&`, `||` and `!=`; the others are spelled alike.
pub open spec fn luau_op(op: Seq<char>) -> Seq<char> {
    if op == "&&"@ {
        "and"@
    } else if op == "||"@ {
        "or"@
    } else if op == "!="@ {
        "~="@
    } else {
        op
    }
}

/// The first of two possible errors.
pub open spec fn first_error(a: Option<Seq<char>>, b: Option<Seq<char>>) -> Option<Seq<char>> {
    match a {
        Some(m) => Some(m),
        None => b,
    }
}

/// The message for an expression that has no Luau value form here.
pub open spec fn unsupported_expr(text: Seq<char>) -> Seq<char> {
    "Unsupported expression type: "@ + text
}

/// The error translating `e` as a value fails with, if any; operands are
/// read left to right.
pub open spec fn expr_error(e: RustExpr) -> Option<Seq<char>>
    decreases e,
{
    match e {
        RustExpr::Paren(x, _) => expr_error(*x),
        RustExpr::Binary(l, _, r) => first_error(expr_error(*l), expr_error(*r)),
        RustExpr::Array(es) => exprs_error(es@),
        RustExpr::Tuple(es) => exprs_error(es@),
        RustExpr::Call(f, args) => first_error(expr_error(*f), exprs_error(args@)),
        RustExpr::If(..) => Some(unsupported_expr("if used as a value"@)),
        RustExpr::Block(..) => Some(unsupported_expr("block used as a value"@)),
        RustExpr::Assign(..) => Some(unsupported_expr("assignment used as a value"@)),
        RustExpr::Return(..) => Some(unsupported_expr("return used as a value"@)),
        RustExpr::MethodCall(_, _, _, t) => Some(unsupported_expr(t@)),
        RustExpr::OtherLit(t) => Some(unsupported_expr(t@)),
        RustExpr::BadInt(m) => Some(m@),
        RustExpr::Unsupported(t) => Some(unsupported_expr(t@)),
        _ => None,
    }
}

/// The first error among expressions translated in order.
pub open spec fn exprs_error(es: Seq<RustExpr>) -> Option<Seq<char>>
    decreases es,
{
    if es.len() == 0 {
        None
    } else {
        first_error(exprs_error(es.drop_last()), expr_error(es.last()))
    }
}

/// Whether `out` is the Luau value of the expression `e`: literals stay
/// literals (a float keeps its digits), a path becomes the variable of its
/// segments joined with `.`, operators are spelled as Luau spells them,
/// arrays and tuples become tables of their items, calls stay calls.
pub open spec fn expr_ok(e: RustExpr, out: LuauExpr) -> bool
    decreases e,
{
    match e {
        RustExpr::Int(n) => out == LuauExpr::Number(n),
        RustExpr::Float(t) => out matches LuauExpr::Raw(x) && x@ == t@,
        RustExpr::Bool(b) => out == LuauExpr::Boolean(b),
        RustExpr::Str(t) => out matches LuauExpr::String(x) && x@ == t@,
        RustExpr::Path(segs, _) => out matches LuauExpr::Variable(x) && x@ == join(views(segs@), "."@),
        RustExpr::Paren(x, _) => out matches LuauExpr::Paren(y) && expr_ok(*x, *y),
        RustExpr::Binary(l, op, r) => out matches LuauExpr::BinaryOp { left, op: o, right } && o@
            == luau_op(op@) && expr_ok(*l, *left) && expr_ok(*r, *right),
        RustExpr::Array(es) => out matches LuauExpr::Table(t) && t.fields@.len() == 0 && exprs_ok(
            es@,
            t.array_items@,
        ),
        RustExpr::Tuple(es) => out matches LuauExpr::Table(t) && t.fields@.len() == 0 && exprs_ok(
            es@,
            t.array_items@,
        ),
        RustExpr::Call(f, args) => out matches LuauExpr::Call { func, args: a } && expr_ok(*f, *func)
            && exprs_ok(args@, a@),
        _ => false,
    }
}

/// Whether `outs` are the Luau values of `es`, one for one.
pub open spec fn exprs_ok(es: Seq<RustExpr>, outs: Seq<LuauExpr>) -> bool
    decreases es,
{
    if es.len() == 0 {
        outs.len() == 0
    } else {
        &&& outs.len() == es.len()
        &&& exprs_ok(es.drop_last(), outs.drop_last())
        &&& expr_ok(es.last(), outs.last())
    }
}

/// The error translating the expression statement `e` fails with, if any;
/// `tail` where its value is what the body returns.
pub open spec fn expr_stmt_error(e: RustExpr, tail: bool) -> Option<Seq<char>>
    decreases e,
{
    match e {
        RustExpr::If(c, th, els, _) => first_error(
            expr_error(*c),
            first_error(
                block_error(th@, tail),
                match els {
                    None => None,
                    Some(x) => match *x {
                        RustExpr::Block(ss, _) => block_error(ss@, tail),
                        RustExpr::If(..) => expr_stmt_error(*x, tail),
                        _ => Some("Unsupported else branch"@),
                    },
                },
            ),
        ),
        RustExpr::Assign(l, r, _) => match *l {
            RustExpr::Path(..) => expr_error(*r),
            _ => Some("Unsupported assignment target"@),
        },
        RustExpr::Return(v, _) => match v {
            Some(x) => expr_error(*x),
            None => None,
        },
        RustExpr::Block(..) => Some("Unsupported statement: block"@),
        _ => expr_error(e),
    }
}

/// The error translating the statement `s` fails with, if any.
pub open spec fn stmt_error(s: RustStmt, tail: bool) -> Option<Seq<char>>
    decreases s,
{
    match s {
        RustStmt::Let(p, init) => match p {
            LetPattern::Other(t) => Some("Unsupported pattern in local statement: "@ + t@),
            _ => match init {
                Some(e) => expr_error(e),
                None => None,
            },
        },
        RustStmt::Expr(e, semi) => expr_stmt_error(e, tail && !semi),
        _ => None,
    }
}

/// The error of the first statement of `ss` that fails, if any; the last
/// statement is in tail position where `tail` holds.
pub open spec fn block_error(ss: Seq<RustStmt>, tail: bool) -> Option<Seq<char>>
    decreases ss,
{
    if ss.len() == 0 {
        None
    } else {
        first_error(block_error(ss.drop_last(), false), stmt_error(ss.last(), tail))
    }
}

/// Whether `out` declares the single name `name` with the single value
/// `value`.
pub open spec fn local_is(out: LuauStmt, name: Seq<char>, value: LuauExpr) -> bool {
    out matches LuauStmt::LocalAssign(names, vals) && views(names@) == seq![name] && vals@ == seq![
        value,
    ]
}

/// Whether `out` is the Luau statement for the expression statement `e`
/// (`tail` where its value is what the body returns):
/// - `if` becomes an `if` statement, whose branches are in tail position
///   where the `if` is; `else if` nests an `if` in the `else` branch;
/// - `x = v` becomes a global assignment, `return` a return;
/// - any other expression is returned in tail position, and otherwise
///   evaluated into the throwaway local `_`.
pub open spec fn expr_stmt_ok(e: RustExpr, tail: bool, out: LuauStmt) -> bool
    decreases e,
{
    match e {
        RustExpr::If(c, th, els, _) => out matches LuauStmt::If { condition, then_block, else_block }
            && expr_ok(*c, condition) && block_ok(th@, tail, then_block@) && match els {
            None => else_block is None,
            Some(x) => match *x {
                RustExpr::Block(ss, _) => else_block matches Some(b) && block_ok(ss@, tail, b@),
                RustExpr::If(..) => else_block matches Some(b) && b@.len() == 1 && expr_stmt_ok(
                    *x,
                    tail,
                    b@[0],
                ),
                _ => false,
            },
        },
        RustExpr::Assign(l, r, _) => match *l {
            RustExpr::Path(segs, _) => out matches LuauStmt::GlobalAssign(names, vals) && views(names@)
                == seq![join(views(segs@), "."@)] && vals@.len() == 1 && expr_ok(*r, vals@[0]),
            _ => false,
        },
        RustExpr::Return(v, _) => match v {
            Some(x) => out matches LuauStmt::Return(Some(y)) && expr_ok(*x, y),
            None => out == LuauStmt::Return(None),
        },
        RustExpr::Block(..) => false,
        _ => if tail {
            out matches LuauStmt::Return(Some(y)) && expr_ok(e, y)
        } else {
            out matches LuauStmt::LocalAssign(names, vals) && views(names@) == seq!["_"@]
                && vals@.len() == 1 && expr_ok(e, vals@[0])
        },
    }
}

/// Whether `out` is the Luau statement for the statement `s`: `let`
/// declares a local (`nil` without a value); a macro call or a nested item
/// leaves a comment that names it.
pub open spec fn stmt_ok(s: RustStmt, tail: bool, out: LuauStmt) -> bool
    decreases s,
{
    match s {
        RustStmt::Let(p, init) => match p {
            LetPattern::Name(n) | LetPattern::Typed(n, _) => out matches LuauStmt::LocalAssign(names, vals) && views(names@)
                == seq![n@] && vals@.len() == 1 && match init {
                Some(e) => expr_ok(e, vals@[0]),
                None => vals@[0] == LuauExpr::Nil,
            },
            LetPattern::Other(_) => false,
        },
        RustStmt::Expr(e, semi) => expr_stmt_ok(e, tail && !semi, out),
        RustStmt::Macro(name, _) => out matches LuauStmt::Comment(c) && c@ == "Macro call not translated: "@
            + name@ + "!"@,
        RustStmt::Item(_) => out matches LuauStmt::Comment(c) && c@ == "Nested item not translated"@,
    }
}

/// Whether `out` is the Luau block for the statements `ss`, one statement
/// for each, the last in tail position where `tail` holds.
pub open spec fn block_ok(ss: Seq<RustStmt>, tail: bool, out: Seq<LuauStmt>) -> bool
    decreases ss,
{
    if ss.len() == 0 {
        out.len() == 0
    } else {
        &&& out.len() == ss.len()
        &&& block_ok(ss.drop_last(), false, out.drop_last())
        &&& stmt_ok(ss.last(), tail, out.last())
    }
}

/// The source text an expression keeps, where it keeps one.
pub open spec fn source_of(e: RustExpr) -> Seq<char> {
    match e {
        RustExpr::OtherLit(t) => t@,
        RustExpr::Path(_, t) => t@,
        RustExpr::Paren(_, t) => t@,
        RustExpr::MethodCall(_, _, _, t) => t@,
        RustExpr::If(_, _, _, t) => t@,
        RustExpr::Block(_, t) => t@,
        RustExpr::Assign(_, _, t) => t@,
        RustExpr::Return(_, t) => t@,
        RustExpr::Unsupported(t) => t@,
        _ => Seq::empty(),
    }
}

/// The error turning `e` into a node fails with, if any: a literal other
/// than an integer, a boolean or a string, and an expression that is not
/// a literal, an array, an operation, an `if`, a call, a method call or a
/// tuple, are refused; parts are turned in order.
pub open spec fn node_error(e: RustExpr) -> Option<Seq<char>>
    decreases e,
{
    match e {
        RustExpr::Int(_) => None,
        RustExpr::Bool(_) => None,
        RustExpr::Str(_) => None,
        RustExpr::BadInt(m) => Some(m@),
        RustExpr::Float(t) => Some("Unsupported literal type: "@ + t@),
        RustExpr::OtherLit(t) => Some("Unsupported literal type: "@ + t@),
        RustExpr::Array(es) => node_exprs_error(es@),
        RustExpr::Tuple(es) => node_exprs_error(es@),
        RustExpr::Binary(l, _, r) => first_error(node_error(*l), node_error(*r)),
        RustExpr::If(c, th, els, _) => first_error(
            node_error(*c),
            first_error(
                node_block_error(th@),
                match els {
                    None => None,
                    Some(x) => match *x {
                        RustExpr::Block(ss, _) => node_block_error(ss@),
                        _ => Some("Unsupported else branch: "@ + source_of(*x)),
                    },
                },
            ),
        ),
        RustExpr::Call(f, args) => first_error(node_error(*f), node_exprs_error(args@)),
        RustExpr::MethodCall(r, _, args, _) => first_error(node_error(*r), node_exprs_error(args@)),
        _ => Some(unsupported_expr(source_of(e))),
    }
}

/// The first error among expressions turned in order.
pub open spec fn node_exprs_error(es: Seq<RustExpr>) -> Option<Seq<char>>
    decreases es,
{
    if es.len() == 0 {
        None
    } else {
        first_error(node_exprs_error(es.drop_last()), node_error(es.last()))
    }
}

/// The error turning the statement `s` into a node fails with, if any:
/// only `let` with a plain name and expression statements are turned.
pub open spec fn node_stmt_error(s: RustStmt) -> Option<Seq<char>>
    decreases s,
{
    match s {
        RustStmt::Let(p, init) => match p {
            LetPattern::Name(_) => match init {
                Some(e) => node_error(e),
                None => None,
            },
            LetPattern::Typed(_, t) => Some("Unsupported pattern in local statement: "@ + t@),
            LetPattern::Other(t) => Some("Unsupported pattern in local statement: "@ + t@),
        },
        RustStmt::Expr(e, _) => node_error(e),
        RustStmt::Macro(_, t) => Some("Unsupported statement type: "@ + t@),
        RustStmt::Item(t) => Some("Unsupported statement type: "@ + t@),
    }
}

/// The first error among statements turned in order.
pub open spec fn node_block_error(ss: Seq<RustStmt>) -> Option<Seq<char>>
    decreases ss,
{
    if ss.len() == 0 {
        None
    } else {
        first_error(node_block_error(ss.drop_last()), node_stmt_error(ss.last()))
    }
}

/// The optimization hints a new table has: none.
pub open spec fn plain_hints(h: TableOptimizationHints) -> bool {
    &&& h.pre_allocate is None
    &&& !h.array_like
    &&& !h.stable_keys
    &&& h.native_buffer_type is None
    &&& !h.table_reuse
}

/// The hints of a table marked as a `Vector3`.
pub open spec fn vector_hints(h: TableOptimizationHints) -> bool {
    &&& h.pre_allocate is None
    &&& !h.array_like
    &&& !h.stable_keys
    &&& h.native_buffer_type matches Some(k) && k@ == "Vector3"@
    &&& !h.table_reuse
}

/// The key of element `i` of a tuple or array: `x`, `y` and `z` for a
/// vector's three, else the position.
pub open spec fn element_key(i: nat, vector: bool) -> Seq<char> {
    if vector {
        if i == 0 {
            "x"@
        } else if i == 1 {
            "y"@
        } else {
            "z"@
        }
    } else {
        decimal(i)
    }
}

/// Whether `fs` are the nodes of `es` under their keys, in order.
pub open spec fn fields_ok(es: Seq<RustExpr>, fs: Seq<(String, LuauNode)>, vector: bool) -> bool
    decreases es,
{
    if es.len() == 0 {
        fs.len() == 0
    } else {
        &&& fs.len() == es.len()
        &&& fields_ok(es.drop_last(), fs.drop_last(), vector)
        &&& fs.last().0@ == element_key((es.len() - 1) as nat, vector)
        &&& node_ok(es.last(), fs.last().1)
    }
}

/// Whether `out` is the node for `e`: literals become literals, an
/// operation keeps its operator's token, an array becomes a table keyed by
/// position, a tuple too, but three elements become the fields `x`, `y`,
/// `z` of a table marked as a `Vector3`; `if` has blocks for its branches;
/// a method call becomes a call of the method with the receiver first.
pub open spec fn node_ok(e: RustExpr, out: LuauNode) -> bool
    decreases e,
{
    match e {
        RustExpr::Int(n) => out == LuauNode::Number(n),
        RustExpr::Bool(b) => out == LuauNode::Boolean(b),
        RustExpr::Str(t) => out matches LuauNode::String(x) && x@ == t@,
        RustExpr::Array(es) => out matches LuauNode::Table(t) && plain_hints(t.optimization_hints) && fields_ok(
            es@,
            t.fields@,
            false,
        ),
        RustExpr::Tuple(es) => out matches LuauNode::Table(t) && (if es@.len() == 3 {
            vector_hints(t.optimization_hints)
        } else {
            plain_hints(t.optimization_hints)
        }) && fields_ok(es@, t.fields@, es@.len() == 3),
        RustExpr::Binary(l, op, r) => out matches LuauNode::Binary { left, op: o, right } && o@ == op@ && node_ok(
            *l,
            *left,
        ) && node_ok(*r, *right),
        RustExpr::If(c, th, els, _) => out matches LuauNode::If { condition, then_branch, else_branch }
            && node_ok(*c, *condition) && (*then_branch matches LuauNode::Block(ns) && node_block_ok(th@, ns@))
            && match els {
            None => else_branch is None,
            Some(x) => match *x {
                RustExpr::Block(ss, _) => else_branch matches Some(eb) && (*eb matches LuauNode::Block(ns)
                    && node_block_ok(ss@, ns@)),
                _ => false,
            },
        },
        RustExpr::Call(f, args) => out matches LuauNode::Call { func, args: a } && node_ok(*f, *func) && nodes_ok(
            args@,
            a@,
        ),
        RustExpr::MethodCall(r, m, args, _) => out matches LuauNode::Call { func, args: a } && (*func matches LuauNode::Var(
            x,
        ) && x@ == m@) && a@.len() > 0 && node_ok(*r, a@[0]) && nodes_ok(args@, a@.skip(1)),
        _ => false,
    }
}

/// Whether `ns` are the nodes of `es`, one for one.
pub open spec fn nodes_ok(es: Seq<RustExpr>, ns: Seq<LuauNode>) -> bool
    decreases es,
{
    if es.len() == 0 {
        ns.len() == 0
    } else {
        &&& ns.len() == es.len()
        &&& nodes_ok(es.drop_last(), ns.drop_last())
        &&& node_ok(es.last(), ns.last())
    }
}

/// Whether `out` is the node for the statement `s`: `let` becomes a local
/// (`nil` without a value), an expression statement its expression's node.
pub open spec fn node_stmt_ok(s: RustStmt, out: LuauNode) -> bool
    decreases s,
{
    match s {
        RustStmt::Let(p, init) => match p {
            LetPattern::Name(n) => out matches LuauNode::Local { name, value } && name@ == n@ && match init {
                Some(e) => node_ok(e, *value),
                None => *value == LuauNode::Literal(LuauValue::Nil),
            },
            _ => false,
        },
        RustStmt::Expr(e, _) => node_ok(e, out),
        _ => false,
    }
}

/// Whether `ns` are the nodes of the statements `ss`, one for one.
pub open spec fn node_block_ok(ss: Seq<RustStmt>, ns: Seq<LuauNode>) -> bool
    decreases ss,
{
    if ss.len() == 0 {
        ns.len() == 0
    } else {
        &&& ns.len() == ss.len()
        &&& node_block_ok(ss.drop_last(), ns.drop_last())
        &&& node_stmt_ok(ss.last(), ns.last())
    }
}

/// The error of the first parameter that cannot be turned: a receiver or a
/// pattern other than a plain name.
pub open spec fn params_node_error(ps: Seq<FnParam>) -> Option<Seq<char>>
    decreases ps.len(),
{
    if ps.len() == 0 {
        None
    } else {
        first_error(
            params_node_error(ps.drop_last()),
            match ps.last() {
                FnParam::Receiver => Some("Unsupported parameter type"@),
                FnParam::Pattern => Some("Unsupported parameter pattern"@),
                FnParam::Named(_) => None,
            },
        )
    }
}

/// The error of turning a body: its statements in order, the last turned
/// as a returned expression where it is one.
pub open spec fn fn_body_error(ss: Seq<RustStmt>) -> Option<Seq<char>> {
    if ss.len() == 0 {
        None
    } else {
        first_error(
            node_block_error(ss.drop_last()),
            match ss.last() {
                RustStmt::Expr(e, _) => node_error(e),
                s => node_stmt_error(s),
            },
        )
    }
}

/// The error of turning a function: its parameters', then its body's.
pub open spec fn fn_node_error(f: RustFn) -> Option<Seq<char>> {
    first_error(params_node_error(f.params@), fn_body_error(f.body@))
}

/// Whether `out` are the parameters for `ps`: each name, without a type.
pub open spec fn params_node_ok(ps: Seq<FnParam>, out: Seq<Parameter>) -> bool {
    &&& out.len() == ps.len()
    &&& forall|i: int|
        0 <= i < ps.len() ==> (#[trigger] ps[i] matches FnParam::Named(n) && out[i].name@ == n@
            && out[i].type_annotation is None)
}

/// Whether `ns` are the nodes of a body: its statements, the last
/// returned where it is an expression.
pub open spec fn fn_body_ok(ss: Seq<RustStmt>, ns: Seq<LuauNode>) -> bool {
    if ss.len() == 0 {
        ns.len() == 0
    } else {
        &&& ns.len() == ss.len()
        &&& node_block_ok(ss.drop_last(), ns.drop_last())
        &&& match ss.last() {
            RustStmt::Expr(e, _) => ns.last() matches LuauNode::Return(x) && node_ok(e, *x),
            s => node_stmt_ok(s, ns.last()),
        }
    }
}

/// Whether `g` is the function node for `f`: its name, its parameters
/// (after `self` for a method), no return type, and its body as a block.
pub open spec fn fn_node_ok(f: RustFn, g: Function, method: bool) -> bool {
    &&& g.name@ == f.name@
    &&& if method {
        &&& g.params@.len() > 0
        &&& g.params@[0].name@ == "self"@
        &&& g.params@[0].type_annotation is None
        &&& params_node_ok(f.params@, g.params@.skip(1))
    } else {
        params_node_ok(f.params@, g.params@)
    }
    &&& g.return_type is None
    &&& *g.body matches LuauNode::Block(ns) && fn_body_ok(f.body@, ns@)
}

/// Whether `t` is the table for a struct with `fields`: each named field
/// set to an empty program, with its size to pre-allocate and stable keys.
pub open spec fn struct_node_ok(fields: Seq<Option<String>>, t: Table) -> bool {
    let names = struct_params(fields);
    &&& t.fields@.len() == names.len()
    &&& forall|i: int|
        0 <= i < names.len() ==> (#[trigger] t.fields@[i]).0@ == names[i] && (t.fields@[i].1 matches LuauNode::Program(
            p,
        ) && p.body@.len() == 0 && p.type_annotations@.len() == 0)
    &&& t.optimization_hints.pre_allocate == Some(names.len() as usize)
    &&& !t.optimization_hints.array_like
    &&& t.optimization_hints.stable_keys
    &&& t.optimization_hints.native_buffer_type is None
    &&& !t.optimization_hints.table_reuse
}

/// The error of the first member of an `impl` block that cannot be turned:
/// a function's, or any other member.
pub open spec fn members_node_error(ms: Seq<ImplMember>) -> Option<Seq<char>>
    decreases ms.len(),
{
    if ms.len() == 0 {
        None
    } else {
        first_error(
            members_node_error(ms.drop_last()),
            match ms.last() {
                ImplMember::Method(f) => fn_node_error(f),
                ImplMember::Other(t) => Some("Unsupported impl item: "@ + t@),
            },
        )
    }
}

/// Whether `fields` are the functions of the members `ms`, each under its
/// name, with `self` first.
pub open spec fn methods_node_ok(ms: Seq<ImplMember>, fields: Seq<(String, LuauNode)>) -> bool {
    &&& fields.len() == ms.len()
    &&& forall|i: int|
        0 <= i < ms.len() ==> (#[trigger] ms[i] matches ImplMember::Method(f) && fields[i].0@ == f.name@
            && (fields[i].1 matches LuauNode::Function(g) && fn_node_ok(f, *g, true)))
}

/// The error of turning an item: a function's, an `impl` block's, a
/// `const` or `static` value's; any other kind is refused with its text.
pub open spec fn item_node_error(p: ItemParts) -> Option<Seq<char>> {
    match p {
        ItemParts::Fn(f) => fn_node_error(f),
        ItemParts::Struct(..) => None,
        ItemParts::Impl(ms) => members_node_error(ms@),
        ItemParts::Value(x) => node_error(x),
        ItemParts::Other(t) => Some("Unsupported item type: "@ + t@),
    }
}

/// Whether `out` is the node for an item: a function node, a struct's
/// table, a table of an `impl` block's functions, a value's node.
pub open spec fn item_node_ok(p: ItemParts, out: LuauNode) -> bool {
    match p {
        ItemParts::Fn(f) => out matches LuauNode::Function(g) && fn_node_ok(f, *g, false),
        ItemParts::Struct(_, fields) => out matches LuauNode::Table(t) && struct_node_ok(fields@, t),
        ItemParts::Impl(ms) => out matches LuauNode::Table(t) && plain_hints(t.optimization_hints) && methods_node_ok(
            ms@,
            t.fields@,
        ),
        ItemParts::Value(x) => node_ok(x, out),
        ItemParts::Other(_) => false,
    }
}

/// The error of the first item that cannot be turned.
pub open spec fn items_node_error(ps: Seq<ItemParts>) -> Option<Seq<char>>
    decreases ps.len(),
{
    if ps.len() == 0 {
        None
    } else {
        first_error(items_node_error(ps.drop_last()), item_node_error(ps.last()))
    }
}

/// Whether `ps` are what the source `input` reads as, item by item.
pub open spec fn parts_of(input: Seq<char>, ps: Seq<ItemParts>) -> bool {
    &&& rust_file(input) is Ok
    &&& ps.len() == rust_file(input)->Ok_0.len()
    &&& forall|i: int| 0 <= i < ps.len() ==> parts_reads(rust_file(input)->Ok_0[i], read_depth(), #[trigger] ps[i])
}

/// What turning the source `input` into a program gives: the parse error,
/// the first item's error, or a program of each item's node.
pub open spec fn program_result(input: Seq<char>, r: Result<Program, String>) -> bool {
    match rust_file(input) {
        Err(e) => r matches Err(m) && m@ == "Failed to parse Rust code: "@ + e,
        Ok(_) => exists|ps: Seq<ItemParts>|
            #![trigger parts_of(input, ps)]
            parts_of(input, ps) && match r {
                Ok(p) => {
                    &&& items_node_error(ps) is None
                    &&& p.body@.len() == ps.len()
                    &&& forall|i: int| 0 <= i < ps.len() ==> item_node_ok(ps[i], #[trigger] p.body@[i])
                    &&& p.type_annotations@.len() == 0
                },
                Err(m) => items_node_error(ps) matches Some(e) && m@ == "Transform error: "@ + e,
            },
    }
}

/// The Luau spelling of the Rust operator `op`.
fn luau_operator(op: &str) -> (r: String)
    ensures
        r@ == luau_op(op@),
{
    if str_eq(op, "&&") {
        String::from_str("and")
    } else if str_eq(op, "||") {
        String::from_str("or")
    } else if str_eq(op, "!=") {
        String::from_str("~=")
    } else {
        String::from_str(op)
    }
}

/// The message for an expression without a Luau value form.
fn unsupported(text: &str) -> (r: String)
    ensures
        r@ == unsupported_expr(text@),
{
    let mut m = String::from_str("Unsupported expression type: ");
    m.append(text);
    m
}

/// The Luau value of an expression, or the error of the first part
/// that has none.
pub fn translate_expr(e: &RustExpr) -> (r: Result<LuauExpr, String>)
    ensures
        match r {
            Ok(x) => expr_error(*e) is None && expr_ok(*e, x),
            Err(m) => expr_error(*e) == Some(m@),
        },
    decreases e,
{
    match e {
        RustExpr::Int(n) => Ok(LuauExpr::Number(*n)),
        RustExpr::Float(t) => Ok(LuauExpr::Raw(t.clone())),
        RustExpr::Bool(b) => Ok(LuauExpr::Boolean(*b)),
        RustExpr::Str(t) => Ok(LuauExpr::String(t.clone())),
        RustExpr::Path(segs, _) => Ok(LuauExpr::Variable(join_strings(segs, "."))),
        RustExpr::Paren(x, _) => match translate_expr(x) {
            Ok(y) => Ok(LuauExpr::Paren(Box::new(y))),
            Err(m) => Err(m),
        },
        RustExpr::Binary(l, op, r) => {
            let left = match translate_expr(l) {
                Ok(y) => y,
                Err(m) => {
                    return Err(m);
                },
            };
            let right = match translate_expr(r) {
                Ok(y) => y,
                Err(m) => {
                    return Err(m);
                },
            };
            Ok(LuauExpr::BinaryOp { left: Box::new(left), op: luau_operator(op.as_str()), right: Box::new(right) })
        },
        RustExpr::Array(es) => match translate_exprs(es) {
            Ok(items) => Ok(LuauExpr::Table(LuauTable { fields: Vec::new(), array_items: items })),
            Err(m) => Err(m),
        },
        RustExpr::Tuple(es) => match translate_exprs(es) {
            Ok(items) => Ok(LuauExpr::Table(LuauTable { fields: Vec::new(), array_items: items })),
            Err(m) => Err(m),
        },
        RustExpr::Call(f, args) => {
            let func = match translate_expr(f) {
                Ok(y) => y,
                Err(m) => {
                    return Err(m);
                },
            };
            match translate_exprs(args) {
                Ok(a) => Ok(LuauExpr::Call { func: Box::new(func), args: a }),
                Err(m) => Err(m),
            }
        },
        RustExpr::If(..) => Err(unsupported("if used as a value")),
        RustExpr::Block(..) => Err(unsupported("block used as a value")),
        RustExpr::Assign(..) => Err(unsupported("assignment used as a value")),
        RustExpr::Return(..) => Err(unsupported("return used as a value")),
        RustExpr::MethodCall(_, _, _, t) => Err(unsupported(t.as_str())),
        RustExpr::OtherLit(t) => Err(unsupported(t.as_str())),
        RustExpr::BadInt(m) => Err(m.clone()),
        RustExpr::Unsupported(t) => Err(unsupported(t.as_str())),
    }
}

/// The Luau values of expressions, in order, or the first error.
fn translate_exprs(es: &Vec<RustExpr>) -> (r: Result<Vec<LuauExpr>, String>)
    ensures
        match r {
            Ok(v) => exprs_error(es@) is None && exprs_ok(es@, v@),
            Err(m) => exprs_error(es@) == Some(m@),
        },
    decreases es,
{
    let mut out: Vec<LuauExpr> = Vec::new();
    let mut i: usize = 0;
    while i < es.len()
        invariant
            i <= es.len(),
            exprs_error(es@.take(i as int)) is None,
            exprs_ok(es@.take(i as int), out@),
        decreases es.len() - i,
    {
        proof {
            assert(es@.take(i + 1).drop_last() =~= es@.take(i as int));
            assert(es@.take(i + 1).last() == es@[i as int]);
            assert(decreases_to!(es => es@[i as int]));
        }
        match translate_expr(&es[i]) {
            Ok(x) => {
                let ghost before = out@;
                out.push(x);
                proof {
                    assert(out@.drop_last() =~= before);
                }
            },
            Err(m) => {
                proof {
                    lemma_exprs_error_prefix(es@, i as int + 1);
                }
                return Err(m);
            },
        }
        i = i + 1;
    }
    proof {
        assert(es@.take(es.len() as int) =~= es@);
    }
    Ok(out)
}

/// The Luau statement for the expression statement `e`, in tail
/// position where `tail` holds, or the error of its first part that
/// fails.
fn translate_expr_stmt(e: &RustExpr, tail: bool) -> (r: Result<LuauStmt, String>)
    ensures
        match r {
            Ok(s) => expr_stmt_error(*e, tail) is None && expr_stmt_ok(*e, tail, s),
            Err(m) => expr_stmt_error(*e, tail) == Some(m@),
        },
    decreases e,
{
    match e {
        RustExpr::If(c, th, els, _) => {
            let condition = match translate_expr(c) {
                Ok(x) => x,
                Err(m) => {
                    return Err(m);
                },
            };
            let then_block = match translate_block(th, tail) {
                Ok(b) => b,
                Err(m) => {
                    return Err(m);
                },
            };
            let else_block = match els {
                None => None,
                Some(x) => match &**x {
                    RustExpr::Block(ss, _) => match translate_block(ss, tail) {
                        Ok(b) => Some(b),
                        Err(m) => {
                            return Err(m);
                        },
                    },
                    RustExpr::If(..) => match translate_expr_stmt(x, tail) {
                        Ok(s) => {
                            let mut b: Vec<LuauStmt> = Vec::new();
                            b.push(s);
                            Some(b)
                        },
                        Err(m) => {
                            return Err(m);
                        },
                    },
                    _ => {
                        return Err(String::from_str("Unsupported else branch"));
                    },
                },
            };
            Ok(LuauStmt::If { condition, then_block, else_block })
        },
        RustExpr::Assign(l, r, _) => match &**l {
            RustExpr::Path(segs, _) => match translate_expr(r) {
                Ok(v) => {
                    let target = join_strings(segs, ".");
                    let ghost t = target@;
                    let mut names: Vec<String> = Vec::new();
                    names.push(target);
                    let mut vals: Vec<LuauExpr> = Vec::new();
                    vals.push(v);
                    proof {
                        assert(views(names@) =~= seq![t]);
                    }
                    Ok(LuauStmt::GlobalAssign(names, vals))
                },
                Err(m) => Err(m),
            },
            _ => Err(String::from_str("Unsupported assignment target")),
        },
        RustExpr::Return(v, _) => match v {
            Some(x) => match translate_expr(x) {
                Ok(y) => Ok(LuauStmt::Return(Some(y))),
                Err(m) => Err(m),
            },
            None => Ok(LuauStmt::Return(None)),
        },
        RustExpr::Block(..) => Err(String::from_str("Unsupported statement: block")),
        _ => match translate_expr(e) {
            Ok(y) => if tail {
                Ok(LuauStmt::Return(Some(y)))
            } else {
                let mut names: Vec<String> = Vec::new();
                names.push(String::from_str("_"));
                let mut vals: Vec<LuauExpr> = Vec::new();
                vals.push(y);
                proof {
                    assert(views(names@) =~= seq!["_"@]);
                }
                Ok(LuauStmt::LocalAssign(names, vals))
            },
            Err(m) => Err(m),
        },
    }
}

/// The Luau statement for a statement, in tail position where `tail`
/// holds, or the error of its first part that fails.
pub fn translate_stmt(s: &RustStmt, tail: bool) -> (r: Result<LuauStmt, String>)
    ensures
        match r {
            Ok(x) => stmt_error(*s, tail) is None && stmt_ok(*s, tail, x),
            Err(m) => stmt_error(*s, tail) == Some(m@),
        },
    decreases s,
{
    match s {
        RustStmt::Let(p, init) => match p {
            LetPattern::Name(n) | LetPattern::Typed(n, _) => {
                let value = match init {
                    Some(e) => match translate_expr(e) {
                        Ok(x) => x,
                        Err(m) => {
                            return Err(m);
                        },
                    },
                    None => LuauExpr::Nil,
                };
                let mut names: Vec<String> = Vec::new();
                names.push(n.clone());
                let mut vals: Vec<LuauExpr> = Vec::new();
                vals.push(value);
                proof {
                    assert(views(names@) =~= seq![n@]);
                }
                Ok(LuauStmt::LocalAssign(names, vals))
            },
            LetPattern::Other(t) => {
                let mut m = String::from_str("Unsupported pattern in local statement: ");
                m.append(t.as_str());
                Err(m)
            },
        },
        RustStmt::Expr(e, semi) => translate_expr_stmt(e, tail && !*semi),
        RustStmt::Macro(name, _) => {
            let mut c = String::from_str("Macro call not translated: ");
            c.append(name.as_str());
            c.append("!");
            Ok(LuauStmt::Comment(c))
        },
        RustStmt::Item(_) => Ok(LuauStmt::Comment(String::from_str("Nested item not translated"))),
    }
}

/// The Luau block for statements, the last in tail position where
/// `tail` holds, or the error of the first statement that fails.
pub fn translate_block(ss: &Vec<RustStmt>, tail: bool) -> (r: Result<Vec<LuauStmt>, String>)
    ensures
        match r {
            Ok(v) => block_error(ss@, tail) is None && block_ok(ss@, tail, v@),
            Err(m) => block_error(ss@, tail) == Some(m@),
        },
    decreases ss,
{
    let mut out: Vec<LuauStmt> = Vec::new();
    let mut i: usize = 0;
    while i < ss.len()
        invariant
            i <= ss.len(),
            i == 0 || i < ss.len(),
            block_error(ss@.take(i as int), false) is None,
            block_ok(ss@.take(i as int), false, out@),
        decreases ss.len() - i,
    {
        proof {
            assert(ss@.take(i + 1).drop_last() =~= ss@.take(i as int));
            assert(decreases_to!(ss => ss@[i as int]));
        }
        let last = i + 1 == ss.len();
        match translate_stmt(&ss[i], tail && last) {
            Ok(x) => {
                let ghost before = out@;
                out.push(x);
                proof {
                    assert(out@.drop_last() =~= before);
                    if last {
                        assert(ss@.take(i + 1) =~= ss@);
                    }
                }
                if last {
                    return Ok(out);
                }
            },
            Err(m) => {
                proof {
                    if last {
                        assert(ss@.take(i + 1) =~= ss@);
                    } else {
                        lemma_block_error_prefix(ss@, i as int + 1, tail);
                    }
                }
                return Err(m);
            },
        }
        i = i + 1;
    }
    Ok(out)
}

/// Turns Rust expressions and statements into nodes of `ast::luau`.
pub struct RustToLuauTransformer {
    /// The variables in scope
    pub current_scope_vars: Vec<String>,
}

/// The message for a refused kind, with its source text.
fn refused(prefix: &str, text: &str) -> (r: String)
    ensures
        r@ == prefix@ + text@,
{
    let mut m = String::from_str(prefix);
    m.append(text);
    m
}

impl RustToLuauTransformer {
    /// A transformer with no variables in scope.
    pub fn new() -> (r: Self)
        ensures
            r.current_scope_vars@.len() == 0,
    {
        RustToLuauTransformer { current_scope_vars: Vec::new() }
    }

    /// The node of an expression, or the error of the first part that has
    /// none (see `node_ok` and `node_error`).
    pub fn transform_expr(&self, e: &RustExpr) -> (r: Result<LuauNode, String>)
        ensures
            match r {
                Ok(n) => node_error(*e) is None && node_ok(*e, n),
                Err(m) => node_error(*e) == Some(m@),
            },
        decreases e,
    {
        match e {
            RustExpr::Int(n) => Ok(LuauNode::Number(*n)),
            RustExpr::Bool(b) => Ok(LuauNode::Boolean(*b)),
            RustExpr::Str(t) => Ok(LuauNode::String(t.clone())),
            RustExpr::BadInt(m) => Err(m.clone()),
            RustExpr::Float(t) => Err(refused("Unsupported literal type: ", t.as_str())),
            RustExpr::OtherLit(t) => Err(refused("Unsupported literal type: ", t.as_str())),
            RustExpr::Array(es) => {
                let fields = match self.transform_fields(es, false) {
                    Ok(f) => f,
                    Err(m) => {
                        return Err(m);
                    },
                };
                Ok(LuauNode::Table(Table { fields, optimization_hints: new_hints(false) }))
            },
            RustExpr::Tuple(es) => {
                let vector = es.len() == 3;
                let fields = match self.transform_fields(es, vector) {
                    Ok(f) => f,
                    Err(m) => {
                        return Err(m);
                    },
                };
                Ok(LuauNode::Table(Table { fields, optimization_hints: new_hints(vector) }))
            },
            RustExpr::Binary(l, op, r) => {
                let left = match self.transform_expr(l) {
                    Ok(n) => n,
                    Err(m) => {
                        return Err(m);
                    },
                };
                let right = match self.transform_expr(r) {
                    Ok(n) => n,
                    Err(m) => {
                        return Err(m);
                    },
                };
                Ok(LuauNode::Binary { left: Box::new(left), op: op.clone(), right: Box::new(right) })
            },
            RustExpr::If(c, th, els, _) => {
                let condition = match self.transform_expr(c) {
                    Ok(n) => n,
                    Err(m) => {
                        return Err(m);
                    },
                };
                let then_nodes = match self.transform_block(th) {
                    Ok(ns) => ns,
                    Err(m) => {
                        return Err(m);
                    },
                };
                let else_branch = match els {
                    None => None,
                    Some(x) => match &**x {
                        RustExpr::Block(ss, _) => match self.transform_block(ss) {
                            Ok(ns) => Some(Box::new(LuauNode::Block(ns))),
                            Err(m) => {
                                return Err(m);
                            },
                        },
                        other => {
                            return Err(refused("Unsupported else branch: ", source_text(other)));
                        },
                    },
                };
                Ok(LuauNode::If {
                    condition: Box::new(condition),
                    then_branch: Box::new(LuauNode::Block(then_nodes)),
                    else_branch,
                })
            },
            RustExpr::Call(f, args) => {
                let func = match self.transform_expr(f) {
                    Ok(n) => n,
                    Err(m) => {
                        return Err(m);
                    },
                };
                match self.transform_exprs(args) {
                    Ok(a) => Ok(LuauNode::Call { func: Box::new(func), args: a }),
                    Err(m) => Err(m),
                }
            },
            RustExpr::MethodCall(r, name, args, _) => {
                let receiver = match self.transform_expr(r) {
                    Ok(n) => n,
                    Err(m) => {
                        return Err(m);
                    },
                };
                let rest = match self.transform_exprs(args) {
                    Ok(a) => a,
                    Err(m) => {
                        return Err(m);
                    },
                };
                let mut all: Vec<LuauNode> = Vec::new();
                all.push(receiver);
                let ghost first = all@;
                let mut rest = rest;
                let ghost tail = rest@;
                all.append(&mut rest);
                proof {
                    assert(all@.skip(1) =~= tail);
                }
                Ok(LuauNode::Call { func: Box::new(LuauNode::Var(name.clone())), args: all })
            },
            _ => Err(refused("Unsupported expression type: ", source_text(e))),
        }
    }

    /// The nodes of expressions, in order, or the first error.
    fn transform_exprs(&self, es: &Vec<RustExpr>) -> (r: Result<Vec<LuauNode>, String>)
        ensures
            match r {
                Ok(v) => node_exprs_error(es@) is None && nodes_ok(es@, v@),
                Err(m) => node_exprs_error(es@) == Some(m@),
            },
        decreases es,
    {
        let mut out: Vec<LuauNode> = Vec::new();
        let mut i: usize = 0;
        while i < es.len()
            invariant
                i <= es.len(),
                node_exprs_error(es@.take(i as int)) is None,
                nodes_ok(es@.take(i as int), out@),
            decreases es.len() - i,
        {
            proof {
                assert(es@.take(i + 1).drop_last() =~= es@.take(i as int));
                assert(decreases_to!(es => es@[i as int]));
            }
            match self.transform_expr(&es[i]) {
                Ok(x) => {
                    let ghost before = out@;
                    out.push(x);
                    proof {
                        assert(out@.drop_last() =~= before);
                    }
                },
                Err(m) => {
                    proof {
                        lemma_node_exprs_error_prefix(es@, i as int + 1);
                    }
                    return Err(m);
                },
            }
            i = i + 1;
        }
        proof {
            assert(es@.take(es.len() as int) =~= es@);
        }
        Ok(out)
    }

    /// The fields of a table for the elements `es`, keyed as
    /// `element_key` says, or the first error.
    fn transform_fields(&self, es: &Vec<RustExpr>, vector: bool) -> (r: Result<Vec<(String, LuauNode)>, String>)
        requires
            vector ==> es@.len() == 3,
        ensures
            match r {
                Ok(v) => node_exprs_error(es@) is None && fields_ok(es@, v@, vector),
                Err(m) => node_exprs_error(es@) == Some(m@),
            },
        decreases es,
    {
        let mut out: Vec<(String, LuauNode)> = Vec::new();
        let mut i: usize = 0;
        while i < es.len()
            invariant
                i <= es.len(),
                vector ==> es@.len() == 3,
                node_exprs_error(es@.take(i as int)) is None,
                fields_ok(es@.take(i as int), out@, vector),
            decreases es.len() - i,
        {
            proof {
                assert(es@.take(i + 1).drop_last() =~= es@.take(i as int));
                assert(decreases_to!(es => es@[i as int]));
            }
            match self.transform_expr(&es[i]) {
                Ok(x) => {
                    let key = if vector {
                        if i == 0 {
                            String::from_str("x")
                        } else if i == 1 {
                            String::from_str("y")
                        } else {
                            String::from_str("z")
                        }
                    } else {
                        usize_to_string(i)
                    };
                    let ghost before = out@;
                    out.push((key, x));
                    proof {
                        assert(out@.drop_last() =~= before);
                    }
                },
                Err(m) => {
                    proof {
                        lemma_node_exprs_error_prefix(es@, i as int + 1);
                    }
                    return Err(m);
                },
            }
            i = i + 1;
        }
        proof {
            assert(es@.take(es.len() as int) =~= es@);
        }
        Ok(out)
    }

    /// The node of a statement, or its error (see `node_stmt_ok` and
    /// `node_stmt_error`).
    pub fn transform_stmt(&self, s: &RustStmt) -> (r: Result<LuauNode, String>)
        ensures
            match r {
                Ok(n) => node_stmt_error(*s) is None && node_stmt_ok(*s, n),
                Err(m) => node_stmt_error(*s) == Some(m@),
            },
        decreases s,
    {
        match s {
            RustStmt::Let(p, init) => match p {
                LetPattern::Name(n) => {
                    let value = match init {
                        Some(e) => match self.transform_expr(e) {
                            Ok(v) => v,
                            Err(m) => {
                                return Err(m);
                            },
                        },
                        None => LuauNode::Literal(LuauValue::Nil),
                    };
                    Ok(LuauNode::Local { name: n.clone(), value: Box::new(value) })
                },
                LetPattern::Typed(_, t) => Err(refused("Unsupported pattern in local statement: ", t.as_str())),
                LetPattern::Other(t) => Err(refused("Unsupported pattern in local statement: ", t.as_str())),
            },
            RustStmt::Expr(e, _) => self.transform_expr(e),
            RustStmt::Macro(_, t) => Err(refused("Unsupported statement type: ", t.as_str())),
            RustStmt::Item(t) => Err(refused("Unsupported statement type: ", t.as_str())),
        }
    }

    /// The nodes of statements, in order, or the first error.
    pub fn transform_block(&self, ss: &Vec<RustStmt>) -> (r: Result<Vec<LuauNode>, String>)
        ensures
            match r {
                Ok(v) => node_block_error(ss@) is None && node_block_ok(ss@, v@),
                Err(m) => node_block_error(ss@) == Some(m@),
            },
        decreases ss,
    {
        let mut out: Vec<LuauNode> = Vec::new();
        let mut i: usize = 0;
        while i < ss.len()
            invariant
                i <= ss.len(),
                node_block_error(ss@.take(i as int)) is None,
                node_block_ok(ss@.take(i as int), out@),
            decreases ss.len() - i,
        {
            proof {
                assert(ss@.take(i + 1).drop_last() =~= ss@.take(i as int));
                assert(decreases_to!(ss => ss@[i as int]));
            }
            match self.transform_stmt(&ss[i]) {
                Ok(x) => {
                    let ghost before = out@;
                    out.push(x);
                    proof {
                        assert(out@.drop_last() =~= before);
                    }
                },
                Err(m) => {
                    proof {
                        lemma_node_block_error_prefix(ss@, i as int + 1);
                    }
                    return Err(m);
                },
            }
            i = i + 1;
        }
        proof {
            assert(ss@.take(ss.len() as int) =~= ss@);
        }
        Ok(out)
    }
}

impl RustToLuauTransformer {
    /// The parameters of a function, or the error of the first that
    /// cannot be turned.
    fn transform_params(&self, ps: &Vec<FnParam>) -> (r: Result<Vec<Parameter>, String>)
        ensures
            match r {
                Ok(v) => params_node_error(ps@) is None && params_node_ok(ps@, v@),
                Err(m) => params_node_error(ps@) == Some(m@),
            },
    {
        let mut out: Vec<Parameter> = Vec::new();
        let mut i: usize = 0;
        while i < ps.len()
            invariant
                i <= ps.len(),
                out@.len() == i,
                params_node_error(ps@.take(i as int)) is None,
                forall|k: int|
                    0 <= k < i ==> (#[trigger] ps@[k] matches FnParam::Named(n) && out@[k].name@ == n@
                        && out@[k].type_annotation is None),
            decreases ps.len() - i,
        {
            proof {
                assert(ps@.take(i + 1).drop_last() =~= ps@.take(i as int));
                assert(ps@.take(i + 1).last() == ps@[i as int]);
            }
            match &ps[i] {
                FnParam::Named(n) => {
                    out.push(Parameter { name: n.clone(), type_annotation: None });
                },
                FnParam::Receiver => {
                    proof {
                        reveal_strlit("Unsupported parameter type");
                        lemma_params_error_prefix(ps@, i as int + 1);
                    }
                    return Err(String::from_str("Unsupported parameter type"));
                },
                FnParam::Pattern => {
                    proof {
                        lemma_params_error_prefix(ps@, i as int + 1);
                    }
                    return Err(String::from_str("Unsupported parameter pattern"));
                },
            }
            i = i + 1;
        }
        proof {
            assert(ps@.take(ps.len() as int) =~= ps@);
        }
        Ok(out)
    }

    /// The nodes of a function body, the last statement returned where it
    /// is an expression, or the first error.
    fn transform_body(&self, ss: &Vec<RustStmt>) -> (r: Result<Vec<LuauNode>, String>)
        ensures
            match r {
                Ok(v) => fn_body_error(ss@) is None && fn_body_ok(ss@, v@),
                Err(m) => fn_body_error(ss@) == Some(m@),
            },
    {
        let mut out: Vec<LuauNode> = Vec::new();
        if ss.len() == 0 {
            return Ok(out);
        }
        let last = ss.len() - 1;
        let ghost front = ss@.drop_last();
        let mut i: usize = 0;
        while i < last
            invariant
                last == ss.len() - 1,
                front == ss@.drop_last(),
                i <= last,
                node_block_error(front.take(i as int)) is None,
                node_block_ok(front.take(i as int), out@),
            decreases last - i,
        {
            proof {
                assert(front.take(i + 1).drop_last() =~= front.take(i as int));
                assert(front.take(i + 1).last() == ss@[i as int]);
            }
            match self.transform_stmt(&ss[i]) {
                Ok(x) => {
                    let ghost before = out@;
                    out.push(x);
                    proof {
                        assert(out@.drop_last() =~= before);
                    }
                },
                Err(m) => {
                    proof {
                        lemma_node_block_error_prefix(front, i as int + 1);
                    }
                    return Err(m);
                },
            }
            i = i + 1;
        }
        proof {
            assert(front.take(last as int) =~= front);
        }
        let node = match &ss[last] {
            RustStmt::Expr(e, _) => match self.transform_expr(e) {
                Ok(x) => LuauNode::Return(Box::new(x)),
                Err(m) => {
                    return Err(m);
                },
            },
            other => match self.transform_stmt(other) {
                Ok(x) => x,
                Err(m) => {
                    return Err(m);
                },
            },
        };
        let ghost before = out@;
        out.push(node);
        proof {
            assert(out@.drop_last() =~= before);
        }
        Ok(out)
    }

    /// The function node for `f`, with `self` as its first parameter for a
    /// method, or the first error.
    fn function_node(&self, f: &RustFn, method: bool) -> (r: Result<Function, String>)
        ensures
            match r {
                Ok(g) => fn_node_error(*f) is None && fn_node_ok(*f, g, method),
                Err(m) => fn_node_error(*f) == Some(m@),
            },
    {
        let params = match self.transform_params(&f.params) {
            Ok(p) => p,
            Err(m) => {
                return Err(m);
            },
        };
        let body = match self.transform_body(&f.body) {
            Ok(b) => b,
            Err(m) => {
                return Err(m);
            },
        };
        let all = if method {
            let mut all: Vec<Parameter> = Vec::new();
            all.push(Parameter { name: String::from_str("self"), type_annotation: None });
            let mut rest = params;
            let ghost tail = rest@;
            all.append(&mut rest);
            proof {
                assert(all@.skip(1) =~= tail);
            }
            all
        } else {
            params
        };
        Ok(Function { name: f.name.clone(), params: all, return_type: None, body: Box::new(LuauNode::Block(body)) })
    }

    /// The function node for a free function, or the first error.
    pub fn transform_function(&self, f: &RustFn) -> (r: Result<LuauNode, String>)
        ensures
            match r {
                Ok(n) => fn_node_error(*f) is None && (n matches LuauNode::Function(g) && fn_node_ok(*f, *g, false)),
                Err(m) => fn_node_error(*f) == Some(m@),
            },
    {
        match self.function_node(f, false) {
            Ok(g) => Ok(LuauNode::Function(Box::new(g))),
            Err(m) => Err(m),
        }
    }

    /// The table for a struct with `fields`.
    fn transform_struct(&self, fields: &Vec<Option<String>>) -> (t: Table)
        ensures
            struct_node_ok(fields@, t),
    {
        let mut out: Vec<(String, LuauNode)> = Vec::new();
        let mut i: usize = 0;
        while i < fields.len()
            invariant
                i <= fields.len(),
                out@.len() == struct_params(fields@.take(i as int)).len(),
                forall|k: int|
                    0 <= k < out@.len() ==> (#[trigger] out@[k]).0@ == struct_params(fields@.take(i as int))[k]
                        && (out@[k].1 matches LuauNode::Program(p) && p.body@.len() == 0
                        && p.type_annotations@.len() == 0),
            decreases fields.len() - i,
        {
            proof {
                assert(fields@.take(i + 1).drop_last() =~= fields@.take(i as int));
            }
            match &fields[i] {
                Some(n) => {
                    out.push((n.clone(), LuauNode::Program(Program { body: Vec::new(), type_annotations: Vec::new() })));
                },
                None => {},
            }
            i = i + 1;
        }
        proof {
            assert(fields@.take(fields.len() as int) =~= fields@);
        }
        let count = out.len();
        Table {
            fields: out,
            optimization_hints: TableOptimizationHints {
                pre_allocate: Some(count),
                array_like: false,
                stable_keys: true,
                native_buffer_type: None,
                table_reuse: false,
            },
        }
    }

    /// The table of an `impl` block's functions, each under its name with
    /// `self` first, or the error of the first member that cannot be
    /// turned.
    fn transform_impl(&self, ms: &Vec<ImplMember>) -> (r: Result<LuauNode, String>)
        ensures
            match r {
                Ok(n) => members_node_error(ms@) is None && (n matches LuauNode::Table(t) && plain_hints(
                    t.optimization_hints,
                ) && methods_node_ok(ms@, t.fields@)),
                Err(m) => members_node_error(ms@) == Some(m@),
            },
    {
        let mut out: Vec<(String, LuauNode)> = Vec::new();
        let mut i: usize = 0;
        while i < ms.len()
            invariant
                i <= ms.len(),
                out@.len() == i,
                members_node_error(ms@.take(i as int)) is None,
                forall|k: int|
                    0 <= k < i ==> (#[trigger] ms@[k] matches ImplMember::Method(f) && out@[k].0@ == f.name@
                        && (out@[k].1 matches LuauNode::Function(g) && fn_node_ok(f, *g, true))),
            decreases ms.len() - i,
        {
            proof {
                assert(ms@.take(i + 1).drop_last() =~= ms@.take(i as int));
                assert(ms@.take(i + 1).last() == ms@[i as int]);
            }
            match &ms[i] {
                ImplMember::Method(f) => match self.function_node(f, true) {
                    Ok(g) => {
                        out.push((f.name.clone(), LuauNode::Function(Box::new(g))));
                    },
                    Err(m) => {
                        proof {
                            lemma_members_error_prefix(ms@, i as int + 1);
                        }
                        return Err(m);
                    },
                },
                ImplMember::Other(t) => {
                    proof {
                        lemma_members_error_prefix(ms@, i as int + 1);
                    }
                    return Err(refused("Unsupported impl item: ", t.as_str()));
                },
            }
            i = i + 1;
        }
        proof {
            assert(ms@.take(ms.len() as int) =~= ms@);
        }
        Ok(LuauNode::Table(Table { fields: out, optimization_hints: new_hints(false) }))
    }

    /// The node for an item (see `item_node_ok`), or its error.
    pub fn transform(&self, item: &ItemParts) -> (r: Result<LuauNode, String>)
        ensures
            match r {
                Ok(n) => item_node_error(*item) is None && item_node_ok(*item, n),
                Err(m) => item_node_error(*item) == Some(m@),
            },
    {
        match item {
            ItemParts::Fn(f) => self.transform_function(f),
            ItemParts::Struct(_, fields) => Ok(LuauNode::Table(self.transform_struct(fields))),
            ItemParts::Impl(ms) => self.transform_impl(ms),
            ItemParts::Value(x) => self.transform_expr(x),
            ItemParts::Other(t) => Err(refused("Unsupported item type: ", t.as_str())),
        }
    }

    /// Parse Rust source and turn each item into a node: a program of
    /// them, or the parse error, or the first item's error.
    pub fn transform_program(&mut self, input: &str) -> (r: Result<Program, String>)
        ensures
            program_result(input@, r),
            final(self).current_scope_vars == old(self).current_scope_vars,
    {
        let texts = match file_item_texts(input) {
            Ok(ts) => ts,
            Err(e) => {
                return Err(refused("Failed to parse Rust code: ", e.as_str()));
            },
        };
        let ghost ts = views(texts@);
        let mut parts: Vec<ItemParts> = Vec::new();
        let mut i: usize = 0;
        while i < texts.len()
            invariant
                i <= texts.len(),
                ts == views(texts@),
                parts@.len() == i,
                forall|k: int| 0 <= k < i ==> parts_reads(ts[k], read_depth(), #[trigger] parts@[k]),
            decreases texts.len() - i,
        {
            parts.push(read_parts(texts[i].as_str()));
            i = i + 1;
        }
        proof {
            assert(parts_of(input@, parts@));
        }
        let mut body: Vec<LuauNode> = Vec::new();
        let mut j: usize = 0;
        while j < parts.len()
            invariant
                j <= parts.len(),
                parts_of(input@, parts@),
                body@.len() == j,
                items_node_error(parts@.take(j as int)) is None,
                forall|k: int| 0 <= k < j ==> item_node_ok(parts@[k], #[trigger] body@[k]),
            decreases parts.len() - j,
        {
            proof {
                assert(parts@.take(j + 1).drop_last() =~= parts@.take(j as int));
                assert(parts@.take(j + 1).last() == parts@[j as int]);
            }
            match self.transform(&parts[j]) {
                Ok(n) => {
                    body.push(n);
                },
                Err(e) => {
                    proof {
                        lemma_items_node_error_prefix(parts@, j as int + 1);
                    }
                    return Err(refused("Transform error: ", e.as_str()));
                },
            }
            j = j + 1;
        }
        proof {
            assert(parts@.take(parts@.len() as int) =~= parts@);
        }
        Ok(Program { body, type_annotations: Vec::new() })
    }
}

/// An error within a prefix of parameters is the error of the whole.
proof fn lemma_params_error_prefix(ps: Seq<FnParam>, n: int)
    requires
        0 <= n <= ps.len(),
        params_node_error(ps.take(n)) is Some,
    ensures
        params_node_error(ps) == params_node_error(ps.take(n)),
    decreases ps.len(),
{
    if n < ps.len() {
        assert(ps.drop_last().take(n) =~= ps.take(n));
        lemma_params_error_prefix(ps.drop_last(), n);
    } else {
        assert(ps.take(n) =~= ps);
    }
}

/// An error within a prefix of members is the error of the whole.
proof fn lemma_members_error_prefix(ms: Seq<ImplMember>, n: int)
    requires
        0 <= n <= ms.len(),
        members_node_error(ms.take(n)) is Some,
    ensures
        members_node_error(ms) == members_node_error(ms.take(n)),
    decreases ms.len(),
{
    if n < ms.len() {
        assert(ms.drop_last().take(n) =~= ms.take(n));
        lemma_members_error_prefix(ms.drop_last(), n);
    } else {
        assert(ms.take(n) =~= ms);
    }
}

/// An error within a prefix of items is the error of the whole.
proof fn lemma_items_node_error_prefix(ps: Seq<ItemParts>, n: int)
    requires
        0 <= n <= ps.len(),
        items_node_error(ps.take(n)) is Some,
    ensures
        items_node_error(ps) == items_node_error(ps.take(n)),
    decreases ps.len(),
{
    if n < ps.len() {
        assert(ps.drop_last().take(n) =~= ps.take(n));
        lemma_items_node_error_prefix(ps.drop_last(), n);
    } else {
        assert(ps.take(n) =~= ps);
    }
}

/// The hints of a new table, marked as a `Vector3` where `vector` holds.
fn new_hints(vector: bool) -> (h: TableOptimizationHints)
    ensures
        if vector {
            vector_hints(h)
        } else {
            plain_hints(h)
        },
{
    TableOptimizationHints {
        pre_allocate: None,
        array_like: false,
        stable_keys: false,
        native_buffer_type: if vector {
            Some(String::from_str("Vector3"))
        } else {
            None
        },
        table_reuse: false,
    }
}

/// The source text an expression keeps.
fn source_text(e: &RustExpr) -> (r: &str)
    ensures
        r@ == source_of(*e),
{
    match e {
        RustExpr::OtherLit(t) => t.as_str(),
        RustExpr::Path(_, t) => t.as_str(),
        RustExpr::Paren(_, t) => t.as_str(),
        RustExpr::MethodCall(_, _, _, t) => t.as_str(),
        RustExpr::If(_, _, _, t) => t.as_str(),
        RustExpr::Block(_, t) => t.as_str(),
        RustExpr::Assign(_, _, t) => t.as_str(),
        RustExpr::Return(_, t) => t.as_str(),
        RustExpr::Unsupported(t) => t.as_str(),
        _ => {
            proof {
                reveal_strlit("");
            }
            ""
        },
    }
}

/// Two expressions read from one text translate alike: with the same
/// error, and into values that read alike.
pub proof fn lemma_read_expr_alike(t: Seq<char>, fuel: nat, e1: RustExpr, e2: RustExpr)
    requires
        expr_reads(t, fuel, e1),
        expr_reads(t, fuel, e2),
    ensures
        expr_error(e1) == expr_error(e2),
        forall|x: LuauExpr, y: LuauExpr|
            #![trigger expr_ok(e1, x), expr_ok(e2, y)]
            expr_ok(e1, x) && expr_ok(e2, y) ==> expr_text(x) == expr_text(y),
    decreases fuel, 0nat,
{
    if fuel > 0 {
        let f = (fuel - 1) as nat;
        match expr_view(t) {
            ExprView::Paren(i) => {
                match (e1, e2) {
                    (RustExpr::Paren(a1, _), RustExpr::Paren(a2, _)) => {
                        lemma_read_expr_alike(i, f, *a1, *a2);
                        assert forall|x: LuauExpr, y: LuauExpr| expr_ok(e1, x) && expr_ok(e2, y) implies expr_text(
                            x,
                        ) == expr_text(y) by {
                            match (x, y) {
                                (LuauExpr::Paren(px), LuauExpr::Paren(py)) => {
                                    assert(expr_ok(*a1, *px));
                                    assert(expr_ok(*a2, *py));
                                },
                                _ => {},
                            }
                        }
                    },
                    _ => {},
                }
            },
            ExprView::Binary(l, _, r) => {
                match (e1, e2) {
                    (RustExpr::Binary(l1, _, r1), RustExpr::Binary(l2, _, r2)) => {
                        lemma_read_expr_alike(l, f, *l1, *l2);
                        lemma_read_expr_alike(r, f, *r1, *r2);
                        assert forall|x: LuauExpr, y: LuauExpr| expr_ok(e1, x) && expr_ok(e2, y) implies expr_text(
                            x,
                        ) == expr_text(y) by {
                            match (x, y) {
                                (
                                    LuauExpr::BinaryOp { left: lx, op: _, right: rx },
                                    LuauExpr::BinaryOp { left: ly, op: _, right: ry },
                                ) => {
                                    assert(expr_ok(*l1, *lx));
                                    assert(expr_ok(*l2, *ly));
                                    assert(expr_ok(*r1, *rx));
                                    assert(expr_ok(*r2, *ry));
                                },
                                _ => {},
                            }
                        }
                    },
                    _ => {},
                }
            },
            ExprView::Array(ts) => {
                lemma_read_exprs_alike(ts, f, e1->Array_0@, e2->Array_0@);
                assert forall|x: LuauExpr, y: LuauExpr| expr_ok(e1, x) && expr_ok(e2, y) implies expr_text(x)
                    == expr_text(y) by {
                    assert(exprs_ok(e1->Array_0@, x->Table_0.array_items@));
                    assert(exprs_ok(e2->Array_0@, y->Table_0.array_items@));
                    assert(expr_texts(x->Table_0.array_items@) == expr_texts(y->Table_0.array_items@));
                    assert(field_texts(x->Table_0.fields@) == Seq::<Seq<char>>::empty());
                    assert(field_texts(y->Table_0.fields@) == Seq::<Seq<char>>::empty());
                }
            },
            ExprView::Tuple(ts) => {
                lemma_read_exprs_alike(ts, f, e1->Tuple_0@, e2->Tuple_0@);
                assert forall|x: LuauExpr, y: LuauExpr| expr_ok(e1, x) && expr_ok(e2, y) implies expr_text(x)
                    == expr_text(y) by {
                    assert(exprs_ok(e1->Tuple_0@, x->Table_0.array_items@));
                    assert(exprs_ok(e2->Tuple_0@, y->Table_0.array_items@));
                    assert(expr_texts(x->Table_0.array_items@) == expr_texts(y->Table_0.array_items@));
                    assert(field_texts(x->Table_0.fields@) == Seq::<Seq<char>>::empty());
                    assert(field_texts(y->Table_0.fields@) == Seq::<Seq<char>>::empty());
                }
            },
            ExprView::Call(c, ts) => {
                lemma_read_expr_alike(c, f, *e1->Call_0, *e2->Call_0);
                lemma_read_exprs_alike(ts, f, e1->Call_1@, e2->Call_1@);
                assert forall|x: LuauExpr, y: LuauExpr| expr_ok(e1, x) && expr_ok(e2, y) implies expr_text(x)
                    == expr_text(y) by {
                    assert(expr_ok(*e1->Call_0, *x->Call_func));
                    assert(expr_ok(*e2->Call_0, *y->Call_func));
                    assert(exprs_ok(e1->Call_1@, x->Call_args@));
                    assert(exprs_ok(e2->Call_1@, y->Call_args@));
                }
            },
            _ => {},
        }
    }
}

/// Expressions read from the same texts translate alike, one by one.
pub proof fn lemma_read_exprs_alike(ts: Seq<Seq<char>>, fuel: nat, es1: Seq<RustExpr>, es2: Seq<RustExpr>)
    requires
        exprs_reads(ts, fuel, es1),
        exprs_reads(ts, fuel, es2),
    ensures
        exprs_error(es1) == exprs_error(es2),
        forall|xs: Seq<LuauExpr>, ys: Seq<LuauExpr>|
            #![trigger exprs_ok(es1, xs), exprs_ok(es2, ys)]
            exprs_ok(es1, xs) && exprs_ok(es2, ys) ==> expr_texts(xs) == expr_texts(ys),
    decreases fuel, 1nat, ts.len(),
{
    if ts.len() > 0 {
        let n = ts.len() - 1;
        assert(exprs_reads(ts.drop_last(), fuel, es1.drop_last())) by {
            assert forall|i: int| 0 <= i < n implies expr_reads(ts.drop_last()[i], fuel, #[trigger] es1.drop_last()[i]) by {
                assert(expr_reads(ts[i], fuel, es1[i]));
            }
        }
        assert(exprs_reads(ts.drop_last(), fuel, es2.drop_last())) by {
            assert forall|i: int| 0 <= i < n implies expr_reads(ts.drop_last()[i], fuel, #[trigger] es2.drop_last()[i]) by {
                assert(expr_reads(ts[i], fuel, es2[i]));
            }
        }
        lemma_read_exprs_alike(ts.drop_last(), fuel, es1.drop_last(), es2.drop_last());
        assert(expr_reads(ts[n], fuel, es1[n]));
        assert(expr_reads(ts[n], fuel, es2[n]));
        lemma_read_expr_alike(ts[n], fuel, es1[n], es2[n]);
        assert(es1.last() == es1[n]);
        assert(es2.last() == es2[n]);
        assert forall|xs: Seq<LuauExpr>, ys: Seq<LuauExpr>| exprs_ok(es1, xs) && exprs_ok(es2, ys) implies expr_texts(
            xs,
        ) == expr_texts(ys) by {
            assert(exprs_ok(es1.drop_last(), xs.drop_last()));
            assert(exprs_ok(es2.drop_last(), ys.drop_last()));
            assert(expr_texts(xs.drop_last()) == expr_texts(ys.drop_last()));
            assert(expr_ok(es1[n], xs.last()));
            assert(expr_ok(es2[n], ys.last()));
            assert(expr_text(xs.last()) == expr_text(ys.last()));
        }
    }
}

/// Two expressions read from one text are of the same kind.
proof fn lemma_read_kind(t: Seq<char>, fuel: nat, e1: RustExpr, e2: RustExpr)
    requires
        expr_reads(t, fuel, e1),
        expr_reads(t, fuel, e2),
    ensures
        (e1 is Path) == (e2 is Path),
        (e1 is Block) == (e2 is Block),
        (e1 is If) == (e2 is If),
        e1 is Path ==> views(e1->Path_0@) == views(e2->Path_0@),
{
}

/// Two expression statements read from one text translate alike.
pub proof fn lemma_read_expr_stmt_alike(t: Seq<char>, fuel: nat, e1: RustExpr, e2: RustExpr, tail: bool)
    requires
        expr_reads(t, fuel, e1),
        expr_reads(t, fuel, e2),
    ensures
        expr_stmt_error(e1, tail) == expr_stmt_error(e2, tail),
        forall|a: LuauStmt, b: LuauStmt, l: nat|
            #![trigger expr_stmt_ok(e1, tail, a), expr_stmt_ok(e2, tail, b), stmt_text(a, l)]
            expr_stmt_ok(e1, tail, a) && expr_stmt_ok(e2, tail, b) ==> stmt_text(a, l) == stmt_text(b, l),
    decreases fuel, 1nat,
{
    reveal_with_fuel(expr_reads, 2);
    lemma_read_expr_alike(t, fuel, e1, e2);
    if fuel > 0 {
        let f = (fuel - 1) as nat;
        match expr_view(t) {
            ExprView::If(c, ss, el) => {
                match (e1, e2) {
                    (RustExpr::If(c1, th1, els1, _), RustExpr::If(c2, th2, els2, _)) => {
                        lemma_read_expr_alike(c, f, *c1, *c2);
                        lemma_read_block_alike(ss, f, th1@, th2@, tail);
                        match (el, els1, els2) {
                            (Some(et), Some(y1), Some(y2)) => {
                                lemma_read_kind(et, f, *y1, *y2);
                                lemma_read_expr_stmt_alike(et, f, *y1, *y2, tail);
                                if f > 0 {
                                    match (expr_view(et), *y1, *y2) {
                                        (ExprView::Block(sts), RustExpr::Block(b1, _), RustExpr::Block(b2, _)) => {
                                            lemma_read_block_alike(sts, (f - 1) as nat, b1@, b2@, tail);
                                        },
                                        _ => {},
                                    }
                                }
                                assert forall|a: LuauStmt, b: LuauStmt, l: nat|
                                    #![trigger expr_stmt_ok(e1, tail, a), expr_stmt_ok(e2, tail, b), stmt_text(a, l)]
                                    expr_stmt_ok(e1, tail, a) && expr_stmt_ok(e2, tail, b) implies stmt_text(a, l)
                                    == stmt_text(b, l) by {
                                    let dl = deeper(l);
                                    assert(expr_ok(*c1, a->If_condition));
                                    assert(expr_ok(*c2, b->If_condition));
                                    assert(block_ok(th1@, tail, a->If_then_block@));
                                    assert(block_ok(th2@, tail, b->If_then_block@));
                                    assert(block_text(a->If_then_block@, dl) == block_text(b->If_then_block@, dl));
                                    let ba = a->If_else_block->Some_0@;
                                    let bb = b->If_else_block->Some_0@;
                                    if *y1 is Block {
                                        assert(block_ok(y1->Block_0@, tail, ba));
                                        assert(block_ok(y2->Block_0@, tail, bb));
                                        assert(block_text(ba, dl) == block_text(bb, dl));
                                    } else if *y1 is If {
                                        assert(expr_stmt_ok(*y1, tail, ba[0]));
                                        assert(expr_stmt_ok(*y2, tail, bb[0]));
                                        assert(stmt_text(ba[0], dl) == stmt_text(bb[0], dl));
                                        assert(ba.drop_last().len() == 0);
                                        assert(bb.drop_last().len() == 0);
                                        assert(block_text(ba.drop_last(), dl) == Seq::<char>::empty());
                                        assert(block_text(bb.drop_last(), dl) == Seq::<char>::empty());
                                        assert(ba.last() == ba[0]);
                                        assert(bb.last() == bb[0]);
                                        assert(block_text(ba, dl) == block_text(bb, dl));
                                    }
                                }
                            },
                            _ => {
                                assert forall|a: LuauStmt, b: LuauStmt, l: nat|
                                    #![trigger expr_stmt_ok(e1, tail, a), expr_stmt_ok(e2, tail, b), stmt_text(a, l)]
                                    expr_stmt_ok(e1, tail, a) && expr_stmt_ok(e2, tail, b) implies stmt_text(a, l)
                                    == stmt_text(b, l) by {
                                    let dl = deeper(l);
                                    assert(expr_ok(*c1, a->If_condition));
                                    assert(expr_ok(*c2, b->If_condition));
                                    assert(block_ok(th1@, tail, a->If_then_block@));
                                    assert(block_ok(th2@, tail, b->If_then_block@));
                                    assert(block_text(a->If_then_block@, dl) == block_text(b->If_then_block@, dl));
                                }
                            },
                        }
                    },
                    _ => {},
                }
            },
            ExprView::Assign(lt, rt) => {
                match (e1, e2) {
                    (RustExpr::Assign(l1, r1, _), RustExpr::Assign(l2, r2, _)) => {
                        lemma_read_kind(lt, f, *l1, *l2);
                        lemma_read_expr_alike(rt, f, *r1, *r2);
                        assert forall|a: LuauStmt, b: LuauStmt, l: nat|
                            #![trigger expr_stmt_ok(e1, tail, a), expr_stmt_ok(e2, tail, b), stmt_text(a, l)]
                            expr_stmt_ok(e1, tail, a) && expr_stmt_ok(e2, tail, b) implies stmt_text(a, l) == stmt_text(
                                b,
                                l,
                            ) by {
                            let va = a->GlobalAssign_1@;
                            let vb = b->GlobalAssign_1@;
                            assert(expr_ok(*r1, va[0]));
                            assert(expr_ok(*r2, vb[0]));
                            lemma_single_texts(va);
                            lemma_single_texts(vb);
                        }
                    },
                    _ => {},
                }
            },
            ExprView::Return(v) => {
                match (v, e1, e2) {
                    (Some(vt), RustExpr::Return(Some(x1), _), RustExpr::Return(Some(x2), _)) => {
                        lemma_read_expr_alike(vt, f, *x1, *x2);
                        assert forall|a: LuauStmt, b: LuauStmt, l: nat|
                            #![trigger expr_stmt_ok(e1, tail, a), expr_stmt_ok(e2, tail, b), stmt_text(a, l)]
                            expr_stmt_ok(e1, tail, a) && expr_stmt_ok(e2, tail, b) implies stmt_text(a, l) == stmt_text(
                                b,
                                l,
                            ) by {
                            assert(expr_ok(*x1, a->Return_0->Some_0));
                            assert(expr_ok(*x2, b->Return_0->Some_0));
                        }
                    },
                    _ => {},
                }
            },
            ExprView::Block(_) => {},
            _ => {
                assert forall|a: LuauStmt, b: LuauStmt, l: nat|
                    #![trigger expr_stmt_ok(e1, tail, a), expr_stmt_ok(e2, tail, b), stmt_text(a, l)]
                    expr_stmt_ok(e1, tail, a) && expr_stmt_ok(e2, tail, b) implies stmt_text(a, l) == stmt_text(b, l) by {
                    if tail {
                        assert(expr_ok(e1, a->Return_0->Some_0));
                        assert(expr_ok(e2, b->Return_0->Some_0));
                    } else {
                        let va = a->LocalAssign_1@;
                        let vb = b->LocalAssign_1@;
                        assert(expr_ok(e1, va[0]));
                        assert(expr_ok(e2, vb[0]));
                        lemma_single_texts(va);
                        lemma_single_texts(vb);
                    }
                }
            },
        }
    } else {
        assert forall|a: LuauStmt, b: LuauStmt, l: nat|
            #![trigger expr_stmt_ok(e1, tail, a), expr_stmt_ok(e2, tail, b), stmt_text(a, l)]
            expr_stmt_ok(e1, tail, a) && expr_stmt_ok(e2, tail, b) implies stmt_text(a, l) == stmt_text(b, l) by {
            if tail {
                assert(expr_ok(e1, a->Return_0->Some_0));
            } else {
                assert(expr_ok(e1, a->LocalAssign_1@[0]));
            }
        }
    }
}

/// Two statements read from one text translate alike.
pub proof fn lemma_read_stmt_alike(t: Seq<char>, fuel: nat, s1: RustStmt, s2: RustStmt, tail: bool)
    requires
        stmt_reads(t, fuel, s1),
        stmt_reads(t, fuel, s2),
    ensures
        stmt_error(s1, tail) == stmt_error(s2, tail),
        forall|a: LuauStmt, b: LuauStmt, l: nat|
            #![trigger stmt_ok(s1, tail, a), stmt_ok(s2, tail, b), stmt_text(a, l)]
            stmt_ok(s1, tail, a) && stmt_ok(s2, tail, b) ==> stmt_text(a, l) == stmt_text(b, l),
    decreases fuel, 2nat,
{
    match stmt_view(t) {
        StmtView::Let(p, init) => {
            match (s1, s2) {
                (RustStmt::Let(p1, i1), RustStmt::Let(p2, i2)) => {
                    match (init, i1, i2) {
                        (Some(it), Some(x1), Some(x2)) => {
                            lemma_read_expr_alike(it, fuel, x1, x2);
                        },
                        _ => {},
                    }
                    assert forall|a: LuauStmt, b: LuauStmt, l: nat|
                        #![trigger stmt_ok(s1, tail, a), stmt_ok(s2, tail, b), stmt_text(a, l)]
                        stmt_ok(s1, tail, a) && stmt_ok(s2, tail, b) implies stmt_text(a, l) == stmt_text(b, l) by {
                        let va = a->LocalAssign_1@;
                        let vb = b->LocalAssign_1@;
                        match (i1, i2) {
                            (Some(x1), Some(x2)) => {
                                assert(expr_ok(x1, va[0]));
                                assert(expr_ok(x2, vb[0]));
                            },
                            _ => {},
                        }
                        lemma_single_texts(va);
                        lemma_single_texts(vb);
                    }
                },
                _ => {},
            }
        },
        StmtView::Expr(et, semi) => {
            lemma_read_expr_stmt_alike(et, fuel, s1->Expr_0, s2->Expr_0, tail && !semi);
            assert forall|a: LuauStmt, b: LuauStmt, l: nat|
                #![trigger stmt_ok(s1, tail, a), stmt_ok(s2, tail, b), stmt_text(a, l)]
                stmt_ok(s1, tail, a) && stmt_ok(s2, tail, b) implies stmt_text(a, l) == stmt_text(b, l) by {
                assert(expr_stmt_ok(s1->Expr_0, tail && !semi, a));
                assert(expr_stmt_ok(s2->Expr_0, tail && !semi, b));
            }
        },
        _ => {},
    }
}

/// Two blocks read from the same texts translate alike.
pub proof fn lemma_read_block_alike(ts: Seq<Seq<char>>, fuel: nat, ss1: Seq<RustStmt>, ss2: Seq<RustStmt>, tail: bool)
    requires
        stmts_reads(ts, fuel, ss1),
        stmts_reads(ts, fuel, ss2),
    ensures
        block_error(ss1, tail) == block_error(ss2, tail),
        forall|a: Seq<LuauStmt>, b: Seq<LuauStmt>, l: nat|
            #![trigger block_ok(ss1, tail, a), block_ok(ss2, tail, b), block_text(a, l)]
            block_ok(ss1, tail, a) && block_ok(ss2, tail, b) ==> block_text(a, l) == block_text(b, l),
    decreases fuel, 3nat, ts.len(),
{
    if ts.len() > 0 {
        let n = ts.len() - 1;
        assert(stmts_reads(ts.drop_last(), fuel, ss1.drop_last())) by {
            assert forall|i: int| 0 <= i < n implies stmt_reads(ts.drop_last()[i], fuel, #[trigger] ss1.drop_last()[i]) by {
                assert(stmt_reads(ts[i], fuel, ss1[i]));
            }
        }
        assert(stmts_reads(ts.drop_last(), fuel, ss2.drop_last())) by {
            assert forall|i: int| 0 <= i < n implies stmt_reads(ts.drop_last()[i], fuel, #[trigger] ss2.drop_last()[i]) by {
                assert(stmt_reads(ts[i], fuel, ss2[i]));
            }
        }
        lemma_read_block_alike(ts.drop_last(), fuel, ss1.drop_last(), ss2.drop_last(), false);
        assert(stmt_reads(ts[n], fuel, ss1[n]));
        assert(stmt_reads(ts[n], fuel, ss2[n]));
        lemma_read_stmt_alike(ts[n], fuel, ss1[n], ss2[n], tail);
        assert(ss1.last() == ss1[n]);
        assert(ss2.last() == ss2[n]);
        assert forall|a: Seq<LuauStmt>, b: Seq<LuauStmt>, l: nat|
            #![trigger block_ok(ss1, tail, a), block_ok(ss2, tail, b), block_text(a, l)]
            block_ok(ss1, tail, a) && block_ok(ss2, tail, b) implies block_text(a, l) == block_text(b, l) by {
            assert(block_ok(ss1.drop_last(), false, a.drop_last()));
            assert(block_ok(ss2.drop_last(), false, b.drop_last()));
            assert(block_text(a.drop_last(), l) == block_text(b.drop_last(), l));
            assert(stmt_ok(ss1[n], tail, a.last()));
            assert(stmt_ok(ss2[n], tail, b.last()));
            assert(stmt_text(a.last(), l) == stmt_text(b.last(), l));
        }
    }
}

/// An error within a prefix of expressions is the error of the whole.
proof fn lemma_node_exprs_error_prefix(es: Seq<RustExpr>, n: int)
    requires
        0 <= n <= es.len(),
        node_exprs_error(es.take(n)) is Some,
    ensures
        node_exprs_error(es) == node_exprs_error(es.take(n)),
    decreases es.len(),
{
    if n < es.len() {
        assert(es.drop_last().take(n) =~= es.take(n));
        lemma_node_exprs_error_prefix(es.drop_last(), n);
    } else {
        assert(es.take(n) =~= es);
    }
}

/// An error within a prefix of statements is the error of the whole.
proof fn lemma_node_block_error_prefix(ss: Seq<RustStmt>, n: int)
    requires
        0 <= n <= ss.len(),
        node_block_error(ss.take(n)) is Some,
    ensures
        node_block_error(ss) == node_block_error(ss.take(n)),
    decreases ss.len(),
{
    if n < ss.len() {
        assert(ss.drop_last().take(n) =~= ss.take(n));
        lemma_node_block_error_prefix(ss.drop_last(), n);
    } else {
        assert(ss.take(n) =~= ss);
    }
}

/// The texts of a single expression.
proof fn lemma_single_texts(xs: Seq<LuauExpr>)
    requires
        xs.len() == 1,
    ensures
        expr_texts(xs) == seq![expr_text(xs[0])],
{
    assert(xs.drop_last().len() == 0);
    assert(expr_texts(xs.drop_last()) == Seq::<Seq<char>>::empty());
    assert(xs.last() == xs[0]);
    assert(expr_texts(xs) =~= seq![expr_text(xs[0])]);
}

/// An error within a prefix of expressions is the error of the whole.
proof fn lemma_exprs_error_prefix(es: Seq<RustExpr>, n: int)
    requires
        0 <= n <= es.len(),
        exprs_error(es.take(n)) is Some,
    ensures
        exprs_error(es) == exprs_error(es.take(n)),
    decreases es.len(),
{
    if n < es.len() {
        assert(es.drop_last().take(n) =~= es.take(n));
        lemma_exprs_error_prefix(es.drop_last(), n);
    } else {
        assert(es.take(n) =~= es);
    }
}

/// An error within a proper prefix of a block is the error of the whole.
proof fn lemma_block_error_prefix(ss: Seq<RustStmt>, n: int, tail: bool)
    requires
        0 <= n < ss.len(),
        block_error(ss.take(n), false) is Some,
    ensures
        block_error(ss, tail) == block_error(ss.take(n), false),
    decreases ss.len(),
{
    if n < ss.len() - 1 {
        assert(ss.drop_last().take(n) =~= ss.take(n));
        lemma_block_error_prefix(ss.drop_last(), n, false);
    } else {
        assert(ss.drop_last() =~= ss.take(n));
    }
}

} // verus!
