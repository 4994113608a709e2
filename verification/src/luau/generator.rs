//! Printing of a Luau syntax tree as source text.

use vstd::prelude::*;
use crate::luau::{LuauAst, LuauExpr, LuauFunction, LuauStmt};
use crate::text::{
    check_identifier, decimal_int, escape_quotes, i64_to_string, is_identifier, join, join_strings,
    push_char, push_escaped, views,
};

verus! {

/// The indentation of nesting level `level`: four spaces per level.
pub open spec fn indent(level: nat) -> Seq<char>
    decreases level,
{
    if level == 0 {
        Seq::empty()
    } else {
        indent((level - 1) as nat) + "    "@
    }
}

/// The level of a nested block. Levels are machine integers, so the printer
/// stays at the largest one rather than overflow.
pub open spec fn deeper(level: nat) -> nat {
    if level < usize::MAX {
        level + 1
    } else {
        level
    }
}

/// The text of an expression.
pub open spec fn expr_text(e: LuauExpr) -> Seq<char>
    decreases e,
{
    match e {
        LuauExpr::String(s) => seq!['"'] + escape_quotes(s@) + seq!['"'],
        LuauExpr::Number(n) => decimal_int(n as int),
        LuauExpr::Boolean(b) => if b {
            "true"@
        } else {
            "false"@
        },
        LuauExpr::Nil => "nil"@,
        LuauExpr::Variable(name) => name@,
        LuauExpr::Table(t) => seq!['{'] + join(
            expr_texts(t.array_items@) + field_texts(t.fields@),
            ", "@,
        ) + seq!['}'],
        LuauExpr::Call { func, args } => expr_text(*func) + seq!['('] + join(expr_texts(args@), ", "@)
            + seq![')'],
        LuauExpr::BinaryOp { left, op, right } => expr_text(*left) + seq![' '] + op@ + seq![' ']
            + expr_text(*right),
        LuauExpr::UnaryOp { op, expr } => op@ + expr_text(*expr),
        LuauExpr::Index { table, key } => match *key {
            LuauExpr::String(s) => if is_identifier(s@) {
                expr_text(*table) + seq!['.'] + s@
            } else {
                expr_text(*table) + seq!['['] + expr_text(*key) + seq![']']
            },
            _ => expr_text(*table) + seq!['['] + expr_text(*key) + seq![']'],
        },
        LuauExpr::Function(f) => function_text(f, 0),
        LuauExpr::Paren(inner) => seq!['('] + expr_text(*inner) + seq![')'],
        LuauExpr::Raw(raw) => raw@,
    }
}

/// The texts of a sequence of expressions.
pub open spec fn expr_texts(es: Seq<LuauExpr>) -> Seq<Seq<char>>
    decreases es,
{
    if es.len() == 0 {
        Seq::empty()
    } else {
        expr_texts(es.drop_last()).push(expr_text(es.last()))
    }
}

/// The text of one keyed table field whose value reads `value`.
pub open spec fn field_text(key: Seq<char>, value: Seq<char>) -> Seq<char> {
    if is_identifier(key) {
        key + " = "@ + value
    } else {
        "[\""@ + escape_quotes(key) + "\"] = "@ + value
    }
}

/// The texts of the keyed fields of a table, in order.
pub open spec fn field_texts(fields: Seq<(String, LuauExpr)>) -> Seq<Seq<char>>
    decreases fields,
{
    if fields.len() == 0 {
        Seq::empty()
    } else {
        field_texts(fields.drop_last()).push(field_text(fields.last().0@, expr_text(fields.last().1)))
    }
}

/// The names of a sequence of strings joined with `, `.
pub open spec fn names_text(names: Seq<String>) -> Seq<char> {
    join(views(names), ", "@)
}

/// The text of a function definition at nesting level `level`.
pub open spec fn function_text(f: LuauFunction, level: nat) -> Seq<char>
    decreases f,
{
    indent(level) + (match f.name {
        Some(name) => "function "@ + name@ + seq!['('],
        None => "function("@,
    }) + names_text(f.params@) + (if f.is_variadic {
        if f.params@.len() > 0 {
            ", ..."@
        } else {
            "..."@
        }
    } else {
        Seq::empty()
    }) + ")\n"@ + block_text(f.body@, deeper(level)) + indent(level) + "end"@
}

/// The text of a block: each statement followed by a line break.
pub open spec fn block_text(stmts: Seq<LuauStmt>, level: nat) -> Seq<char>
    decreases stmts,
{
    if stmts.len() == 0 {
        Seq::empty()
    } else {
        block_text(stmts.drop_last(), level) + stmt_text(stmts.last(), level) + seq!['\n']
    }
}

/// The text of an assignment's right-hand side, given the texts of its
/// values: ` = ` and the values, or nothing when there are none.
pub open spec fn values_text(texts: Seq<Seq<char>>) -> Seq<char> {
    if texts.len() == 0 {
        Seq::empty()
    } else {
        " = "@ + join(texts, ", "@)
    }
}

/// The text of a statement at nesting level `level`.
pub open spec fn stmt_text(s: LuauStmt, level: nat) -> Seq<char>
    decreases s,
{
    match s {
        LuauStmt::LocalAssign(names, exprs) => indent(level) + "local "@ + names_text(names@)
            + values_text(expr_texts(exprs@)),
        LuauStmt::GlobalAssign(names, exprs) => indent(level) + names_text(names@) + values_text(
            expr_texts(exprs@),
        ),
        LuauStmt::FunctionDecl(f) => function_text(f, level),
        LuauStmt::Return(e) => indent(level) + "return"@ + match e {
            Some(e) => seq![' '] + expr_text(e),
            None => Seq::empty(),
        },
        LuauStmt::If { condition, then_block, else_block } => indent(level) + "if "@ + expr_text(
            condition,
        ) + " then\n"@ + block_text(then_block@, deeper(level)) + match else_block {
            Some(b) => indent(level) + "else\n"@ + block_text(b@, deeper(level)),
            None => Seq::empty(),
        } + indent(level) + "end"@,
        LuauStmt::While { condition, body } => indent(level) + "while "@ + expr_text(condition)
            + " do\n"@ + block_text(body@, deeper(level)) + indent(level) + "end"@,
        LuauStmt::For { var, start, end, step, body } => indent(level) + "for "@ + var@ + " = "@
            + expr_text(start) + ", "@ + expr_text(end) + match step {
            Some(step) => ", "@ + expr_text(step),
            None => Seq::empty(),
        } + " do\n"@ + block_text(body@, deeper(level)) + indent(level) + "end"@,
        LuauStmt::ForIn { vars, iterators, body } => indent(level) + "for "@ + names_text(vars@)
            + " in "@ + join(expr_texts(iterators@), ", "@) + " do\n"@ + block_text(
            body@,
            deeper(level),
        ) + indent(level) + "end"@,
        LuauStmt::Comment(c) => indent(level) + "-- "@ + c@,
        LuauStmt::Raw(raw) => indent(level) + raw@,
    }
}

/// An operation is written left operand, operator, right operand, one
/// space apart; a call is written callee first, then its arguments in
/// order inside parentheses.
pub proof fn law_expression_order(e: LuauExpr)
    ensures
        e matches LuauExpr::BinaryOp { left, op, right } ==> expr_text(e) == expr_text(*left) + " "@ + op@ + " "@
            + expr_text(*right),
        e matches LuauExpr::Call { func, args } ==> expr_text(e) == expr_text(*func) + "("@ + join(
            expr_texts(args@),
            ", "@,
        ) + ")"@,
{
    reveal_strlit(" ");
    reveal_strlit("(");
    reveal_strlit(")");
    match e {
        LuauExpr::BinaryOp { left, op, right } => {
            assert(expr_text(e) =~= expr_text(*left) + " "@ + op@ + " "@ + expr_text(*right));
        },
        LuauExpr::Call { func, args } => {
            assert(expr_text(e) =~= expr_text(*func) + "("@ + join(expr_texts(args@), ", "@) + ")"@);
        },
        _ => {},
    }
}

/// How a statement opens: its keyword, then its parts in source order.
pub open spec fn stmt_opening(s: LuauStmt, level: nat) -> Seq<char> {
    match s {
        LuauStmt::LocalAssign(names, _) => indent(level) + "local "@ + names_text(names@),
        LuauStmt::GlobalAssign(names, _) => indent(level) + names_text(names@),
        LuauStmt::Return(e) => indent(level) + "return"@,
        LuauStmt::If { condition, .. } => indent(level) + "if "@ + expr_text(condition) + " then\n"@,
        LuauStmt::While { condition, .. } => indent(level) + "while "@ + expr_text(condition) + " do\n"@,
        LuauStmt::For { var, start, end, step, .. } => indent(level) + "for "@ + var@ + " = "@ + expr_text(start)
            + ", "@ + expr_text(end) + (match step {
            Some(x) => ", "@ + expr_text(x),
            None => Seq::empty(),
        }) + " do\n"@,
        LuauStmt::ForIn { vars, iterators, .. } => indent(level) + "for "@ + names_text(vars@) + " in "@ + join(
            expr_texts(iterators@),
            ", "@,
        ) + " do\n"@,
        LuauStmt::Comment(c) => indent(level) + "-- "@ + c@,
        LuauStmt::Raw(r) => indent(level) + r@,
        LuauStmt::FunctionDecl(_) => indent(level),
    }
}

/// Every statement is written starting with its opening: its indentation,
/// its keyword, and its parts in order (a loop's variable, start bound,
/// end bound and step; a condition before `then` or `do`).
pub proof fn law_statement_openings(s: LuauStmt, level: nat)
    ensures
        stmt_opening(s, level).len() <= stmt_text(s, level).len(),
        stmt_text(s, level).take(stmt_opening(s, level).len() as int) == stmt_opening(s, level),
{
    let t = stmt_text(s, level);
    let o = stmt_opening(s, level);
    match s {
        LuauStmt::FunctionDecl(f) => {
            assert(t =~= o + t.skip(o.len() as int));
        },
        _ => {
            assert(t =~= o + t.skip(o.len() as int));
        },
    }
    assert(t.take(o.len() as int) =~= o);
}

/// A numeric `for` loop is written with its variable, its start bound, its
/// end bound and then its step, in that order, before its body:
/// `for <var> = <start>, <end>[, <step>] do`.
pub proof fn law_for_bounds_in_order(
    var: String,
    start: LuauExpr,
    end: LuauExpr,
    step: Option<LuauExpr>,
    body: Vec<LuauStmt>,
    level: nat,
)
    ensures
        ({
            let t = stmt_text(LuauStmt::For { var, start, end, step, body }, level);
            let head = indent(level) + "for "@ + var@ + " = "@ + expr_text(start) + ", "@ + expr_text(end) + (match step {
                Some(x) => ", "@ + expr_text(x),
                None => Seq::empty(),
            }) + " do\n"@;
            head.len() <= t.len() && t.take(head.len() as int) == head
        }),
{
    let t = stmt_text(LuauStmt::For { var, start, end, step, body }, level);
    let head = indent(level) + "for "@ + var@ + " = "@ + expr_text(start) + ", "@ + expr_text(end) + (match step {
        Some(x) => ", "@ + expr_text(x),
        None => Seq::empty(),
    }) + " do\n"@;
    let tail = block_text(body@, deeper(level)) + indent(level) + "end"@;
    assert(t =~= head + tail);
    assert(t.take(head.len() as int) =~= head);
}

/// The text of a whole program: a header line, then each statement at level
/// 0 followed by a line break.
pub open spec fn code_text(ast: LuauAst) -> Seq<char> {
    "-- Generated by roblox-rs\n\n"@ + block_text(ast.statements@, 0)
}


/// Appends the indentation of `level` to `out`.
fn push_indent(out: &mut String, level: usize)
    ensures
        final(out)@ == old(out)@ + indent(level as nat),
{
    let ghost start = out@;
    let mut i: usize = 0;
    while i < level
        invariant
            i <= level,
            out@ == start + indent(i as nat),
        decreases level - i,
    {
        out.append("    ");
        i = i + 1;
        proof {
            assert(out@ =~= start + indent(i as nat));
        }
    }
}

fn deeper_level(level: usize) -> (r: usize)
    ensures
        r as nat == deeper(level as nat),
{
    if level < usize::MAX {
        level + 1
    } else {
        level
    }
}

proof fn lemma_views_concat(a: Seq<String>, b: Seq<String>)
    ensures
        views(a + b) =~= views(a) + views(b),
{
}

/// Generate Luau code from an AST.
pub fn generate_code(ast: &LuauAst) -> (r: Result<String, String>)
    ensures
        r matches Ok(code) && code@ == code_text(*ast),
{
    let mut code = String::from_str("-- Generated by roblox-rs\n\n");
    let body = generate_block(&ast.statements, 0);
    code.append(body.as_str());
    Ok(code)
}

/// The text of the statements of a block, each followed by a line break.
fn generate_block(stmts: &Vec<LuauStmt>, level: usize) -> (r: String)
    ensures
        r@ == block_text(stmts@, level as nat),
    decreases stmts,
{
    let mut out = String::new();
    let mut i: usize = 0;
    while i < stmts.len()
        invariant
            i <= stmts.len(),
            out@ == block_text(stmts@.take(i as int), level as nat),
        decreases stmts.len() - i,
    {
        proof {
            assert(stmts@.take(i + 1).drop_last() =~= stmts@.take(i as int));
            assert(decreases_to!(stmts => stmts@[i as int]));
        }
        let text = generate_stmt(&stmts[i], level);
        out.append(text.as_str());
        push_char(&mut out, '\n');
        i = i + 1;
    }
    proof {
        assert(stmts@.take(stmts.len() as int) =~= stmts@);
    }
    out
}

/// The texts of a sequence of expressions.
fn generate_exprs(es: &Vec<LuauExpr>) -> (r: Vec<String>)
    ensures
        views(r@) == expr_texts(es@),
    decreases es,
{
    let mut out: Vec<String> = Vec::new();
    let mut i: usize = 0;
    while i < es.len()
        invariant
            i <= es.len(),
            views(out@) == expr_texts(es@.take(i as int)),
        decreases es.len() - i,
    {
        proof {
            assert(es@.take(i + 1).drop_last() =~= es@.take(i as int));
            assert(decreases_to!(es => es@[i as int]));
        }
        let text = generate_expr(&es[i]);
        out.push(text);
        i = i + 1;
        proof {
            assert(views(out@) =~= expr_texts(es@.take(i as int)));
        }
    }
    proof {
        assert(es@.take(es.len() as int) =~= es@);
    }
    out
}

/// The texts of the keyed fields of a table.
fn generate_fields(fields: &Vec<(String, LuauExpr)>) -> (r: Vec<String>)
    ensures
        views(r@) == field_texts(fields@),
    decreases fields,
{
    let mut out: Vec<String> = Vec::new();
    let mut i: usize = 0;
    while i < fields.len()
        invariant
            i <= fields.len(),
            views(out@) == field_texts(fields@.take(i as int)),
        decreases fields.len() - i,
    {
        proof {
            assert(fields@.take(i + 1).drop_last() =~= fields@.take(i as int));
            assert(decreases_to!(fields => fields@[i as int]));
            assert(decreases_to!(fields@[i as int] => fields@[i as int].1));
        }
        let key = &fields[i].0;
        let value = generate_expr(&fields[i].1);
        let mut text = String::new();
        if check_identifier(key.as_str()) {
            text.append(key.as_str());
            text.append(" = ");
        } else {
            text.append("[\"");
            push_escaped(&mut text, key.as_str());
            text.append("\"] = ");
        }
        text.append(value.as_str());
        out.push(text);
        i = i + 1;
        proof {
            assert(views(out@) =~= field_texts(fields@.take(i as int)));
        }
    }
    proof {
        assert(fields@.take(fields.len() as int) =~= fields@);
    }
    out
}

/// Generate code for a function.
fn generate_function(func: &LuauFunction, level: usize) -> (r: String)
    ensures
        r@ == function_text(*func, level as nat),
    decreases func,
{
    let mut code = String::new();
    push_indent(&mut code, level);
    match &func.name {
        Some(name) => {
            code.append("function ");
            code.append(name.as_str());
            push_char(&mut code, '(');
        },
        None => {
            code.append("function(");
        },
    }
    let params = join_strings(&func.params, ", ");
    code.append(params.as_str());
    if func.is_variadic {
        if func.params.len() > 0 {
            code.append(", ...");
        } else {
            code.append("...");
        }
    }
    code.append(")\n");
    let body = generate_block(&func.body, deeper_level(level));
    code.append(body.as_str());
    push_indent(&mut code, level);
    code.append("end");
    code
}

/// Generate code for an expression.
fn generate_expr(expr: &LuauExpr) -> (r: String)
    ensures
        r@ == expr_text(*expr),
    decreases expr,
{
    match expr {
        LuauExpr::String(s) => {
            let mut code = String::new();
            push_char(&mut code, '"');
            push_escaped(&mut code, s.as_str());
            push_char(&mut code, '"');
            code
        },
        LuauExpr::Number(n) => i64_to_string(*n),
        LuauExpr::Boolean(b) => if *b {
            String::from_str("true")
        } else {
            String::from_str("false")
        },
        LuauExpr::Nil => String::from_str("nil"),
        LuauExpr::Variable(name) => name.clone(),
        LuauExpr::Table(table) => {
            let mut items = generate_exprs(&table.array_items);
            let mut fields = generate_fields(&table.fields);
            let ghost a = items@;
            let ghost b = fields@;
            items.append(&mut fields);
            proof {
                lemma_views_concat(a, b);
            }
            let mut code = String::new();
            push_char(&mut code, '{');
            let joined = join_strings(&items, ", ");
            code.append(joined.as_str());
            push_char(&mut code, '}');
            code
        },
        LuauExpr::Call { func, args } => {
            let mut code = generate_expr(func);
            push_char(&mut code, '(');
            let texts = generate_exprs(args);
            let joined = join_strings(&texts, ", ");
            code.append(joined.as_str());
            push_char(&mut code, ')');
            code
        },
        LuauExpr::BinaryOp { left, op, right } => {
            let mut code = generate_expr(left);
            push_char(&mut code, ' ');
            code.append(op.as_str());
            push_char(&mut code, ' ');
            let r = generate_expr(right);
            code.append(r.as_str());
            code
        },
        LuauExpr::UnaryOp { op, expr } => {
            let mut code = op.clone();
            let e = generate_expr(expr);
            code.append(e.as_str());
            code
        },
        LuauExpr::Index { table, key } => {
            let mut code = generate_expr(table);
            match &**key {
                LuauExpr::String(s) => {
                    if check_identifier(s.as_str()) {
                        push_char(&mut code, '.');
                        code.append(s.as_str());
                        return code;
                    }
                },
                _ => {},
            }
            push_char(&mut code, '[');
            let k = generate_expr(key);
            code.append(k.as_str());
            push_char(&mut code, ']');
            code
        },
        LuauExpr::Function(func) => generate_function(func, 0),
        LuauExpr::Paren(inner) => {
            let mut code = String::new();
            push_char(&mut code, '(');
            let e = generate_expr(inner);
            code.append(e.as_str());
            push_char(&mut code, ')');
            code
        },
        LuauExpr::Raw(raw) => raw.clone(),
    }
}

/// The texts of a sequence of names joined with `, `.
fn generate_names(names: &Vec<String>) -> (r: String)
    ensures
        r@ == names_text(names@),
{
    join_strings(names, ", ")
}

/// The text of an assignment's right-hand side, given its value texts.
fn values_of(texts: &Vec<String>) -> (r: String)
    ensures
        r@ == values_text(views(texts@)),
{
    let mut code = String::new();
    if texts.len() > 0 {
        code.append(" = ");
        let joined = join_strings(texts, ", ");
        code.append(joined.as_str());
    }
    code
}

/// Generate code for a statement.
fn generate_stmt(stmt: &LuauStmt, level: usize) -> (r: String)
    ensures
        r@ == stmt_text(*stmt, level as nat),
    decreases stmt,
{
    let mut code = String::new();
    match stmt {
        LuauStmt::LocalAssign(names, exprs) => {
            push_indent(&mut code, level);
            code.append("local ");
            let n = generate_names(names);
            code.append(n.as_str());
            let texts = generate_exprs(exprs);
            let v = values_of(&texts);
            code.append(v.as_str());
        },
        LuauStmt::GlobalAssign(names, exprs) => {
            push_indent(&mut code, level);
            let n = generate_names(names);
            code.append(n.as_str());
            let texts = generate_exprs(exprs);
            let v = values_of(&texts);
            code.append(v.as_str());
        },
        LuauStmt::FunctionDecl(func) => {
            code = generate_function(func, level);
        },
        LuauStmt::Return(expr) => {
            push_indent(&mut code, level);
            code.append("return");
            if let Some(e) = expr {
                push_char(&mut code, ' ');
                let t = generate_expr(e);
                code.append(t.as_str());
            }
        },
        LuauStmt::If { condition, then_block, else_block } => {
            push_indent(&mut code, level);
            code.append("if ");
            let c = generate_expr(condition);
            code.append(c.as_str());
            code.append(" then\n");
            let t = generate_block(then_block, deeper_level(level));
            code.append(t.as_str());
            if let Some(b) = else_block {
                push_indent(&mut code, level);
                code.append("else\n");
                let e = generate_block(b, deeper_level(level));
                code.append(e.as_str());
            }
            push_indent(&mut code, level);
            code.append("end");
        },
        LuauStmt::While { condition, body } => {
            push_indent(&mut code, level);
            code.append("while ");
            let c = generate_expr(condition);
            code.append(c.as_str());
            code.append(" do\n");
            let b = generate_block(body, deeper_level(level));
            code.append(b.as_str());
            push_indent(&mut code, level);
            code.append("end");
        },
        LuauStmt::For { var, start, end, step, body } => {
            push_indent(&mut code, level);
            code.append("for ");
            code.append(var.as_str());
            code.append(" = ");
            let s = generate_expr(start);
            code.append(s.as_str());
            code.append(", ");
            let e = generate_expr(end);
            code.append(e.as_str());
            if let Some(st) = step {
                code.append(", ");
                let t = generate_expr(st);
                code.append(t.as_str());
            }
            code.append(" do\n");
            let b = generate_block(body, deeper_level(level));
            code.append(b.as_str());
            push_indent(&mut code, level);
            code.append("end");
        },
        LuauStmt::ForIn { vars, iterators, body } => {
            push_indent(&mut code, level);
            code.append("for ");
            let n = generate_names(vars);
            code.append(n.as_str());
            code.append(" in ");
            let texts = generate_exprs(iterators);
            let joined = join_strings(&texts, ", ");
            code.append(joined.as_str());
            code.append(" do\n");
            let b = generate_block(body, deeper_level(level));
            code.append(b.as_str());
            push_indent(&mut code, level);
            code.append("end");
        },
        LuauStmt::Comment(comment) => {
            push_indent(&mut code, level);
            code.append("-- ");
            code.append(comment.as_str());
        },
        LuauStmt::Raw(raw) => {
            push_indent(&mut code, level);
            code.append(raw.as_str());
        },
    }
    code
}

} // verus!
