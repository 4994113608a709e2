//! Translating function bodies: expressions, statements, and whole
//! compilations that show the translated bodies.

use roblox_rs::compiler::{compile_with_options, CompileOptions, OptimizationLevel};
use roblox_rs::luau::{LuauExpr, LuauStmt};
use roblox_rs::syntax::{read_source, FnParam, LetPattern, RustExpr, RustItem, RustStmt};
use roblox_rs::ast::luau::LuauNode;
use roblox_rs::transform::{translate_block, translate_expr, translate_stmt, RustToLuauTransformer};

fn options() -> CompileOptions {
    CompileOptions {
        include_runtime: true,
        debug_mode: false,
        enable_parallelization: false,
        optimization_level: OptimizationLevel::Default,
        generate_type_declarations: false,
        type_declarations_dir: None,
        rojo_project_path: None,
        serve_with_rojo: false,
        open_rojo_browser: false,
    }
}

fn error_of<T>(r: Result<T, String>) -> String {
    match r {
        Err(m) => m,
        Ok(_) => panic!("expected an error"),
    }
}

fn var(name: &str) -> RustExpr {
    RustExpr::Path(vec![name.to_string()], name.to_string())
}

fn bin(l: RustExpr, op: &str, r: RustExpr) -> RustExpr {
    RustExpr::Binary(Box::new(l), op.to_string(), Box::new(r))
}

#[test]
fn test_arithmetic_operations() {
    let rust_code = r#"
            // Simple addition function
            fn add(a: i32, b: i32) -> i32 {
                a + b
            }
        "#;
    let luau_code = compile_with_options(rust_code, options()).unwrap();
    assert!(luau_code.contains("function add"), "Function not found in compiled code");
    assert!(luau_code.contains("return a + b"), "Function body not correctly compiled");
}

#[test]
fn test_multiplication_operation() {
    let rust_code = r#"
            // Simple function that multiplies two numbers
            fn multiply(a: i32, b: i32) -> i32 {
                a * b
            }
        "#;
    let luau_code = compile_with_options(rust_code, options()).unwrap();
    assert!(luau_code.contains("function multiply"), "Function not found in compiled code");
    assert!(luau_code.contains("return a * b"), "Function body not correctly compiled");
}

#[test]
fn test_complex_expressions() {
    let rust_code = r#"
            // Function with more complex expressions
            fn calculate(a: i32, b: i32, c: i32) -> i32 {
                a * b + c
            }
        "#;
    let luau_code = compile_with_options(rust_code, options()).unwrap();
    assert!(luau_code.contains("function calculate"), "Function not found in compiled code");
    assert!(luau_code.contains("return a * b + c"), "Function body not correctly compiled");
}

#[test]
fn test_control_flow() {
    let rust_code = r#"
            // Function with if/else control flow
            fn max(a: i32, b: i32) -> i32 {
                if a > b {
                    a
                } else {
                    b
                }
            }
        "#;
    let luau_code = compile_with_options(rust_code, options()).unwrap();
    assert!(luau_code.contains("function max"), "Function not found in compiled code");
    assert!(luau_code.contains("if"), "If statement not found in compiled code");
    assert!(luau_code.contains("else"), "Else statement not found in compiled code");
    assert!(luau_code.contains("a > b"), "Comparison not correctly compiled");
}

#[test]
fn tail_if_returns_from_each_branch() {
    let mut o = options();
    o.include_runtime = false;
    let out = compile_with_options("fn max(a: i32, b: i32) -> i32 { if a > b { a } else { b } }", o).unwrap();
    assert!(out.ends_with(
        "function max(a, b)\n    if a > b then\n        return a\n    else\n        return b\n    end\nend\n"
    ));
}

#[test]
fn let_statements_become_locals() {
    let mut o = options();
    o.include_runtime = false;
    let out = compile_with_options("fn calculate(x: i32, y: i32) -> i32 { let z = x * y; let w: i32; z + 10 }", o)
        .unwrap();
    assert!(out.ends_with(
        "function calculate(x, y)\n    local z = x * y\n    local w = nil\n    return z + 10\nend\n"
    ));
}

#[test]
fn statements_without_a_value_are_evaluated() {
    let mut o = options();
    o.include_runtime = false;
    let out = compile_with_options("fn f(a: bool) { g(a, [1, 2], \"s\"); x = a || a; println!(\"hi\"); return; }", o)
        .unwrap();
    assert!(out.ends_with(
        "function f(a)\n    local _ = g(a, {1, 2}, \"s\")\n    x = a or a\n    -- Macro call not translated: println!\n    return\nend\n"
    ));
}

#[test]
fn untranslated_bodies_become_placeholders() {
    let mut o = options();
    o.include_runtime = false;
    // `!a` and the tuple pattern have no translation: the body is a placeholder.
    let out = compile_with_options("fn f(a: bool) -> bool { !a }\nfn g() { let (a, b) = (1, 2); }", o).unwrap();
    assert!(out.contains("function f(a)\n    -- -- Body of function f\n    return nil\nend\n"));
    assert!(out.contains("function g()\n    -- -- Body of function g\n    return nil\nend\n"));
}

#[test]
fn methods_get_their_bodies() {
    let mut o = options();
    o.include_runtime = false;
    let out = compile_with_options("struct P { x: i32 }\nimpl P { fn get(&self) -> i32 { 1 } fn each(&self) { for i in 0..3 {} } }", o)
        .unwrap();
    assert!(out.contains("function p_get(self)\n    return 1\nend\n"));
    assert!(out.contains("function p_each(self)\n    -- -- Body of method P.each\n    return nil\nend\n"));
}

#[test]
fn translate_expr_spells_operators_for_luau() {
    match translate_expr(&bin(var("a"), "!=", var("b"))).unwrap() {
        LuauExpr::BinaryOp { left, op, right } => {
            assert_eq!(op, "~=");
            assert!(matches!(*left, LuauExpr::Variable(ref x) if x == "a"));
            assert!(matches!(*right, LuauExpr::Variable(ref x) if x == "b"));
        }
        _ => panic!("not a binary operation"),
    }
    match translate_expr(&bin(var("a"), "&&", RustExpr::Bool(true))).unwrap() {
        LuauExpr::BinaryOp { op, .. } => assert_eq!(op, "and"),
        _ => panic!("not a binary operation"),
    }
    match translate_expr(&RustExpr::Path(vec!["Vec".to_string(), "new".to_string()], "Vec :: new".to_string())).unwrap() {
        LuauExpr::Variable(x) => assert_eq!(x, "Vec.new"),
        _ => panic!("not a variable"),
    }
    match translate_expr(&RustExpr::Float("1.5".to_string())).unwrap() {
        LuauExpr::Raw(x) => assert_eq!(x, "1.5"),
        _ => panic!("not raw"),
    }
    match translate_expr(&RustExpr::Int(42)).unwrap() {
        LuauExpr::Number(n) => assert_eq!(n, 42),
        _ => panic!("not a number"),
    }
}

#[test]
fn translate_expr_reports_the_first_error() {
    let e = bin(RustExpr::Unsupported("x . y ()".to_string()), "+", RustExpr::Unsupported("z".to_string()));
    assert_eq!(error_of(translate_expr(&e)), "Unsupported expression type: x . y ()");
    let e = RustExpr::Block(vec![], "{ }".to_string());
    assert_eq!(error_of(translate_expr(&e)), "Unsupported expression type: block used as a value");
}

#[test]
fn translate_block_returns_the_tail_only() {
    let body = vec![
        RustStmt::Let(LetPattern::Name("z".to_string()), Some(RustExpr::Int(1))),
        RustStmt::Expr(var("z"), true),
        RustStmt::Expr(var("z"), false),
    ];
    let out = translate_block(&body, true).unwrap();
    assert_eq!(out.len(), 3);
    assert!(matches!(out[0], LuauStmt::LocalAssign(..)));
    match &out[1] {
        LuauStmt::LocalAssign(names, _) => assert_eq!(names, &vec!["_".to_string()]),
        _ => panic!("expected a throwaway local"),
    }
    assert!(matches!(out[2], LuauStmt::Return(Some(LuauExpr::Variable(_)))));
    let not_tail = translate_block(&body, false).unwrap();
    assert!(matches!(not_tail[2], LuauStmt::LocalAssign(..)));
    let bad = vec![RustStmt::Expr(
        RustExpr::If(Box::new(RustExpr::Bool(true)), vec![], Some(Box::new(RustExpr::Int(1))), "if true { } else 1".to_string()),
        false,
    )];
    assert_eq!(error_of(translate_block(&bad, true)), "Unsupported else branch");
}

#[test]
fn translate_stmt_comments_macros() {
    match translate_stmt(&RustStmt::Macro("println".to_string(), "println ! (\"hi\") ;".to_string()), false).unwrap() {
        LuauStmt::Comment(c) => assert_eq!(c, "Macro call not translated: println!"),
        _ => panic!("expected a comment"),
    }
}

fn node_error_of(r: Result<LuauNode, String>) -> String {
    match r {
        Err(m) => m,
        Ok(_) => panic!("expected an error"),
    }
}

#[test]
fn transformer_turns_three_tuples_into_vectors() {
    let t = RustToLuauTransformer::new();
    assert!(t.current_scope_vars.is_empty());
    let three = RustExpr::Tuple(vec![RustExpr::Int(1), RustExpr::Int(2), RustExpr::Int(3)]);
    match t.transform_expr(&three).unwrap() {
        LuauNode::Table(tb) => {
            let keys: Vec<&str> = tb.fields.iter().map(|f| f.0.as_str()).collect();
            assert_eq!(keys, vec!["x", "y", "z"]);
            assert!(matches!(tb.fields[2].1, LuauNode::Number(3)));
            assert_eq!(tb.optimization_hints.native_buffer_type, Some("Vector3".to_string()));
        }
        _ => panic!("not a table"),
    }
    let two = RustExpr::Tuple(vec![RustExpr::Bool(true), RustExpr::Str("s".to_string())]);
    match t.transform_expr(&two).unwrap() {
        LuauNode::Table(tb) => {
            let keys: Vec<&str> = tb.fields.iter().map(|f| f.0.as_str()).collect();
            assert_eq!(keys, vec!["0", "1"]);
            assert_eq!(tb.optimization_hints.native_buffer_type, None);
        }
        _ => panic!("not a table"),
    }
}

#[test]
fn transformer_refuses_paths_and_keeps_operators() {
    let t = RustToLuauTransformer::new();
    assert_eq!(node_error_of(t.transform_expr(&var("x"))), "Unsupported expression type: x");
    let op = bin(RustExpr::Int(1), "&&", RustExpr::Int(2));
    match t.transform_expr(&op).unwrap() {
        LuauNode::Binary { op, .. } => assert_eq!(op, "&&"),
        _ => panic!("not an operation"),
    }
    let call = RustExpr::MethodCall(Box::new(RustExpr::Int(1)), "abs".to_string(), vec![RustExpr::Int(2)], "1 . abs (2)".to_string());
    match t.transform_expr(&call).unwrap() {
        LuauNode::Call { func, args } => {
            assert!(matches!(*func, LuauNode::Var(ref m) if m == "abs"));
            assert_eq!(args.len(), 2);
        }
        _ => panic!("not a call"),
    }
}

#[test]
fn transformer_turns_statements() {
    let t = RustToLuauTransformer::new();
    let body = vec![
        RustStmt::Let(LetPattern::Name("z".to_string()), None),
        RustStmt::Expr(RustExpr::If(Box::new(RustExpr::Bool(true)), vec![], Some(Box::new(RustExpr::Block(vec![], "{ }".to_string()))), "if true { } else { }".to_string()), false),
    ];
    let nodes = t.transform_block(&body).unwrap();
    assert!(matches!(nodes[0], LuauNode::Local { ref name, .. } if name == "z"));
    assert!(matches!(nodes[1], LuauNode::If { else_branch: Some(_), .. }));
    let typed = RustStmt::Let(LetPattern::Typed("w".to_string(), "w : i32".to_string()), None);
    assert_eq!(node_error_of(t.transform_stmt(&typed)), "Unsupported pattern in local statement: w : i32");
    let mac = RustStmt::Macro("println".to_string(), "println ! () ;".to_string());
    assert_eq!(node_error_of(t.transform_stmt(&mac)), "Unsupported statement type: println ! () ;");
}

#[test]
fn sources_are_read_item_by_item() {
    let items = read_source("fn add(&self, a: i32) -> i32 { let s: i32 = a; a + 1 }\nstruct P { x: i32 }\nuse std::io;").unwrap();
    assert_eq!(items.len(), 3);
    match &items[0] {
        RustItem::Fn(f) => {
            assert_eq!(f.name, "add");
            assert!(matches!(f.params[0], FnParam::Receiver));
            assert!(matches!(f.params[1], FnParam::Named(ref n) if n == "a"));
            assert!(matches!(f.body[0], RustStmt::Let(LetPattern::Typed(ref n, _), Some(RustExpr::Path(..))) if n == "s"));
            match &f.body[1] {
                RustStmt::Expr(RustExpr::Binary(l, op, r), false) => {
                    assert!(matches!(**l, RustExpr::Path(ref segs, _) if segs == &vec!["a".to_string()]));
                    assert_eq!(op, "+");
                    assert!(matches!(**r, RustExpr::Int(1)));
                }
                _ => panic!("not a tail operation"),
            }
        }
        _ => panic!("not a function"),
    }
    assert!(matches!(items[1], RustItem::Struct { ref name, .. } if name == "P"));
    assert!(matches!(items[2], RustItem::Use));
    assert!(read_source("fn broken(").is_err());
}

fn program_error(r: Result<roblox_rs::ast::luau::Program, String>) -> String {
    match r {
        Err(m) => m,
        Ok(_) => panic!("expected an error"),
    }
}

#[test]
fn programs_are_turned_item_by_item() {
    let mut t = RustToLuauTransformer::new();
    let p = t.transform_program("fn f() -> i32 { 1 + 2 }\nstruct P { x: i32, y: i32 }\nimpl P { fn new() -> i32 { 0 } }\nconst N: i32 = 5;").unwrap();
    assert_eq!(p.body.len(), 4);
    assert!(p.type_annotations.is_empty());
    match &p.body[0] {
        LuauNode::Function(f) => {
            assert_eq!(f.name, "f");
            assert!(f.params.is_empty());
            assert!(f.return_type.is_none());
            match &*f.body {
                LuauNode::Block(ns) => {
                    assert_eq!(ns.len(), 1);
                    assert!(matches!(ns[0], LuauNode::Return(ref x) if matches!(**x, LuauNode::Binary { ref op, .. } if op == "+")));
                }
                _ => panic!("no block"),
            }
        }
        _ => panic!("not a function"),
    }
    match &p.body[1] {
        LuauNode::Table(tb) => {
            let keys: Vec<&str> = tb.fields.iter().map(|f| f.0.as_str()).collect();
            assert_eq!(keys, vec!["x", "y"]);
            assert_eq!(tb.optimization_hints.pre_allocate, Some(2));
            assert!(tb.optimization_hints.stable_keys);
        }
        _ => panic!("not a table"),
    }
    match &p.body[2] {
        LuauNode::Table(tb) => {
            assert_eq!(tb.fields[0].0, "new");
            assert!(matches!(tb.fields[0].1, LuauNode::Function(ref g) if g.params.len() == 1 && g.params[0].name == "self"));
        }
        _ => panic!("not a table"),
    }
    assert!(matches!(p.body[3], LuauNode::Number(5)));
}

#[test]
fn programs_report_the_first_error() {
    let mut t = RustToLuauTransformer::new();
    assert_eq!(
        program_error(t.transform_program("fn add(a: i32, b: i32) -> i32 { a + b }")),
        "Transform error: Unsupported expression type: a"
    );
    assert_eq!(
        program_error(t.transform_program("struct P;\nimpl P { fn get(&self) -> i32 { 1 } }")),
        "Transform error: Unsupported parameter type"
    );
    assert_eq!(
        program_error(t.transform_program("enum E { A }")),
        "Transform error: Unsupported item type: enum E { A }"
    );
    assert!(program_error(t.transform_program("fn broken(")).starts_with("Failed to parse Rust code: "));
}
