//! Checking generated Luau, and errors' messages.

use roblox_rs::compiler::{compile_default, compile_with_options, CompileOptions, OptimizationLevel};
use roblox_rs::error::Error;
use roblox_rs::luau::validate::check_luau;
use roblox_rs::syntax::{FnParam, RustExpr, RustFn, RustItem, RustStmt};
use roblox_rs::transformer::transform_ast;

#[test]
fn compiled_code_passes_the_check() {
    let out = compile_with_options(
        "fn max(a: i32, b: i32) -> i32 { if a > b { a } else { b } }",
        CompileOptions {
            include_runtime: false,
            debug_mode: false,
            enable_parallelization: false,
            optimization_level: OptimizationLevel::Minimal,
            generate_type_declarations: false,
            type_declarations_dir: None,
            rojo_project_path: None,
            serve_with_rojo: false,
            open_rojo_browser: false,
        },
    )
    .unwrap();
    assert_eq!(check_luau(&out), Ok(()));
}

#[test]
fn the_check_reports_each_failure() {
    assert_eq!(
        check_luau("function f() end)").unwrap_err(),
        "Syntax error: Unmatched closing bracket/brace/parenthesis"
    );
    assert_eq!(
        check_luau("function f({[ end").unwrap_err(),
        "Syntax error: Unclosed brackets/braces/parentheses. Braces: 1, Parentheses: 1, Brackets: 1"
    );
    assert_eq!(
        check_luau("local x = {}").unwrap_err(),
        "No function declarations found in generated code"
    );
    assert_eq!(check_luau("local function f() return {} end"), Ok(()));
}

#[test]
fn errors_display_their_kind() {
    assert_eq!(Error::Parse("x".to_string()).message(), "Parse error: x");
    assert_eq!(Error::Transform("y".to_string()).message(), "Transform error: y");
    assert_eq!(Error::CodeGen("z".to_string()).message(), "Code generation error: z");
    assert_eq!(Error::Optimization("o".to_string()).message(), "Optimization error: o");
    assert_eq!(Error::RobloxApi("r".to_string()).message(), "Roblox API error: r");
    assert_eq!(Error::Other("q".to_string()).message(), "Other error: q");
    let io = Error::Io(std::io::Error::new(std::io::ErrorKind::Other, "disk"));
    assert_eq!(io.message(), "I/O error: disk");
}

#[test]
fn parse_errors_come_from_syn() {
    match compile_default("fn broken(") {
        Err(Error::Parse(m)) => assert!(m.starts_with("syntax error: ")),
        other => panic!("expected a parse error, got {:?}", other),
    }
}

#[test]
fn transforming_a_parsed_file() {
    let add = RustFn {
        name: "add".to_string(),
        params: vec![FnParam::Named("a".to_string()), FnParam::Named("b".to_string())],
        body: vec![RustStmt::Expr(
            RustExpr::Binary(
                Box::new(RustExpr::Path(vec!["a".to_string()], "a".to_string())),
                "+".to_string(),
                Box::new(RustExpr::Path(vec!["b".to_string()], "b".to_string())),
            ),
            false,
        )],
    };
    let items = vec![
        RustItem::Fn(add),
        RustItem::Struct { name: "P".to_string(), fields: vec![Some("x".to_string())] },
    ];
    let ast = transform_ast(&items).unwrap();
    assert_eq!(ast.statements.len(), 2);
    let with_self = RustFn { name: "m".to_string(), params: vec![FnParam::Receiver], body: vec![] };
    match transform_ast(&vec![RustItem::Fn(with_self)]) {
        Err(Error::Transform(m)) => assert_eq!(m, "unsupported feature: Self parameter not supported yet"),
        Err(e) => panic!("unexpected error {:?}", e),
        Ok(_) => panic!("a receiver was accepted"),
    }
}
