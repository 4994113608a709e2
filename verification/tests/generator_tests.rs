//! Printing Luau trees.

use roblox_rs::luau::generator::generate_code;
use roblox_rs::luau::{LuauAst, LuauExpr, LuauFunction, LuauStmt, LuauTable};

#[test]
fn statements_print_exactly() {
    let mut table = LuauTable::new();
    table.add_field("x".to_string(), LuauExpr::Number(1));
    table.add_field("1a".to_string(), LuauExpr::String("q\"".to_string()));
    table.add_array_item(LuauExpr::Boolean(true));
    let mut f = LuauFunction::new("f".to_string());
    f.add_param("a".to_string());
    f.make_variadic();
    f.set_body(vec![LuauStmt::Return(Some(LuauExpr::BinaryOp {
        left: Box::new(LuauExpr::Variable("a".to_string())),
        op: "+".to_string(),
        right: Box::new(LuauExpr::Number(-2)),
    }))]);
    let mut ast = LuauAst::new();
    ast.add_stmt(LuauStmt::LocalAssign(vec!["t".to_string()], vec![LuauExpr::Table(table)]));
    ast.add_stmt(LuauStmt::FunctionDecl(f));
    ast.add_stmt(LuauStmt::If {
        condition: LuauExpr::Nil,
        then_block: vec![LuauStmt::Comment("yes".to_string())],
        else_block: Some(vec![LuauStmt::Raw("x()".to_string())]),
    });
    ast.add_stmt(LuauStmt::Return(None));
    let code = generate_code(&ast).unwrap();
    assert_eq!(
        code,
        "-- Generated by roblox-rs\n\nlocal t = {true, x = 1, [\"1a\"] = \"q\\\"\"}\nfunction f(a, ...)\n    return a + -2\nend\nif nil then\n    -- yes\nelse\n    x()\nend\nreturn\n"
    );
}

#[test]
fn table_keys_that_are_names_print_bare() {
    let mut table = LuauTable::new();
    table.add_field("_ok9".to_string(), LuauExpr::Nil);
    table.add_field("éclair".to_string(), LuauExpr::Nil);
    table.add_field("9lives".to_string(), LuauExpr::Nil);
    table.add_field("a-b".to_string(), LuauExpr::Nil);
    let mut ast = LuauAst::new();
    ast.add_stmt(LuauStmt::Return(Some(LuauExpr::Table(table))));
    assert_eq!(
        generate_code(&ast).unwrap(),
        "-- Generated by roblox-rs\n\nreturn {_ok9 = nil, éclair = nil, [\"9lives\"] = nil, [\"a-b\"] = nil}\n"
    );
}
