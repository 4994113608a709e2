//! Writing Luau for node trees, with and without the analysis' hints.

use roblox_rs::analysis::OptimizationHint;
use roblox_rs::ast::luau::{Function, LuauNode, Parameter, Program, Table, TableOptimizationHints, TypeAnnotation};
use roblox_rs::codegen::{LuauCodeGenerator, OptimizationLevel, DEBUG_POINT};

fn hints() -> TableOptimizationHints {
    TableOptimizationHints {
        pre_allocate: None,
        array_like: false,
        stable_keys: false,
        native_buffer_type: None,
        table_reuse: false,
    }
}

fn ident(name: &str) -> LuauNode {
    LuauNode::Identifier(name.to_string())
}

#[test]
fn a_table_is_built_in_a_local() {
    let mut g = LuauCodeGenerator::with_optimization_level(OptimizationLevel::Advanced);
    let t = Table {
        fields: vec![("a".to_string(), LuauNode::Number(1)), ("1".to_string(), ident("x"))],
        optimization_hints: hints(),
    };
    g.generate_node(&LuauNode::Table(t)).unwrap();
    assert_eq!(g.output(), "local t = MemoryManager:preAllocateTable(2)\n{a = 1, x}");
}

#[test]
fn vector_tables_become_vector3() {
    let mut g = LuauCodeGenerator::with_optimization_level(OptimizationLevel::Extreme);
    g.config.pre_allocate_tables = false;
    let mut h = hints();
    h.native_buffer_type = Some("Vector3".to_string());
    let t = Table {
        fields: vec![
            ("x".to_string(), LuauNode::Number(1)),
            ("y".to_string(), LuauNode::Number(2)),
            ("x".to_string(), LuauNode::Number(3)),
        ],
        optimization_hints: h,
    };
    g.generate_table(&t).unwrap();
    assert_eq!(g.output(), "local t = {}\nVector3.new(3, 2, 0)");
}

#[test]
fn array_like_tables_are_created_with_their_size() {
    let mut g = LuauCodeGenerator::with_optimization_level(OptimizationLevel::Advanced);
    let mut h = hints();
    h.array_like = true;
    h.pre_allocate = Some(16);
    g.generate_table(&Table { fields: vec![], optimization_hints: h }).unwrap();
    assert_eq!(g.output(), "local t = MemoryManager:preAllocateTable(0)\ntable.create(16)");
}

#[test]
fn debug_levels_track_and_check_breakpoints() {
    let mut g = LuauCodeGenerator::new();
    g.generate_node(&LuauNode::Table(Table { fields: vec![], optimization_hints: hints() })).unwrap();
    let expected = format!(
        "MemoryManager:trackAllocation(0)\n{}local t = MemoryManager:preAllocateTable(0)\n{{}}",
        DEBUG_POINT
    );
    assert_eq!(g.output(), &expected);
}

#[test]
fn pooled_tables_are_filled_field_by_field() {
    let mut g = LuauCodeGenerator::with_optimization_level(OptimizationLevel::Advanced);
    g.config.hints.push(OptimizationHint::UseObjectPool("t".to_string()));
    let t = Table { fields: vec![("k".to_string(), LuauNode::Boolean(true))], optimization_hints: hints() };
    g.generate_node(&LuauNode::Table(t)).unwrap();
    assert_eq!(g.output(), "local obj = ObjectPool:acquire('table', 1)\nobj[\"k\"] = true\n");
}

#[test]
fn operations_are_vectorized_where_hinted() {
    let mut g = LuauCodeGenerator::with_optimization_level(OptimizationLevel::Advanced);
    let node = LuauNode::Binary { left: Box::new(ident("a")), op: "+".to_string(), right: Box::new(ident("b")) };
    g.generate_node(&node).unwrap();
    assert_eq!(g.output(), "a + b");
    let mut v = LuauCodeGenerator::with_optimization_level(OptimizationLevel::Advanced);
    v.config.hints.push(OptimizationHint::VectorizeOperation("a".to_string()));
    v.generate_node(&node).unwrap();
    assert_eq!(v.output(), "vector_op(a, b, function(a, b) return a + b end)");
}

#[test]
fn functions_are_written_or_inlined() {
    let f = Function {
        name: "f".to_string(),
        params: vec![
            Parameter { name: "x".to_string(), type_annotation: Some(TypeAnnotation::Number) },
            Parameter { name: "y".to_string(), type_annotation: None },
        ],
        return_type: None,
        body: Box::new(LuauNode::Block(vec![LuauNode::Return(Box::new(ident("x")))])),
    };
    let node = LuauNode::Function(Box::new(f));
    let mut g = LuauCodeGenerator::with_optimization_level(OptimizationLevel::Advanced);
    g.config.hints.push(OptimizationHint::CacheValue("y".to_string()));
    g.config.hints.push(OptimizationHint::CacheValue("y".to_string()));
    g.generate_node(&node).unwrap();
    assert_eq!(
        g.output(),
        "-- Performance optimized function\nfunction f(x: number, y)\n    local _y_cache = y\nreturn x\nend\n"
    );
    let mut inl = LuauCodeGenerator::with_optimization_level(OptimizationLevel::Advanced);
    inl.config.hints.push(OptimizationHint::InlineFunction("f".to_string()));
    inl.generate_node(&node).unwrap();
    assert_eq!(inl.output(), "return x\n");
}

#[test]
fn parallel_blocks_indent_their_nodes() {
    let mut g = LuauCodeGenerator::with_optimization_level(OptimizationLevel::Advanced);
    g.config.hints.push(OptimizationHint::ParallelizeLoop("l".to_string()));
    g.generate_node(&LuauNode::Block(vec![ident("a"), ident("b")])).unwrap();
    assert_eq!(g.output(), "parallel_for(array, function(item, index)\n    a    bend)\n");
    assert_eq!(g.indent_level, 0);
}

#[test]
fn programs_start_with_directives_and_helpers() {
    let mut g = LuauCodeGenerator::with_optimization_level(OptimizationLevel::Advanced);
    let big = Table {
        fields: (0..11).map(|i| (format!("k{}", i), LuauNode::Number(i))).collect(),
        optimization_hints: TableOptimizationHints { pre_allocate: Some(2), ..hints() },
    };
    let program = Program { body: vec![LuauNode::Table(big), ident("done")], type_annotations: vec![] };
    let generated = g.generate(&program).unwrap();
    let code = generated.code;
    assert!(code.starts_with("--!optimize 2\n--!native\n--!strict\n\n-- Optimized Runtime Helpers\nlocal SimdHelpers = {"));
    assert!(code.contains("\n-- Memory Management Implementation\n"));
    assert!(code.contains("-- Object Pool Implementation\n"));
    assert_eq!(code.matches("local ObjectPool = {}").count(), 1);
    assert!(code.contains("local obj = ObjectPool:acquire('table', 11)\nobj[\"k0\"] = 0\n"));
    assert!(code.ends_with("\ndone\n"));
    assert!(generated.optimization_info.inlined_functions.is_empty());
    assert!(generated.optimization_info.parallelized_loops.is_empty());
    assert!(generated.optimization_info.vectorized_ops.is_empty());
    assert_eq!(g.config.hints.len(), 1);
}
