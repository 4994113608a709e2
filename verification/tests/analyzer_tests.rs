//! Finding optimization hints and applying them to nodes.

use roblox_rs::analysis::analyzer::CodeAnalyzer;
use roblox_rs::analysis::OptimizationHint;
use roblox_rs::ast::luau::{Buffer, BufferOptimizationLevel, Function, LuauNode, Program, Table, TableOptimizationHints, TypeAnnotation};
use roblox_rs::optimize::optimized::OptimizationManager;
use roblox_rs::optimize::{optimize_program, OptimizationPipeline};
use roblox_rs::compiler::{CompileOptions, OptimizationLevel};

fn table(n: usize, pre_allocate: Option<usize>) -> Table {
    Table {
        fields: (0..n).map(|i| (format!("f{}", i), LuauNode::Number(i as i64))).collect(),
        optimization_hints: TableOptimizationHints {
            pre_allocate,
            array_like: false,
            stable_keys: false,
            native_buffer_type: None,
            table_reuse: false,
        },
    }
}

fn ident(name: &str) -> LuauNode {
    LuauNode::Identifier(name.to_string())
}

fn names(hints: &[OptimizationHint]) -> Vec<String> {
    hints
        .iter()
        .map(|h| match h {
            OptimizationHint::InlineFunction(n) => format!("inline:{}", n),
            OptimizationHint::CacheValue(n) => format!("cache:{}", n),
            OptimizationHint::UseObjectPool(n) => format!("pool:{}", n),
            OptimizationHint::ParallelizeLoop(n) => format!("parallel:{}", n),
            OptimizationHint::VectorizeOperation(n) => format!("vectorize:{}", n),
        })
        .collect()
}

#[test]
fn large_preallocated_tables_are_pooled() {
    let mut a = CodeAnalyzer::new();
    a.analyze_node(&LuauNode::Table(table(11, Some(4)))).unwrap();
    a.analyze_node(&LuauNode::Table(table(11, None))).unwrap();
    a.analyze_node(&LuauNode::Table(table(10, Some(4)))).unwrap();
    assert_eq!(names(a.get_optimization_hints()), vec!["pool:table_pool"]);
}

#[test]
fn operations_on_numeric_tables_are_vectorized() {
    let mut a = CodeAnalyzer::new();
    let op = LuauNode::Binary {
        left: Box::new(LuauNode::Table(table(2, None))),
        op: "+".to_string(),
        right: Box::new(LuauNode::Table(table(3, None))),
    };
    a.analyze_node(&op).unwrap();
    assert_eq!(names(a.get_optimization_hints()), vec!["vectorize:array_operation"]);
}

#[test]
fn independent_loops_run_in_parallel() {
    let write_x = LuauNode::Binary { left: Box::new(ident("x")), op: "=".to_string(), right: Box::new(ident("y")) };
    let call = LuauNode::Call { func: Box::new(ident("f")), args: vec![ident("z")] };
    let write_y = LuauNode::Binary { left: Box::new(ident("y")), op: "=".to_string(), right: Box::new(ident("w")) };
    let independent = LuauNode::Block(vec![
        LuauNode::Binary { left: Box::new(ident("x")), op: "=".to_string(), right: Box::new(ident("y")) },
        call,
    ]);
    let dependent = LuauNode::Block(vec![write_x, write_y]);
    let f = Function {
        name: "f".to_string(),
        params: vec![],
        return_type: None,
        body: Box::new(LuauNode::Block(vec![dependent, ident("a"), independent])),
    };
    let mut a = CodeAnalyzer::new();
    a.analyze_node(&LuauNode::Function(Box::new(f))).unwrap();
    assert_eq!(names(a.get_optimization_hints()), vec!["parallel:loop_2"]);
}

#[test]
fn pooling_is_applied_and_counted() {
    let mut m = OptimizationManager::new();
    let node = m.optimize_node(LuauNode::Table(table(11, Some(1)))).unwrap();
    assert!(matches!(node, LuauNode::Table(ref t) if t.fields.len() == 11));
    assert_eq!(m.get_stats().total_optimizations, 1);
    assert_eq!(m.get_stats().memory_savings, -88);
    let recorded = m.get_optimized_nodes();
    assert_eq!(recorded.len(), 1);
    assert_eq!(recorded[0].0, "node_0");
    assert_eq!(recorded[0].1.optimizations_applied, vec!["object_pooling_table_pool".to_string()]);
    assert_eq!(recorded[0].1.memory_impact, -88);
    m.optimize_node(LuauNode::Table(table(2, None))).unwrap();
    assert_eq!(m.get_optimized_nodes().len(), 1);
    m.optimize_node(LuauNode::Table(table(12, None))).unwrap();
    assert_eq!(m.get_optimized_nodes()[1].0, "node_1");
    assert_eq!(m.get_stats().memory_savings, -88 - 96);
}

#[test]
fn small_calls_are_inlined_where_hinted() {
    let mut m = OptimizationManager::new();
    m.analyzer.optimization_hints.push(OptimizationHint::InlineFunction("g".to_string()));
    let call = LuauNode::Call { func: Box::new(ident("g")), args: vec![ident("a")] };
    m.optimize_node(call).unwrap();
    assert_eq!(m.get_optimized_nodes()[0].1.optimizations_applied, vec!["inlined_function_g".to_string()]);
    assert_eq!(m.get_stats().memory_savings, 0);
}

fn options(level: OptimizationLevel) -> CompileOptions {
    CompileOptions {
        include_runtime: false,
        debug_mode: false,
        enable_parallelization: false,
        optimization_level: level,
        generate_type_declarations: false,
        type_declarations_dir: None,
        rojo_project_path: None,
        serve_with_rojo: false,
        open_rojo_browser: false,
    }
}

fn sample_program() -> Program {
    let vector = Table {
        fields: vec![
            ("x".to_string(), LuauNode::Number(1)),
            ("y".to_string(), LuauNode::Number(2)),
            ("z".to_string(), LuauNode::Number(3)),
        ],
        optimization_hints: table(0, None).optimization_hints,
    };
    Program {
        body: vec![
            LuauNode::Buffer(Buffer { initial_size: 5000, element_type: TypeAnnotation::Any, optimization_level: BufferOptimizationLevel::Default }),
            LuauNode::Table(vector),
        ],
        type_annotations: vec![],
    }
}

#[test]
fn optimize_program_applies_the_passes_of_the_level() {
    let mut minimal = sample_program();
    optimize_program(&mut minimal, &options(OptimizationLevel::Minimal));
    assert!(matches!(minimal.body[0], LuauNode::Buffer(ref b) if matches!(b.optimization_level, BufferOptimizationLevel::Speed)));
    assert!(matches!(minimal.body[1], LuauNode::Table(ref t) if t.optimization_hints.native_buffer_type.is_none()));
    let mut aggressive = sample_program();
    optimize_program(&mut aggressive, &options(OptimizationLevel::Aggressive));
    assert!(matches!(aggressive.body[0], LuauNode::Buffer(ref b) if matches!(b.optimization_level, BufferOptimizationLevel::Speed)));
    match &aggressive.body[1] {
        LuauNode::Table(t) => {
            assert_eq!(t.optimization_hints.native_buffer_type, Some("Vector3".to_string()));
            assert!(!t.optimization_hints.array_like);
        }
        _ => panic!("not a table"),
    }
    assert_eq!(OptimizationPipeline::new().pass_count, 6);
}
