//! Runtime helpers for operations specialised by value type.

use roblox_rs::runtime::optimized::{
    ArrayOptimizer, BuiltinOptimizer, NumberOptimizer, RuntimeOptimizer, StringOptimizer, TypeOptimizer,
};

#[test]
fn test_simd_operations() {
    let optimizer = RuntimeOptimizer::new();
    let code = optimizer.generate_runtime_code();

    // Verify SIMD helper functions are present
    assert!(code.contains("SimdHelpers"));
    assert!(code.contains("add4"));
    assert!(code.contains("mul4"));
    assert!(code.contains("mapChunks"));
}

#[test]
fn test_string_optimizations() {
    let optimizer = RuntimeOptimizer::new();
    let args = vec![
        String::from("\"Hello, World!\""),
        String::from("\", \""),
    ];

    // Test string operations
    let concat_code = optimizer.get_type_optimization("string", "concat", &args)
        .expect("Failed to get string optimization");
    assert!(concat_code.contains("StringOptimizer.fastConcat"));

    let split_code = optimizer.get_type_optimization("string", "split", &args)
        .expect("Failed to get string optimization");
    assert!(split_code.contains("StringOptimizer.fastSplit"));
}

#[test]
fn test_number_optimizations() {
    let optimizer = RuntimeOptimizer::new();
    let args = vec![
        String::from("2"),
        String::from("3"),
    ];

    // Test numeric operations
    let pow_code = optimizer.get_type_optimization("number", "pow", &args)
        .expect("Failed to get number optimization");
    assert!(pow_code.contains("NumberOptimizer.fastPow"));
}

#[test]
fn operations_give_exact_code() {
    let optimizer = RuntimeOptimizer::new();
    let args = vec![String::from("xs"), String::from("x * 2")];
    assert_eq!(
        optimizer.get_type_optimization("array", "map", &args).unwrap(),
        "SimdHelpers.mapChunks(xs, 4, function(chunk) return x * 2 end)"
    );
    assert_eq!(
        optimizer.get_type_optimization("array", "reduce", &args).unwrap(),
        "local result = 0\n for _, v in ipairs(xs) do result = result + v end\n return result"
    );
    assert_eq!(optimizer.get_type_optimization("number", "add", &args).unwrap(), "(xs + x * 2)");
    assert_eq!(optimizer.get_type_optimization("number", "mul", &args).unwrap(), "(xs * x * 2)");
    assert_eq!(
        optimizer.get_type_optimization("string", "concat", &args).unwrap(),
        "StringOptimizer.fastConcat({xs, x * 2})"
    );
    let one = vec![String::from("s")];
    assert_eq!(
        optimizer.get_type_optimization("string", "split", &one).unwrap(),
        "StringOptimizer.fastSplit(s, '')"
    );
    assert_eq!(
        optimizer.get_type_optimization("number", "sqrt", &args).unwrap(),
        "-- No optimization for operation: sqrt"
    );
    assert!(optimizer.get_type_optimization("vector", "add", &args).is_none());
}

#[test]
fn allocations_and_helpers() {
    assert_eq!(ArrayOptimizer::new().optimize_allocation(8), "table.create(8)");
    assert_eq!(NumberOptimizer::new().optimize_allocation(8), "0");
    assert_eq!(StringOptimizer::new().optimize_allocation(16), "table.create(16)");
    assert!(StringOptimizer::new().generate_helpers().contains("fastConcat = function(strings, sep)"));
}

#[test]
fn registering_replaces_in_place() {
    let mut optimizer = RuntimeOptimizer::new();
    optimizer.register_type_optimizer("number", BuiltinOptimizer::Str(StringOptimizer::new()));
    let code = optimizer.generate_runtime_code();
    let array = code.find("-- Optimizations for array").unwrap();
    let number = code.find("-- Optimizations for number").unwrap();
    let string = code.find("-- Optimizations for string").unwrap();
    assert!(array < number && number < string);
    let args = vec![String::from("a"), String::from("b")];
    assert_eq!(
        optimizer.get_type_optimization("number", "concat", &args).unwrap(),
        "StringOptimizer.fastConcat({a, b})"
    );
    optimizer.register_type_optimizer("vector", BuiltinOptimizer::Array(ArrayOptimizer { chunk_size: 8 }));
    assert!(optimizer.generate_runtime_code().ends_with("-- Optimizations for vector\n\nlocal ArrayOptimizer = {\n    -- Optimized array operations\n    fastMap = function(arr, fn)\n        return SimdHelpers.mapChunks(arr, 4, fn)\n    end,\n\n    fastFilter = function(arr, predicate)\n        local result = {}\n        local index = 1\n        -- Process in chunks for better cache utilization\n        for i = 1, #arr, 4 do\n            local chunk = {arr[i], arr[i+1], arr[i+2], arr[i+3]}\n            for _, v in ipairs(chunk) do\n                if v and predicate(v) then\n                    result[index] = v\n                    index = index + 1\n                end\n            end\n        end\n        return result\n    end,\n\n    fastReduce = function(arr, fn, initial)\n        local result = initial or arr[1]\n        local start = initial and 1 or 2\n        -- Process in chunks\n        for i = start, #arr, 4 do\n            local chunk = {arr[i], arr[i+1], arr[i+2], arr[i+3]}\n            for _, v in ipairs(chunk) do\n                if v then\n                    result = fn(result, v)\n                end\n            end\n        end\n        return result\n    end,\n}\n\n"));
    assert_eq!(
        optimizer.get_type_optimization("vector", "map", &args).unwrap(),
        "SimdHelpers.mapChunks(a, 8, function(chunk) return b end)"
    );
}
