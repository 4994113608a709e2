//! The compiler's end-to-end behaviour.

use roblox_rs::compiler::{compile, compile_with_options, CompileOptions, OptimizationLevel};

    #[test]
    fn test_runtime_helper_inclusion() {
        // Simple addition function
        let rust_code = r#"
            fn add(a: i32, b: i32) -> i32 {
                a + b
            }
        "#;
        
        // Compile with runtime helpers
        let result = compile_with_options(rust_code, CompileOptions {
            include_runtime: true,
            debug_mode: false,
            enable_parallelization: false,
            optimization_level: OptimizationLevel::Default,
            generate_type_declarations: false,
            type_declarations_dir: None,
            rojo_project_path: None,
            serve_with_rojo: false,
            open_rojo_browser: false,
        });
        
        assert!(result.is_ok(), "Compilation failed: {:?}", result.err());
        let luau_code = result.unwrap();
        
        // Check for runtime helper components
        assert!(luau_code.contains("RobloxRS = {}"), "Runtime helper not included");
        assert!(luau_code.contains("RobloxRS.Pool"), "Object pooling not included");
        assert!(luau_code.contains("RobloxRS.Debug"), "Debug support not included");
        assert!(luau_code.contains("RobloxRS.Parallel"), "Parallel execution not included");
        
        // Now compile without runtime helpers
        let result_no_rt = compile_with_options(rust_code, CompileOptions {
            include_runtime: false,
            debug_mode: false,
            enable_parallelization: false,
            optimization_level: OptimizationLevel::Default,
            generate_type_declarations: false,
            type_declarations_dir: None,
            rojo_project_path: None,
            serve_with_rojo: false,
            open_rojo_browser: false,
        });
        
        assert!(result_no_rt.is_ok(), "Compilation failed: {:?}", result_no_rt.err());
        let luau_code_no_rt = result_no_rt.unwrap();
        
        // Check that runtime helpers are not included
        assert!(!luau_code_no_rt.contains("RobloxRS.Pool"), "Object pooling included when it shouldn't be");
    }

    #[test]
    fn test_debug_mode() {
        // Simple function with some variables
        let rust_code = r#"
            fn calculate(x: i32, y: i32) -> i32 {
                let z = x * y;
                z + 10
            }
        "#;
        
        // Compile with debug mode
        let result = compile_with_options(rust_code, CompileOptions {
            include_runtime: true,
            debug_mode: true,
            enable_parallelization: false,
            optimization_level: OptimizationLevel::Default,
            generate_type_declarations: false,
            type_declarations_dir: None,
            rojo_project_path: None,
            serve_with_rojo: false,
            open_rojo_browser: false,
        });
        
        assert!(result.is_ok(), "Compilation failed: {:?}", result.err());
        let luau_code = result.unwrap();
        
        // Check for debug symbols
        assert!(luau_code.contains("DEBUG_SYMBOLS"), "Debug symbols not included");
    }

    #[test]
    fn test_basic_arithmetic() {
        // Test a variety of arithmetic operations
        let rust_code = r#"
            fn test_arithmetic(a: i32, b: i32) -> i32 {
                let c = a + b;
                let d = a - b;
                let e = a * b;
                let f = a / b;
                c + d + e + f
            }
        "#;
        
        // Compile with default options
        let result = compile_with_options(rust_code, CompileOptions {
            include_runtime: true,
            debug_mode: false,
            enable_parallelization: false,
            optimization_level: OptimizationLevel::Default,
            generate_type_declarations: false,
            type_declarations_dir: None,
            rojo_project_path: None,
            serve_with_rojo: false,
            open_rojo_browser: false,
        });
        
        assert!(result.is_ok(), "Compilation failed: {:?}", result.err());
        let luau_code = result.unwrap();
        
        // Check for arithmetic operators
        assert!(luau_code.contains("+"), "Addition operator not found");
        assert!(luau_code.contains("-"), "Subtraction operator not found");
        assert!(luau_code.contains("*"), "Multiplication operator not found");
        assert!(luau_code.contains("/"), "Division operator not found");
    }

    #[test]
    fn test_compile_with_runtime_helpers() {
        let rust_code = r#"
            fn test_function(x: i32, y: i32) -> i32 {
                x + y
            }
        "#;

        let result = compile_with_options(rust_code, CompileOptions {
            include_runtime: true,
            debug_mode: false,
            enable_parallelization: false,
            optimization_level: OptimizationLevel::Default,
            generate_type_declarations: false,
            type_declarations_dir: None,
            rojo_project_path: None,
            serve_with_rojo: false,
            open_rojo_browser: false,
        });

        assert!(result.is_ok(), "Compilation failed: {:?}", result.err());
        let luau_code = result.unwrap();
        
        // Runtime helpers should be included
        assert!(luau_code.contains("RobloxRS ="), "Runtime helpers not included in output");
        assert!(luau_code.contains("Pool"), "Object pooling not included in output");
        assert!(luau_code.contains("Parallel"), "Parallel execution not included in output");
    }

    #[test]
    fn test_compile_with_debug_mode() {
        let input = r#"
            fn test_function() {
                let x = 42;
                println!("{}", x);
            }
        "#;

        let options = CompileOptions {
            debug_mode: true,
            include_runtime: true,
            ..Default::default()
        };

        let output = compile_with_options(input, options)
            .expect("Failed to compile with debug mode");

        // Verify debug info is included
        assert!(output.contains("RobloxRS.Debug.line_info"), "Debug namespace not included");
        assert!(output.contains("variables = {}"), "Variable info not included");
        assert!(output.contains("test_function"), "Function name not included in debug info");
        
        // Debug info should be present
        assert!(output.contains("line_info"), "Line info not included in debug output");
        assert!(output.contains("variable_info"), "Variable info not included in debug output");
        assert!(output.contains("source_map"), "Source map not included in debug output");
    }

    #[test]
    fn test_compile_with_parallelization() {
        let rust_code = r#"
            fn multiply(a: i32, b: i32) -> i32 {
                a * b
            }
        "#;

        let result = compile_with_options(rust_code, CompileOptions {
            include_runtime: true,
            debug_mode: false,
            enable_parallelization: true,
            optimization_level: OptimizationLevel::Default,
            generate_type_declarations: false,
            type_declarations_dir: None,
            rojo_project_path: None,
            serve_with_rojo: false,
            open_rojo_browser: false,
        });

        assert!(result.is_ok(), "Compilation failed: {:?}", result.err());
    }

    #[test]
    fn test_aggressive_optimization() {
        let rust_code = r#"
            fn add_three_numbers(x: i32, y: i32, z: i32) -> i32 {
                x + y + z
            }
            
            fn create_name(first: i32, last: i32) -> i32 {
                first * 1000 + last
            }
        "#;

        let result = compile_with_options(rust_code, CompileOptions {
            include_runtime: true,
            debug_mode: false,
            enable_parallelization: false,
            optimization_level: OptimizationLevel::Aggressive,
            generate_type_declarations: false,
            type_declarations_dir: None,
            rojo_project_path: None,
            serve_with_rojo: false,
            open_rojo_browser: false,
        });

        assert!(result.is_ok(), "Compilation failed: {:?}", result.err());
        let luau_code = result.unwrap();
        
        // Optimization should produce a valid function
        assert!(luau_code.contains("function add_three_numbers"), 
            "Function not found in optimized output");
    }

    #[test]
    fn test_parallel_runtime_inclusion() {
        // Simple function that will include the runtime helper
        let rust_code = r#"
            fn add(a: i32, b: i32) -> i32 {
                a + b
            }
        "#;
        
        // Compile with runtime helpers
        let result = compile_with_options(rust_code, CompileOptions {
            include_runtime: true,
            debug_mode: false,
            enable_parallelization: false, // We're just testing inclusion
            optimization_level: OptimizationLevel::Default,
            generate_type_declarations: false,
            type_declarations_dir: None,
            rojo_project_path: None,
            serve_with_rojo: false,
            open_rojo_browser: false,
        });
        
        assert!(result.is_ok(), "Compilation failed: {:?}", result.err());
        let luau_code = result.unwrap();
        
        // Check for parallel execution utilities in the runtime
        assert!(luau_code.contains("RobloxRS.Parallel"), "Parallel execution utilities not included");
        assert!(luau_code.contains("function RobloxRS.Parallel.forEach") || 
                luau_code.contains("RobloxRS.Parallel.forEach = function"), 
                "forEach function not found");
        assert!(luau_code.contains("function RobloxRS.Parallel.map") || 
                luau_code.contains("RobloxRS.Parallel.map = function"), 
                "map function not found");
        assert!(luau_code.contains("function RobloxRS.Parallel.filter") || 
                luau_code.contains("RobloxRS.Parallel.filter = function"), 
                "filter function not found");
    }

    #[test]
    fn test_coroutine_support() {
        // Simple function for runtime inclusion
        let rust_code = r#"
            fn sample() -> i32 { 42 }
        "#;
        
        // Compile with runtime helpers
        let result = compile_with_options(rust_code, CompileOptions {
            include_runtime: true,
            debug_mode: false,
            enable_parallelization: false,
            optimization_level: OptimizationLevel::Default,
            generate_type_declarations: false,
            type_declarations_dir: None,
            rojo_project_path: None,
            serve_with_rojo: false,
            open_rojo_browser: false,
        });
        
        assert!(result.is_ok(), "Compilation failed: {:?}", result.err());
        let luau_code = result.unwrap();
        
        // Verify coroutine support in the runtime
        assert!(luau_code.contains("coroutine"), "Coroutine implementation not found");
        assert!(luau_code.contains("thread") || luau_code.contains("threads"), "Thread management not found");
        assert!(luau_code.contains("coroutine.create"), "Coroutine creation not found");
        assert!(luau_code.contains("coroutine.resume"), "Coroutine resumption not found");
    }

    #[test]
    fn test_runtime_includes_pooling() {
        // Simple function that could benefit from object pooling
        let rust_code = r#"
            fn add(a: i32, b: i32) -> i32 {
                a + b
            }
        "#;
        
        // Compile with aggressive optimization and runtime helpers
        let result = compile_with_options(rust_code, CompileOptions {
            include_runtime: true,
            debug_mode: false,
            enable_parallelization: false,
            optimization_level: OptimizationLevel::Aggressive,
            generate_type_declarations: false,
            type_declarations_dir: None,
            rojo_project_path: None,
            serve_with_rojo: false,
            open_rojo_browser: false,
        });
        
        assert!(result.is_ok(), "Compilation failed: {:?}", result.err());
        let luau_code = result.unwrap();
        
        // Check for runtime helper components
        assert!(luau_code.contains("RobloxRS.Pool"), "Object pooling not included");
        assert!(luau_code.contains("function RobloxRS.Pool.new"), "Pool.new function not found");
        assert!(luau_code.contains("function pool:get()"), "Pool get method not found");
        assert!(luau_code.contains("function pool:release"), "Pool release method not found");
    }

    #[test]
    fn test_runtime_pool_features() {
        // Verify all the required pooling features are included
        let rust_code = r#"
            fn sample() -> i32 { 42 }
        "#;
        
        let result = compile_with_options(rust_code, CompileOptions {
            include_runtime: true,
            debug_mode: false,
            enable_parallelization: false,
            optimization_level: OptimizationLevel::Default,
            generate_type_declarations: false,
            type_declarations_dir: None,
            rojo_project_path: None,
            serve_with_rojo: false,
            open_rojo_browser: false,
        });
        
        assert!(result.is_ok(), "Compilation failed: {:?}", result.err());
        let luau_code = result.unwrap();
        
        // Check for specific pooling features
        assert!(luau_code.contains("pre-allocate") || 
                luau_code.contains("Pre-allocate") || 
                luau_code.contains("initialSize"), 
                "Pre-allocation feature not found");
                
        assert!(luau_code.contains("self.available"), "Available pool tracking not found");
        assert!(luau_code.contains("allocated"), "Allocation tracking not found");
    }

    #[test]
    fn it_works() {
        let result = compile("fn main() { println!(\"Hello, world!\"); }", Default::default());
        assert!(result.is_ok());
    }
