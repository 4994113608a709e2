//! Parsing Rust source.

use roblox_rs::ast::parser::{doc_comments, parse_rust, parse_rust_with_preprocessing, ParseError};

#[test]
fn test_parse_simple_function() {
    let code = r#"
        fn add(a: i32, b: i32) -> i32 {
            a + b
        }
    "#;

    let result = parse_rust(code);
    assert!(result.is_ok());
}

#[test]
fn test_parse_struct() {
    let code = r#"
        /// A simple point in 2D space.
        struct Point {
            x: f32,
            y: f32,
        }

        impl Point {
            fn new(x: f32, y: f32) -> Self {
                Self { x, y }
            }

            fn distance(&self, other: &Point) -> f32 {
                let dx = self.x - other.x;
                let dy = self.y - other.y;
                (dx * dx + dy * dy).sqrt()
            }
        }
    "#;

    let result = parse_rust(code);
    assert!(result.is_ok());
}

#[test]
fn syntax_errors_carry_syns_message() {
    match parse_rust_with_preprocessing("fn (") {
        Err(e @ ParseError::Syntax(_)) => {
            let m = e.message();
            assert!(m.starts_with("syntax error: "));
            assert!(m.len() > "syntax error: ".len());
        }
        other => panic!("expected a syntax error, got {:?}", other.map(|_| ())),
    }
    assert_eq!(ParseError::Other("x".to_string()).message(), "other parse error: x");
    assert_eq!(ParseError::UnsupportedFeature("y".to_string()).message(), "unsupported feature: y");
}

#[test]
fn doc_comments_are_trimmed_in_order() {
    let texts = vec![Some(" first ".to_string()), None, Some("\tsecond\n".to_string())];
    assert_eq!(doc_comments(&texts), vec!["first".to_string(), "second".to_string()]);
}
