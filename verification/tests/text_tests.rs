//! Text helpers: trimming, comments, paths and searching.

use roblox_rs::text::paths::{contains_text, extension_of, file_name_of, join_path, with_extension};
use roblox_rs::text::trim::{code_before_comment, trim};
use std::path::Path;

#[test]
fn trimming_follows_str_trim() {
    for s in ["  a b  ", "\t\n x\u{3000}", "", "   ", "\u{85}y\u{a0}", "no-space"] {
        assert_eq!(trim(s), s.trim());
    }
}

#[test]
fn comments_are_cut_at_the_first_double_dash() {
    assert_eq!(code_before_comment("local x = 1 -- note -- more"), "local x = 1 ");
    assert_eq!(code_before_comment("-- all comment"), "");
    assert_eq!(code_before_comment("a - b"), "a - b");
    assert_eq!(code_before_comment("-"), "-");
}

#[test]
fn paths_follow_std_path() {
    for p in ["a/b.rs", "a/b", "a.tar.gz", ".hidden", "dir/", "a/b.rs/.", "x.", "/", "..", "a/.."] {
        let expected = Path::new(p).with_extension("lua");
        assert_eq!(with_extension(p, "lua"), expected.to_str().unwrap(), "with_extension of {}", p);
        let ext = Path::new(p).extension().map(|e| e.to_str().unwrap().to_string());
        assert_eq!(extension_of(p), ext, "extension of {}", p);
        let name = Path::new(p).file_name().map(|n| n.to_str().unwrap().to_string());
        assert_eq!(file_name_of(p), name, "file name of {}", p);
    }
    assert_eq!(with_extension("a/b.rs", ""), "a/b");
    assert_eq!(join_path("out", "packages"), "out/packages");
    assert_eq!(join_path("out/", "/abs"), "/abs");
}

#[test]
fn contains_finds_pieces() {
    assert!(contains_text("local function f()", "function "));
    assert!(contains_text("abc", ""));
    assert!(!contains_text("ab", "abc"));
    assert!(!contains_text("function", "function "));
}
