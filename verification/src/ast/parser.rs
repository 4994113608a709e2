//! Parsing Rust source into `syn`'s syntax tree, and reading doc comments.

use vstd::prelude::*;
use crate::syntax::{parse_rust as parse_source, rust_parse_error};
use crate::text::trim::{trim, trimmed};

verus! {

/// Error that can occur during parsing.
#[derive(Debug)]
pub enum ParseError {
    /// `syn` rejected the source; its message
    Syntax(String),
    UnsupportedFeature(String),
    Other(String),
}

impl ParseError {
    /// The message of the error.
    pub fn message(&self) -> (r: String)
        ensures
            r@ == match *self {
                ParseError::Syntax(m) => "syntax error: "@ + m@,
                ParseError::UnsupportedFeature(m) => "unsupported feature: "@ + m@,
                ParseError::Other(m) => "other parse error: "@ + m@,
            },
    {
        let (prefix, m) = match self {
            ParseError::Syntax(m) => ("syntax error: ", m),
            ParseError::UnsupportedFeature(m) => ("unsupported feature: ", m),
            ParseError::Other(m) => ("other parse error: ", m),
        };
        let mut s = String::from_str(prefix);
        s.append(m.as_str());
        s
    }
}

/// Parse Rust code into a `syn::File`; a syntax error carries `syn`'s
/// message.
pub fn parse_rust(input: &str) -> (r: Result<syn::File, ParseError>)
    ensures
        match r {
            Ok(_) => rust_parse_error(input@) is None,
            Err(ParseError::Syntax(m)) => rust_parse_error(input@) == Some(m@),
            Err(_) => false,
        },
{
    match parse_source(input) {
        Ok(f) => Ok(f),
        Err(m) => Err(ParseError::Syntax(m)),
    }
}

/// Parse Rust code with preprocessing; there is none yet, so this parses
/// as `parse_rust` does.
pub fn parse_rust_with_preprocessing(input: &str) -> (r: Result<syn::File, ParseError>)
    ensures
        match r {
            Ok(_) => rust_parse_error(input@) is None,
            Err(ParseError::Syntax(m)) => rust_parse_error(input@) == Some(m@),
            Err(_) => false,
        },
{
    parse_rust(input)
}

/// The doc comments among the texts of a list of attributes (`None` for an
/// attribute that is not a doc comment), in order, each trimmed.
pub fn doc_comments(texts: &Vec<Option<String>>) -> (r: Vec<String>)
    ensures
        r@.map_values(|s: String| s@) == doc_views(texts@),
{
    let mut out: Vec<String> = Vec::new();
    let mut i: usize = 0;
    while i < texts.len()
        invariant
            i <= texts@.len(),
            out@.map_values(|s: String| s@) == doc_views(texts@.take(i as int)),
        decreases texts@.len() - i,
    {
        proof {
            assert(texts@.take(i + 1).drop_last() =~= texts@.take(i as int));
        }
        let ghost before = out@;
        match &texts[i] {
            Some(t) => {
                let d = trim(t.as_str());
                out.push(d);
                proof {
                    assert(out@.map_values(|s: String| s@) =~= before.map_values(|s: String| s@).push(d@));
                }
            },
            None => {},
        }
        i = i + 1;
    }
    proof {
        assert(texts@.take(texts@.len() as int) =~= texts@);
    }
    out
}

/// The trimmed texts of the doc comments among `texts`, in order.
pub open spec fn doc_views(texts: Seq<Option<String>>) -> Seq<Seq<char>>
    decreases texts.len(),
{
    if texts.len() == 0 {
        Seq::empty()
    } else {
        match texts.last() {
            Some(t) => doc_views(texts.drop_last()).push(trimmed(t@)),
            None => doc_views(texts.drop_last()),
        }
    }
}

} // verus!
