//! Error handling for the compiler.

use vstd::prelude::*;

verus! {

/// std's I/O error, carried through unchanged.
#[verifier::external_type_specification]
#[verifier::external_body]
pub struct ExIoError(std::io::Error);

/// Custom error type for the compiler.
#[derive(Debug)]
pub enum Error {
    /// Error during Rust parsing
    Parse(String),
    /// Error during transformation to Luau
    Transform(String),
    /// Error during code generation
    CodeGen(String),
    /// Error during optimization
    Optimization(String),
    /// Error related to the Roblox API
    RobloxApi(String),
    /// I/O error
    Io(std::io::Error),
    /// Other error
    Other(String),
}

/// The text std's I/O error displays. Nothing is stated of it: it comes
/// from the operating system.
#[verifier::external_body]
fn io_error_text(e: &std::io::Error) -> String {
    e.to_string()
}

impl Error {
    /// The message the error displays: its kind, then what it carries.
    pub fn message(&self) -> (r: String)
        ensures
            match self {
                Error::Parse(m) => r@ == "Parse error: "@ + m@,
                Error::Transform(m) => r@ == "Transform error: "@ + m@,
                Error::CodeGen(m) => r@ == "Code generation error: "@ + m@,
                Error::Optimization(m) => r@ == "Optimization error: "@ + m@,
                Error::RobloxApi(m) => r@ == "Roblox API error: "@ + m@,
                Error::Io(_) => r@.len() >= 11 && r@.take(11) == "I/O error: "@,
                Error::Other(m) => r@ == "Other error: "@ + m@,
            },
    {
        let (prefix, text) = match self {
            Error::Parse(m) => ("Parse error: ", m.clone()),
            Error::Transform(m) => ("Transform error: ", m.clone()),
            Error::CodeGen(m) => ("Code generation error: ", m.clone()),
            Error::Optimization(m) => ("Optimization error: ", m.clone()),
            Error::RobloxApi(m) => ("Roblox API error: ", m.clone()),
            Error::Io(e) => ("I/O error: ", io_error_text(e)),
            Error::Other(m) => ("Other error: ", m.clone()),
        };
        let mut r = String::from_str(prefix);
        r.append(text.as_str());
        proof {
            reveal_strlit("I/O error: ");
            if self is Io {
                assert(r@.take(11) =~= "I/O error: "@);
            }
        }
        r
    }
}

/// Specialized Result type for the compiler.
pub type Result<T> = std::result::Result<T, Error>;

} // verus!
