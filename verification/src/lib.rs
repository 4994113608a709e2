//! A compiler from a subset of Rust to Luau for the Roblox platform, with
//! the Luau runtime support library it links against.

pub mod error;
pub mod text;
pub mod keyed;
pub mod luau;
pub mod ast;
pub mod analysis;
pub mod api;
pub mod syntax;
pub mod transformer;
pub mod transform;
pub mod codegen;
pub mod runtime;
pub mod debug;
pub mod cli;
pub mod compiler;
pub mod dependencies;
pub mod optimize;
pub mod memory;
pub mod parallel;
pub mod rojo;
pub mod packaging;
