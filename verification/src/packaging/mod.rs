//! Packaging projects into Roblox place files.

pub mod place_gen;
pub mod place_generator;
