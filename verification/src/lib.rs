//! Middle end of a small gradually typed language: a two-pass type
//! resolution engine (inference followed by correction) and a lowering
//! stage that turns the corrected tree into a linear, stack-oriented
//! intermediate representation for a backend to consume.

pub mod types;
pub mod ast;
pub mod typed;
pub mod env;
pub mod ir;
pub mod analysis;
pub mod correct;
pub mod gen;
pub mod compiler;
pub mod parse;
pub mod laws;
