//! Configuration of a compilation run: which backend consumes the IR
//! and the switches the driver hands through. Reading sources, running
//! the backend and writing output are the driver's work, outside this
//! library.

use vstd::prelude::*;

verus! {

/// Settings for a C-emitting backend: the C compiler to hand the
/// generated source to, and its flags.
#[derive(Debug)]
pub struct CSettings {
    pub compiler: Option<String>,
    pub flags: Vec<String>,
}

impl CSettings {
    /// Bundles a compiler choice with its flags.
    pub fn new(compiler: Option<String>, flags: Vec<String>) -> (r: CSettings)
        ensures
            r.compiler == compiler,
            r.flags == flags,
    {
        CSettings { compiler, flags }
    }
}

/// The backend a run emits for.
#[derive(Debug)]
pub enum Backend {
    C(CSettings),
    Custom { name: String, settings: Vec<String> },
}

/// One compilation run's configuration: the source text, the library
/// directory, the backend, and the driver switches.
#[derive(Debug)]
pub struct CompilerConfig {
    pub input: String,
    pub libdir: String,
    pub backend: Backend,
    pub debug: bool,
    pub repl: bool,
    pub output: String,
}

} // verus!
