//! Execution backend for rule conditions compiled to WebAssembly: the
//! builder that assembles the module, the host functions it calls back, and
//! the per-scan state those functions read and fill in.
pub mod parser;
pub mod scanner;
pub mod wasm;
