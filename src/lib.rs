//! Embeds fragments of Python, written with Rust tokens, in Rust programs.
//!
//! - `token`: host tokens with their positions.
//! - `embed`: rebuilds Python source, indentation included, from host tokens,
//!   with `'name` for host variables and `##` for Python's `//`.
//! - `lemmas`: what every reconstruction keeps.
//! - `block`: compiles a block to bytecode.
//! - `diagnostic`: points a Python error at the host tokens it came from.
//! - `context`: namespaces that keep Python's globals between blocks.
//! - `error`: why a variable could not be read from a context.
//! - `runtime`: the calls into the Python interpreter.
//! - `text`: characters and strings.

use vstd::prelude::*;

pub mod block;
pub mod context;
pub mod diagnostic;
pub mod embed;
pub mod error;
pub mod lemmas;
pub mod runtime;
pub mod text;
pub mod token;

pub use context::{Context, FromInlinePython, PythonBlock};
pub use error::PyVarError;

verus! {

} // verus!
