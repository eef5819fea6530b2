use vstd::prelude::*;
use pyo3::PyErr;
use crate::embed::{binding_names, placeholder_of, reconstruct, start_state, walk, Binding, IndentationError};
use crate::diagnostic::{Diagnostic, Location};
use crate::runtime::{compile_source, marshal_dumps};
use crate::token::{Delimiter, Token, TokenTree};

verus! {

/// Why a block could not be compiled.
#[derive(Debug)]
pub enum BlockError {
    /// The host tokens do not give valid indentation.
    Indentation(IndentationError),
    /// Python refused the source.
    Compile(PyErr),
    /// The compiled code could not be serialized.
    Serialization(PyErr),
}

/// A block compiled to bytecode, and the host variables it reads, in order.
#[derive(Debug)]
pub struct CompiledBlock {
    pub bytecode: Vec<u8>,
    pub bindings: Vec<Binding>,
}

/// Rebuilds the Python source of a block, compiles it under the name
/// `filename` and serializes the code. The source itself is not kept.
pub fn compile_block(tokens: &Vec<Token>, filename: &str, interpolate: bool) -> (r: Result<CompiledBlock, BlockError>)
    ensures
        match walk(start_state(), tokens@, 0, interpolate) {
            Err(e) => r matches Err(BlockError::Indentation(x)) && x == e,
            Ok(w) => !(r matches Err(BlockError::Indentation(_)))
                && (r matches Ok(b) ==> binding_names(b.bindings@) == w.names
                    && forall|k: int| 0 <= k < b.bindings.len()
                        ==> #[trigger] b.bindings@[k].placeholder@ == placeholder_of(b.bindings@[k].name@)),
        },
{
    let rebuilt = match reconstruct(tokens, interpolate) {
        Ok(x) => x,
        Err(e) => return Err(BlockError::Indentation(e)),
    };
    let code = match compile_source(rebuilt.source.as_str(), filename) {
        Ok(c) => c,
        Err(e) => return Err(BlockError::Compile(e)),
    };
    match marshal_dumps(&code) {
        Ok(bytecode) => Ok(CompiledBlock { bytecode, bindings: rebuilt.bindings }),
        Err(e) => Err(BlockError::Serialization(e)),
    }
}

/// Whether a block opens with an inner attribute, `#![...]`.
pub open spec fn starts_with_attribute(toks: Seq<Token>) -> bool {
    &&& toks.len() >= 3
    &&& toks[0].tree matches TokenTree::Punct { ch, .. } && ch == '#'
    &&& toks[1].tree matches TokenTree::Punct { ch, .. } && ch == '!'
    &&& toks[2].tree matches TokenTree::Group { delimiter, .. } && delimiter == Delimiter::Bracket
}

pub open spec fn attribute_message() -> Seq<char> {
    "Attributes in python!{} are no longer supported. Use context.run(python!{..}) to use a context."@
}

/// Refuses a block that opens with an inner attribute: such blocks once
/// chose a context, which is now done with `Context::run`.
pub fn check_no_attribute(tokens: &Vec<Token>) -> (r: Result<(), Diagnostic>)
    ensures
        starts_with_attribute(tokens@) ==> (r matches Err(d) && d.message@ == attribute_message() && d.location == Location::CallSite),
        !starts_with_attribute(tokens@) ==> r is Ok,
{
    if tokens.len() < 3 {
        return Ok(());
    }
    let pound = match &tokens[0].tree {
        TokenTree::Punct { ch, .. } => *ch == '#',
        _ => false,
    };
    let bang = match &tokens[1].tree {
        TokenTree::Punct { ch, .. } => *ch == '!',
        _ => false,
    };
    let bracket = match &tokens[2].tree {
        TokenTree::Group { delimiter, .. } => match delimiter {
            Delimiter::Bracket => true,
            _ => false,
        },
        _ => false,
    };
    if pound && bang && bracket {
        let message = "Attributes in python!{} are no longer supported. Use context.run(python!{..}) to use a context.".to_owned();
        Err(Diagnostic { message, location: Location::CallSite })
    } else {
        Ok(())
    }
}

} // verus!
