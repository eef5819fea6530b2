use vstd::prelude::*;
use crate::text::{push_str_chars, string_of};

verus! {

/// Why a variable could not be read from a context.
#[derive(Debug)]
pub enum PyVarError {
    /// The variable (first) is absent from the namespace (second).
    NotFound(String, String),
    /// The variable's value does not convert to the type asked for.
    WrongType(String),
}

pub open spec fn not_found_message(name: Seq<char>) -> Seq<char> {
    "Python context does not contain a variable named `"@ + name + "`"@
}

pub open spec fn wrong_type_message(name: Seq<char>) -> Seq<char> {
    "Unable to convert `"@ + name + "` to the type asked for"@
}

impl PyVarError {
    /// A sentence that describes the error.
    pub fn message(&self) -> (r: String)
        ensures
            r@ == match self {
                PyVarError::NotFound(name, _) => not_found_message(name@),
                PyVarError::WrongType(name) => wrong_type_message(name@),
            },
    {
        let (head, name, tail) = match self {
            PyVarError::NotFound(name, _) => ("Python context does not contain a variable named `", name, "`"),
            PyVarError::WrongType(name) => ("Unable to convert `", name, "` to the type asked for"),
        };
        let mut m: Vec<char> = Vec::new();
        push_str_chars(&mut m, head);
        push_str_chars(&mut m, name.as_str());
        push_str_chars(&mut m, tail);
        string_of(&m)
    }
}

} // verus!
