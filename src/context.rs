use vstd::prelude::*;
use pyo3::conversion::FromPyObjectOwned;
use pyo3::types::PyDict;
use pyo3::{IntoPyObject, Py, PyAny, PyErr};
use crate::error::PyVarError;
use crate::runtime::{
    dict_as_object, dict_get_item, dict_set_item, extract_value, main_namespace_copy, marshal_loads,
    new_dict, object_name, run_code, to_object,
};

verus! {

/// The namespace that `get` reports a missing variable in.
pub open spec fn globals_scope() -> Seq<char> {
    "globals"@
}

/// A compiled block of Python code with the host values it uses.
pub struct PythonBlock {
    bytecode: Vec<u8>,
    values: Vec<(String, Py<PyAny>)>,
}

impl PythonBlock {
    /// The serialized code object.
    pub closed spec fn code(&self) -> Seq<u8> {
        self.bytecode@
    }

    /// The placeholder names of the bound values, in order.
    pub closed spec fn names(&self) -> Seq<Seq<char>> {
        self.values@.map_values(|v: (String, Py<PyAny>)| v.0@)
    }

    /// A block of the given bytecode, with no values bound yet.
    pub fn new(bytecode: Vec<u8>) -> (r: PythonBlock)
        ensures
            r.code() == bytecode@,
            r.names() == Seq::<Seq<char>>::empty(),
    {
        let r = PythonBlock { bytecode, values: Vec::new() };
        assert(r.names() =~= Seq::<Seq<char>>::empty());
        r
    }

    /// Binds the host value for `placeholder`; fails where the value does
    /// not convert to a Python object.
    pub fn bind<T: for<'py> IntoPyObject<'py>>(&mut self, placeholder: &str, value: T) -> (r: Result<(), PyErr>)
        ensures
            final(self).code() == old(self).code(),
            final(self).names() == if r is Ok {
                old(self).names().push(placeholder@)
            } else {
                old(self).names()
            },
    {
        match to_object(value) {
            Ok(obj) => {
                self.values.push((placeholder.to_owned(), obj));
                assert(self.names() =~= old(self).names().push(placeholder@));
                Ok(())
            },
            Err(e) => Err(e),
        }
    }
}

/// Whether a context has run code yet.
#[derive(Clone, Copy, Debug, PartialEq, Eq, Structural)]
pub enum ContextState {
    /// Its namespace is still the copy it was made with.
    Fresh,
    /// At least one block has run in it.
    Running,
}

/// A namespace that keeps Python's global variables between blocks.
pub struct Context {
    globals: Py<PyDict>,
    state: ContextState,
}

/// What `get` returns for the variable `name`, from what the lookup found:
/// nothing, a value that does not convert, or the converted value.
pub fn lookup_result<T>(name: &str, found: Option<Option<T>>) -> (r: Result<T, PyVarError>)
    ensures
        match found {
            None => r matches Err(PyVarError::NotFound(n, s)) && n@ == name@ && s@ == globals_scope(),
            Some(None) => r matches Err(PyVarError::WrongType(n)) && n@ == name@,
            Some(Some(v)) => r matches Ok(x) && x == v,
        },
{
    match found {
        None => Err(PyVarError::NotFound(name.to_owned(), "globals".to_owned())),
        Some(None) => Err(PyVarError::WrongType(name.to_owned())),
        Some(Some(v)) => Ok(v),
    }
}

impl Context {
    pub closed spec fn spec_state(&self) -> ContextState {
        self.state
    }

    /// A fresh context, holding a copy of the namespace of `__main__`; fails
    /// only where Python cannot be reached.
    pub fn new() -> (r: Result<Context, PyErr>)
        ensures
            r matches Ok(c) ==> c.spec_state() == ContextState::Fresh,
    {
        match main_namespace_copy() {
            Ok(globals) => Ok(Context { globals, state: ContextState::Fresh }),
            Err(e) => Err(e),
        }
    }

    pub fn state(&self) -> (r: ContextState)
        ensures
            r == self.spec_state(),
    {
        self.state
    }

    /// The namespace, as a Python dictionary.
    pub fn globals(&self) -> &Py<PyDict> {
        &self.globals
    }

    /// The global variable `name`, converted to `T`.
    pub fn get<T: for<'py> FromPyObjectOwned<'py>>(&self, name: &str) -> (r: Result<T, PyVarError>)
        ensures
            r matches Err(PyVarError::NotFound(n, s)) ==> n@ == name@ && s@ == globals_scope(),
            r matches Err(PyVarError::WrongType(n)) ==> n@ == name@,
    {
        let found = match dict_get_item(&self.globals, name) {
            Ok(Some(value)) => Some(extract_value::<T>(&value)),
            _ => None,
        };
        lookup_result(name, found)
    }

    /// Sets the global variable `name`, bypassing any block.
    pub fn set<T: for<'py> IntoPyObject<'py>>(&self, name: &str, value: T) -> (r: Result<(), PyErr>) {
        match to_object(value) {
            Ok(obj) => dict_set_item(&self.globals, name, &obj),
            Err(e) => Err(e),
        }
    }

    /// Adds a Python function or module, made with `pyo3::wrap_pyfunction!` or
    /// `pyo3::wrap_pymodule!`, under its own `__name__`.
    pub fn add_wrapped(&self, object: &Py<PyAny>) -> (r: Result<(), PyErr>) {
        match object_name(object) {
            Ok(name) => dict_set_item(&self.globals, name.as_str(), object),
            Err(e) => Err(e),
        }
    }

    /// Runs a block in this context: its host values go into one dictionary
    /// under `_RUST`, and what the code changes stays for later blocks. An
    /// error from Python is handed back as it came; nothing is undone.
    pub fn run(&mut self, block: &PythonBlock) -> (r: Result<(), PyErr>)
        ensures
            final(self).spec_state() == if r is Ok { ContextState::Running } else { old(self).spec_state() },
    {
        let values = new_dict();
        let mut k: usize = 0;
        while k < block.values.len()
            invariant
                k <= block.values.len(),
                self.state == old(self).state,
            decreases block.values.len() - k,
        {
            let (name, value) = &block.values[k];
            if let Err(e) = dict_set_item(&values, name.as_str(), value) {
                return Err(e);
            }
            k += 1;
        }
        if let Err(e) = dict_set_item(&self.globals, "_RUST", &dict_as_object(values)) {
            return Err(e);
        }
        let code = match marshal_loads(block.bytecode.as_slice()) {
            Ok(code) => code,
            Err(e) => return Err(e),
        };
        match run_code(&code, &self.globals) {
            Ok(()) => {
                self.state = ContextState::Running;
                Ok(())
            },
            Err(e) => Err(e),
        }
    }
}

/// The ways a `python!{}` block can be used: run on its own, run in a new
/// context that is kept, or kept for later.
pub trait FromInlinePython: Sized {
    fn from_python_macro(block: PythonBlock) -> (r: Result<Self, PyErr>);
}

impl FromInlinePython for Context {
    /// Runs the block in a new context and keeps the context.
    fn from_python_macro(block: PythonBlock) -> (r: Result<Context, PyErr>) {
        let mut context = match Context::new() {
            Ok(c) => c,
            Err(e) => return Err(e),
        };
        match context.run(&block) {
            Ok(()) => Ok(context),
            Err(e) => Err(e),
        }
    }
}

impl FromInlinePython for PythonBlock {
    /// Keeps the block to be run later.
    fn from_python_macro(block: PythonBlock) -> (r: Result<PythonBlock, PyErr>) {
        Ok(block)
    }
}

impl FromInlinePython for () {
    /// Runs the block in a new context, which is then dropped.
    fn from_python_macro(block: PythonBlock) -> (r: Result<(), PyErr>) {
        match <Context as FromInlinePython>::from_python_macro(block) {
            Ok(_) => Ok(()),
            Err(e) => Err(e),
        }
    }
}

} // verus!
