use vstd::prelude::*;
use pyo3::types::{PyAnyMethods, PyBytesMethods, PyCode, PyCodeMethods, PyDict, PyDictMethods, PyModuleMethods};
use pyo3::{IntoPyObject, IntoPyObjectExt, Py, PyAny, PyErr, Python};
use pyo3::conversion::FromPyObjectOwned;

verus! {

#[verifier::external_type_specification]
#[verifier::external_body]
#[verifier::reject_recursive_types(T)]
pub struct ExPy<T>(Py<T>);

#[verifier::external_type_specification]
#[verifier::external_body]
pub struct ExPyDict(PyDict);

#[verifier::external_type_specification]
#[verifier::external_body]
pub struct ExPyAny(PyAny);

#[verifier::external_type_specification]
#[verifier::external_body]
pub struct ExPyErr(PyErr);

/// Relies on `Python::import`, `PyModuleMethods::dict` and `PyDictMethods::copy`:
/// a private copy of the namespace of `__main__`, or the error that prevented it.
#[verifier::external_body]
pub(crate) fn main_namespace_copy() -> (r: Result<Py<PyDict>, PyErr>) {
    Python::attach(|py| Ok(py.import("__main__")?.dict().copy()?.unbind()))
}

/// Relies on `PyDict::new`: a new empty dictionary.
#[verifier::external_body]
pub(crate) fn new_dict() -> (r: Py<PyDict>) {
    Python::attach(|py| PyDict::new(py).unbind())
}

/// Relies on `Py::into_any`: the same dictionary, seen as any Python object.
#[verifier::external_body]
pub(crate) fn dict_as_object(d: Py<PyDict>) -> (r: Py<PyAny>) {
    d.into_any()
}

/// Relies on Python's built-in `compile`, in `exec` mode, called through
/// `PyAnyMethods::call1`: a code object, or the error that compiling raised.
#[verifier::external_body]
pub(crate) fn compile_source(source: &str, filename: &str) -> (r: Result<Py<PyAny>, PyErr>) {
    Python::attach(|py| {
        let compile = py.import("builtins")?.getattr("compile")?;
        Ok(compile.call1((source, filename, "exec"))?.unbind())
    })
}

/// Relies on `pyo3::marshal::dumps`, in `marshal::VERSION`: the bytes of an object.
#[verifier::external_body]
pub(crate) fn marshal_dumps(code: &Py<PyAny>) -> (r: Result<Vec<u8>, PyErr>) {
    Python::attach(|py| Ok(pyo3::marshal::dumps(code.bind(py), pyo3::marshal::VERSION)?.as_bytes().to_vec()))
}

/// Relies on `pyo3::marshal::loads`: the object that the bytes encode.
#[verifier::external_body]
pub(crate) fn marshal_loads(bytes: &[u8]) -> (r: Result<Py<PyAny>, PyErr>) {
    Python::attach(|py| Ok(pyo3::marshal::loads(py, bytes)?.unbind()))
}

/// Relies on `PyCodeMethods::run`: runs a code object with `globals` as its
/// namespace; an object that is no code object is refused with an error.
#[verifier::external_body]
pub(crate) fn run_code(code: &Py<PyAny>, globals: &Py<PyDict>) -> (r: Result<(), PyErr>) {
    Python::attach(|py| {
        let code = code.bind(py).cast::<PyCode>()?;
        code.run(Some(globals.bind(py)), None)?;
        Ok(())
    })
}

/// Relies on `PyDictMethods::set_item`.
#[verifier::external_body]
pub(crate) fn dict_set_item(d: &Py<PyDict>, key: &str, value: &Py<PyAny>) -> (r: Result<(), PyErr>) {
    Python::attach(|py| d.bind(py).set_item(key, value.bind(py)))
}

/// Relies on `PyAnyMethods::getattr` and `extract`: the object's `__name__`
/// as a string.
#[verifier::external_body]
pub(crate) fn object_name(v: &Py<PyAny>) -> (r: Result<String, PyErr>) {
    Python::attach(|py| v.bind(py).getattr("__name__")?.extract::<String>())
}

/// Relies on `PyDictMethods::get_item`: `None` where the key is absent.
#[verifier::external_body]
pub(crate) fn dict_get_item(d: &Py<PyDict>, key: &str) -> (r: Result<Option<Py<PyAny>>, PyErr>) {
    Python::attach(|py| Ok(d.bind(py).get_item(key)?.map(|v| v.unbind())))
}

/// Relies on `Py::extract`: the object as a Rust value, `None` where it does
/// not convert.
#[verifier::external_body]
pub(crate) fn extract_value<T: for<'py> FromPyObjectOwned<'py>>(v: &Py<PyAny>) -> (r: Option<T>) {
    Python::attach(|py| v.extract::<T>(py).ok())
}

/// Relies on `IntoPyObjectExt::into_py_any`: the Python object for a Rust value.
#[verifier::external_body]
pub(crate) fn to_object<T: for<'py> IntoPyObject<'py>>(value: T) -> (r: Result<Py<PyAny>, PyErr>) {
    Python::attach(|py| value.into_py_any(py))
}

} // verus!
