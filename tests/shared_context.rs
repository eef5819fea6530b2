use inline_python::block::compile_block;
use inline_python::context::{Context, ContextState, FromInlinePython, PythonBlock};
use inline_python::error::PyVarError;
use inline_python::token::{LineColumn, Token};
use pyo3::types::PyAnyMethods;

fn at(line: usize, column: usize) -> LineColumn {
    LineColumn { line, column }
}

fn ident(text: &str, line: usize, column: usize) -> Token {
    Token::ident(text.to_string(), at(line, column), at(line, column + text.len()))
}

fn literal(text: &str, line: usize, column: usize) -> Token {
    Token::literal(text.to_string(), at(line, column), at(line, column + text.len()))
}

fn punct(ch: char, joint: bool, line: usize, column: usize) -> Token {
    Token::punct(ch, joint, at(line, column))
}

fn block(tokens: Vec<Token>) -> PythonBlock {
    let compiled = compile_block(&tokens, "shared_context.rs", true).unwrap();
    PythonBlock::new(compiled.bytecode)
}

// foo = 5
fn define_foo() -> PythonBlock {
    block(vec![ident("foo", 7, 8), punct('=', false, 7, 12), literal("5", 7, 14)])
}

// assert foo == 5
fn assert_foo() -> PythonBlock {
    block(vec![
        ident("assert", 10, 8),
        ident("foo", 10, 15),
        punct('=', true, 10, 19),
        punct('=', false, 10, 20),
        literal("5", 10, 22),
    ])
}

#[test]
fn shared_context_continue_context() {
    let mut c = Context::new().unwrap();
    c.run(&define_foo()).unwrap();
    c.run(&assert_foo()).unwrap();
}

#[test]
fn shared_context_extract_global() {
    let mut c = Context::new().unwrap();
    c.run(&define_foo()).unwrap();
    assert_eq!(c.get::<i32>("foo").unwrap(), 5);
}

#[test]
fn wrong_type() {
    let mut c = Context::new().unwrap();
    c.run(&define_foo()).unwrap();
    assert!(matches!(c.get::<String>("foo").unwrap_err(), PyVarError::WrongType(_)));
}

#[test]
fn not_found() {
    let mut c = Context::new().unwrap();
    c.run(&define_foo()).unwrap();
    assert!(matches!(c.get::<i32>("bar").unwrap_err(), PyVarError::NotFound(_, _)));
}

#[test]
fn fresh_context_does_not_see_other_contexts() {
    let mut first = Context::new().unwrap();
    first.run(&define_foo()).unwrap();
    let mut fresh = Context::new().unwrap();
    let err = fresh.run(&assert_foo()).unwrap_err();
    pyo3::Python::attach(|py| {
        assert!(err.is_instance_of::<pyo3::exceptions::PyNameError>(py));
    });
    assert_eq!(fresh.state(), ContextState::Fresh);
}

#[test]
fn set_run_get_round_trip() {
    let mut c = Context::new().unwrap();
    c.set("x", 13).unwrap();
    // y = x + 2
    c.run(&block(vec![
        ident("y", 3, 4),
        punct('=', false, 3, 6),
        ident("x", 3, 8),
        punct('+', false, 3, 10),
        literal("2", 3, 12),
    ]))
    .unwrap();
    assert_eq!(c.get::<i32>("y").unwrap(), 15);
    assert!(matches!(c.get::<i32>("nonexistent").unwrap_err(), PyVarError::NotFound(_, _)));
}

#[test]
fn context_moves_to_running_after_a_run() {
    let mut c = Context::new().unwrap();
    assert_eq!(c.state(), ContextState::Fresh);
    c.run(&define_foo()).unwrap();
    assert_eq!(c.state(), ContextState::Running);
}

#[test]
fn failed_run_keeps_earlier_changes() {
    let mut c = Context::new().unwrap();
    c.run(&define_foo()).unwrap();
    // foo = 6 ; then a name that does not exist
    let r = c.run(&block(vec![
        ident("foo", 2, 0),
        punct('=', false, 2, 4),
        literal("6", 2, 6),
        ident("missing_name", 3, 0),
    ]));
    assert!(r.is_err());
    assert_eq!(c.get::<i32>("foo").unwrap(), 6);
    assert_eq!(c.state(), ContextState::Running);
}

#[test]
fn interpolated_value_is_read_twice() {
    // z = 'n + 'n
    let tokens = vec![
        ident("z", 4, 4),
        punct('=', false, 4, 6),
        punct('\'', true, 4, 8),
        ident("n", 4, 9),
        punct('+', false, 4, 11),
        punct('\'', true, 4, 13),
        ident("n", 4, 14),
    ];
    let compiled = compile_block(&tokens, "shared_context.rs", true).unwrap();
    assert_eq!(compiled.bindings.len(), 1);
    assert_eq!(compiled.bindings[0].name, "n");
    assert_eq!(compiled.bindings[0].placeholder, "_RUST_n");
    let mut b = PythonBlock::new(compiled.bytecode);
    b.bind(&compiled.bindings[0].placeholder, 21).unwrap();
    let mut c = Context::new().unwrap();
    c.run(&b).unwrap();
    assert_eq!(c.get::<i32>("z").unwrap(), 42);
    pyo3::Python::attach(|py| {
        let rust = c.globals().bind(py).get_item("_RUST").unwrap();
        assert_eq!(rust.get_item("_RUST_n").unwrap().extract::<i32>().unwrap(), 21);
    });
}

#[test]
fn python_block_kept_for_later() {
    let b = <PythonBlock as FromInlinePython>::from_python_macro(define_foo()).unwrap();
    let c = <Context as FromInlinePython>::from_python_macro(b).unwrap();
    assert_eq!(c.get::<i32>("foo").unwrap(), 5);
    assert_eq!(c.state(), ContextState::Running);
    <() as FromInlinePython>::from_python_macro(assert_foo()).unwrap_err();
}

#[test]
fn var_error_messages() {
    let e = PyVarError::NotFound("bar".to_string(), "globals".to_string());
    assert_eq!(e.message(), "Python context does not contain a variable named `bar`");
    let e = PyVarError::WrongType("foo".to_string());
    assert_eq!(e.message(), "Unable to convert `foo` to the type asked for");
}

#[test]
fn wrapped_function_is_added_under_its_name() {
    let c = Context::new().unwrap();
    let floor = pyo3::Python::attach(|py| py.import("math").unwrap().getattr("floor").unwrap().unbind());
    c.add_wrapped(&floor).unwrap();
    let mut c = c;
    // w = floor(7 / 2)
    c.run(&block(vec![
        ident("w", 1, 0),
        punct('=', false, 1, 2),
        ident("floor", 1, 4),
        Token::group(
            inline_python::token::Delimiter::Parenthesis,
            vec![literal("7", 1, 10), punct('/', false, 1, 12), literal("2", 1, 14)],
            at(1, 9),
            at(1, 16),
        ),
    ]))
    .unwrap();
    assert_eq!(c.get::<i32>("w").unwrap(), 3);
}
