use inline_python::block::{compile_block, BlockError};
use inline_python::diagnostic::{compile_error_msg, span_for_line, ExceptionInfo, ForeignError, Location};
use inline_python::embed::{reconstruct, EmbedPython, IndentationError};
use inline_python::text::same_text;
use inline_python::token::{Delimiter, LineColumn, Token};

fn at(line: usize, column: usize) -> LineColumn {
    LineColumn { line, column }
}

fn ident(text: &str, line: usize, column: usize) -> Token {
    Token::ident(text.to_string(), at(line, column), at(line, column + text.chars().count()))
}

fn literal(text: &str, line: usize, column: usize) -> Token {
    Token::literal(text.to_string(), at(line, column), at(line, column + text.chars().count()))
}

fn punct(ch: char, joint: bool, line: usize, column: usize) -> Token {
    Token::punct(ch, joint, at(line, column))
}

fn source(tokens: &Vec<Token>) -> String {
    reconstruct(tokens, true).unwrap().source
}

#[test]
fn plain_tokens_keep_their_text_and_spacing() {
    // print(1, "a b")
    let tokens = vec![
        ident("print", 2, 4),
        Token::group(
            Delimiter::Parenthesis,
            vec![literal("1", 2, 10), punct(',', false, 2, 11), literal("\"a b\"", 2, 13)],
            at(2, 9),
            at(2, 19),
        ),
    ];
    assert_eq!(source(&tokens), "\nprint(1, \"a b\")");
}

#[test]
fn brackets_and_invisible_groups() {
    let tokens = vec![
        ident("x", 1, 0),
        punct('=', false, 1, 2),
        Token::group(Delimiter::Bracket, vec![literal("1", 1, 5)], at(1, 4), at(1, 7)),
        punct('+', false, 1, 8),
        Token::group(Delimiter::Invisible, vec![ident("y", 1, 10)], at(1, 10), at(1, 11)),
        punct('+', false, 1, 12),
        Token::group(Delimiter::Brace, vec![], at(1, 14), at(1, 16)),
    ];
    assert_eq!(source(&tokens), "x = [1] + y + {}");
}

#[test]
fn lines_are_indented_from_the_first_line() {
    // if a:
    //     b
    // c
    let tokens = vec![
        ident("if", 3, 8),
        ident("a", 3, 11),
        punct(':', false, 3, 12),
        ident("b", 4, 12),
        ident("c", 5, 8),
    ];
    assert_eq!(source(&tokens), "\n\nif a:\n    b\nc");
}

#[test]
fn dedent_below_the_first_line_is_an_error() {
    let tokens = vec![ident("a", 3, 8), ident("b", 4, 4)];
    let err = reconstruct(&tokens, true).unwrap_err();
    assert_eq!(err, IndentationError { line: 4, start: at(4, 4), end: at(4, 5) });
}

#[test]
fn dedent_error_is_reported_before_compiling() {
    let tokens = vec![ident("a", 3, 8), ident("b", 4, 4)];
    match compile_block(&tokens, "t.rs", true) {
        Err(BlockError::Indentation(e)) => assert_eq!(e.line, 4),
        _ => panic!("expected an indentation error"),
    }
}

#[test]
fn blank_lines_keep_line_numbers() {
    let tokens = vec![ident("a", 2, 0), ident("b", 5, 2)];
    assert_eq!(source(&tokens), "\na\n\n\n  b");
}

#[test]
fn interpolation_binds_each_name_once() {
    // print('x, 'x, 'y)
    let tokens = vec![
        ident("print", 1, 0),
        Token::group(
            Delimiter::Parenthesis,
            vec![
                punct('\'', true, 1, 6),
                ident("x", 1, 7),
                punct(',', false, 1, 8),
                punct('\'', true, 1, 10),
                ident("x", 1, 11),
                punct(',', false, 1, 12),
                punct('\'', true, 1, 14),
                ident("y", 1, 15),
            ],
            at(1, 5),
            at(1, 17),
        ),
    ];
    let r = reconstruct(&tokens, true).unwrap();
    assert_eq!(
        r.source,
        "print(_RUST.get(\"_RUST_x\"),_RUST.get(\"_RUST_x\"),_RUST.get(\"_RUST_y\"))"
    );
    assert_eq!(r.bindings.len(), 2);
    assert_eq!(r.bindings[0].name, "x");
    assert_eq!(r.bindings[0].placeholder, "_RUST_x");
    assert_eq!(r.bindings[1].name, "y");
    assert_eq!(r.bindings[1].placeholder, "_RUST_y");
}

#[test]
fn interpolation_off_keeps_the_quote() {
    let tokens = vec![punct('\'', true, 1, 0), ident("x", 1, 1)];
    let r = reconstruct(&tokens, false).unwrap();
    assert_eq!(r.source, "'x");
    assert!(r.bindings.is_empty());
}

#[test]
fn lone_quote_is_kept() {
    let tokens = vec![punct('\'', true, 1, 0), punct('!', false, 1, 1)];
    assert_eq!(source(&tokens), "'!");
}

#[test]
fn doubled_hash_becomes_floor_division() {
    // a ## b
    let tokens = vec![ident("a", 1, 0), punct('#', true, 1, 2), punct('#', false, 1, 3), ident("b", 1, 5)];
    assert_eq!(source(&tokens), "a // b");
}

#[test]
fn doubled_hash_assignment_operator() {
    // a ##= b
    let tokens = vec![
        ident("a", 1, 0),
        punct('#', true, 1, 2),
        punct('#', true, 1, 3),
        punct('=', false, 1, 4),
        ident("b", 1, 6),
    ];
    assert_eq!(source(&tokens), "a //= b");
}

#[test]
fn hash_before_other_punctuation_is_kept() {
    let tokens = vec![ident("a", 1, 0), punct('#', true, 1, 2), punct('!', false, 1, 3), ident("b", 1, 5)];
    assert_eq!(source(&tokens), "a #! b");
}

#[test]
fn prefixed_string_loses_the_separating_space() {
    // f "{x}"
    let tokens = vec![ident("f", 1, 0), literal("\"{x}\"", 1, 2)];
    assert_eq!(source(&tokens), "f\"{x}\"");
}

#[test]
fn string_after_a_digit_keeps_its_space() {
    let tokens = vec![literal("1", 1, 0), literal("\"s\"", 1, 2)];
    assert_eq!(source(&tokens), "1 \"s\"");
}

#[test]
fn embed_state_carries_between_adds() {
    let mut e = EmbedPython::new();
    e.add(&vec![ident("a", 2, 4)]).unwrap();
    e.add(&vec![ident("b", 3, 6)]).unwrap();
    assert_eq!(e.first_indent, Some(4));
    assert_eq!(e.line, 3);
    assert_eq!(e.column, 7);
    assert_eq!(e.python.iter().collect::<String>(), "\na\n  b");
}

fn line_tokens() -> Vec<Token> {
    vec![
        ident("a", 1, 0),
        ident("b", 2, 0),
        punct('=', false, 2, 2),
        literal("1", 2, 4),
        ident("c", 3, 0),
    ]
}

#[test]
fn span_for_line_covers_the_whole_line() {
    assert_eq!(span_for_line(&line_tokens(), 2), Some((at(2, 0), at(2, 5))));
    assert_eq!(span_for_line(&line_tokens(), 3), Some((at(3, 0), at(3, 1))));
    assert_eq!(span_for_line(&line_tokens(), 9), None);
    assert_eq!(span_for_line(&vec![], 1), None);
}

#[test]
fn syntax_error_points_at_its_line() {
    let err = ForeignError::Syntax { message: "invalid syntax".to_string(), file: "t.rs".to_string(), line: 2, column: 3 };
    let d = compile_error_msg(&err, &line_tokens(), "t.rs");
    assert_eq!(d.message, "invalid syntax");
    assert_eq!(d.location, Location::Span { start: at(2, 0), end: at(2, 5) });
}

#[test]
fn syntax_error_without_tokens_names_file_line_and_column() {
    let err = ForeignError::Syntax { message: "bad".to_string(), file: "t.rs".to_string(), line: 17, column: 250 };
    let d = compile_error_msg(&err, &line_tokens(), "t.rs");
    assert_eq!(d.message, "`bad` at `t.rs:17:250`");
    assert_eq!(d.location, Location::CallSite);
}

#[test]
fn traceback_in_the_block_points_at_its_line() {
    let err = ForeignError::Traceback { file: "t.rs".to_string(), line: 3, text: "boom".to_string() };
    let d = compile_error_msg(&err, &line_tokens(), "t.rs");
    assert_eq!(d.message, "boom");
    assert_eq!(d.location, Location::Span { start: at(3, 0), end: at(3, 1) });
}

#[test]
fn traceback_elsewhere_points_at_the_call_site() {
    let err = ForeignError::Traceback { file: "other.py".to_string(), line: 3, text: "boom".to_string() };
    let d = compile_error_msg(&err, &line_tokens(), "t.rs");
    assert_eq!(d.message, "boom");
    assert_eq!(d.location, Location::CallSite);
}

#[test]
fn error_without_payload_gives_its_kind() {
    let err = ForeignError::NoPayload { kind: "KeyboardInterrupt".to_string() };
    let d = compile_error_msg(&err, &line_tokens(), "t.rs");
    assert_eq!(d.message, "KeyboardInterrupt");
    assert_eq!(d.location, Location::CallSite);
}

#[test]
fn generic_error_gives_its_text() {
    let err = ForeignError::Generic { text: "oops".to_string() };
    let d = compile_error_msg(&err, &line_tokens(), "t.rs");
    assert_eq!(d.message, "oops");
    assert_eq!(d.location, Location::CallSite);
}

fn info() -> ExceptionInfo {
    ExceptionInfo {
        kind: "SyntaxError".to_string(),
        has_value: true,
        is_syntax: true,
        msg: Some("invalid syntax".to_string()),
        line: Some(4),
        column: None,
        file: None,
        frame: Some(("t.rs".to_string(), 9)),
        text: "text".to_string(),
    }
}

#[test]
fn exception_info_is_classified() {
    match ForeignError::from_info(info()) {
        ForeignError::Syntax { message, file, line, column } => {
            assert_eq!((message.as_str(), file.as_str(), line, column), ("invalid syntax", "", 4, 0));
        }
        other => panic!("unexpected {:?}", other),
    }
    let mut i = info();
    i.line = None;
    assert!(matches!(ForeignError::from_info(i), ForeignError::Traceback { line: 9, .. }));
    let mut i = info();
    i.is_syntax = false;
    i.frame = None;
    assert!(matches!(ForeignError::from_info(i), ForeignError::Generic { .. }));
    let mut i = info();
    i.has_value = false;
    assert!(matches!(ForeignError::from_info(i), ForeignError::NoPayload { .. }));
}

#[test]
fn python_syntax_error_is_a_compile_error() {
    // a = = 1
    let tokens = vec![ident("a", 1, 0), punct('=', false, 1, 2), punct('=', false, 1, 4), literal("1", 1, 6)];
    assert!(matches!(compile_block(&tokens, "t.rs", true), Err(BlockError::Compile(_))));
}

#[test]
fn assigning_to_an_interpolated_name_does_not_compile() {
    // 'x = 42
    let tokens = vec![punct('\'', true, 1, 0), ident("x", 1, 1), punct('=', false, 1, 3), literal("42", 1, 5)];
    assert!(matches!(compile_block(&tokens, "t.rs", true), Err(BlockError::Compile(_))));
}

#[test]
fn same_text_compares_characters() {
    assert!(same_text("abc", "abc"));
    assert!(!same_text("abc", "abd"));
    assert!(!same_text("ab", "abc"));
}
