use vstd::prelude::*;
use crate::text::{push_str_chars, same_text, string_of};
use crate::token::{LineColumn, Token};

verus! {

/// A Python error, as far as a diagnostic needs it.
#[derive(Debug)]
pub enum ForeignError {
    /// An error with nothing to inspect but the name of its kind.
    NoPayload { kind: String },
    /// A syntax error, with the line and column Python gave.
    Syntax { message: String, file: String, line: usize, column: usize },
    /// An error raised while running, with the innermost frame's file and line.
    Traceback { file: String, line: usize, text: String },
    /// Any other error, as text.
    Generic { text: String },
}

/// What was read from a Python exception.
#[derive(Debug)]
pub struct ExceptionInfo {
    /// The name of the exception's type.
    pub kind: String,
    /// Whether the exception carries a value to inspect.
    pub has_value: bool,
    /// Whether it is a `SyntaxError`.
    pub is_syntax: bool,
    /// The `msg`, `lineno`, `offset` and `filename` of a syntax error.
    pub msg: Option<String>,
    pub line: Option<usize>,
    pub column: Option<usize>,
    pub file: Option<String>,
    /// The file and line of the innermost frame of its traceback.
    pub frame: Option<(String, usize)>,
    /// The exception as text.
    pub text: String,
}

impl ForeignError {
    /// The error an exception stands for: without a value, only its kind; a
    /// syntax error with a message and a line; one with a traceback; any other.
    pub fn from_info(info: ExceptionInfo) -> (r: ForeignError)
        ensures
            !info.has_value ==> r == (ForeignError::NoPayload { kind: info.kind }),
            info.has_value && info.is_syntax && info.msg is Some && info.line is Some ==> (r matches ForeignError::Syntax { message, file, line, column }
                && message == info.msg.unwrap() && line == info.line.unwrap()
                && file@ == (match info.file { Some(f) => f@, None => Seq::<char>::empty() })
                && column == (match info.column { Some(c) => c, None => 0 })),
            info.has_value && !(info.is_syntax && info.msg is Some && info.line is Some) && info.frame is Some
                ==> r == (ForeignError::Traceback { file: info.frame.unwrap().0, line: info.frame.unwrap().1, text: info.text }),
            info.has_value && !(info.is_syntax && info.msg is Some && info.line is Some) && info.frame is None
                ==> r == (ForeignError::Generic { text: info.text }),
    {
        if !info.has_value {
            return ForeignError::NoPayload { kind: info.kind };
        }
        if info.is_syntax {
            if let (Some(message), Some(line)) = (info.msg, info.line) {
                let file = match info.file {
                    Some(f) => f,
                    None => String::new(),
                };
                let column = match info.column {
                    Some(c) => c,
                    None => 0,
                };
                return ForeignError::Syntax { message, file, line, column };
            }
        }
        match info.frame {
            Some((file, line)) => ForeignError::Traceback { file, line, text: info.text },
            None => ForeignError::Generic { text: info.text },
        }
    }
}

/// Where a diagnostic points.
#[derive(Clone, Copy, Debug, PartialEq, Eq, Structural)]
pub enum Location {
    /// The host tokens from `start` to `end`.
    Span { start: LineColumn, end: LineColumn },
    /// The place the block is used.
    CallSite,
}

/// An error message for the host build, and where it points.
#[derive(Debug)]
pub struct Diagnostic {
    pub message: String,
    pub location: Location,
}

/// The index of the first of `toks[i..]` that starts on `line` or later.
pub open spec fn first_on_or_after(toks: Seq<Token>, line: usize, i: int) -> int
    decreases toks.len() - i,
{
    if i < 0 || i >= toks.len() || toks[i].start.line >= line {
        i
    } else {
        first_on_or_after(toks, line, i + 1)
    }
}

/// The end of the run of tokens from `i` on that start on `line`.
pub open spec fn run_end(toks: Seq<Token>, line: usize, i: int) -> int
    decreases toks.len() - i,
{
    if i < 0 || i >= toks.len() || toks[i].start.line != line {
        i
    } else {
        run_end(toks, line, i + 1)
    }
}

/// The span from the first to the last of the host tokens that start on
/// `line`, found by skipping those before it; none if no token starts there.
pub open spec fn line_span(toks: Seq<Token>, line: usize) -> Option<(LineColumn, LineColumn)> {
    let a = first_on_or_after(toks, line, 0);
    let b = run_end(toks, line, a);
    if a < b {
        Some((toks[a].start, toks[b - 1].end))
    } else {
        None
    }
}

proof fn lemma_scan_bounds(toks: Seq<Token>, line: usize, i: int)
    requires
        0 <= i <= toks.len(),
    ensures
        i <= first_on_or_after(toks, line, i) <= toks.len(),
        i <= run_end(toks, line, i) <= toks.len(),
    decreases toks.len() - i,
{
    if i < toks.len() {
        lemma_scan_bounds(toks, line, i + 1);
    }
}

/// The span of the host tokens that start on `line`.
pub fn span_for_line(tokens: &Vec<Token>, line: usize) -> (r: Option<(LineColumn, LineColumn)>)
    ensures
        r == line_span(tokens@, line),
{
    let mut a: usize = 0;
    while a < tokens.len() && tokens[a].start.line < line
        invariant
            a <= tokens.len(),
            first_on_or_after(tokens@, line, 0) == first_on_or_after(tokens@, line, a as int),
        decreases tokens.len() - a,
    {
        a += 1;
    }
    let mut b: usize = a;
    while b < tokens.len() && tokens[b].start.line == line
        invariant
            a <= b <= tokens.len(),
            run_end(tokens@, line, a as int) == run_end(tokens@, line, b as int),
        decreases tokens.len() - b,
    {
        b += 1;
    }
    if a < b {
        Some((tokens[a].start, tokens[b - 1].end))
    } else {
        None
    }
}

pub open spec fn digit(d: nat) -> char {
    if d < 10 { ('0' as u8 + d) as char } else { '?' }
}

/// The decimal digits of `n`.
pub open spec fn decimal(n: nat) -> Seq<char>
    decreases n,
{
    if n < 10 {
        seq![digit(n)]
    } else {
        decimal(n / 10).push(digit(n % 10))
    }
}

fn push_decimal(out: &mut Vec<char>, n: usize)
    ensures
        final(out)@ == old(out)@ + decimal(n as nat),
    decreases n,
{
    if n >= 10 {
        push_decimal(out, n / 10);
    }
    let d = (n % 10) as u8;
    out.push((48u8 + d) as char);
    assert(final(out)@ =~= old(out)@ + decimal(n as nat));
}

/// The message for a syntax error that no host token can be found for.
pub open spec fn located_message(message: Seq<char>, file: Seq<char>, line: usize, column: usize) -> Seq<char> {
    seq!['`'] + message + seq!['`', ' ', 'a', 't', ' ', '`'] + file + seq![':'] + decimal(line as nat)
        + seq![':'] + decimal(column as nat) + seq!['`']
}

/// The message and location of the diagnostic for `err`, raised by the
/// block made of `toks` and compiled under the name `filename`.
pub open spec fn diagnostic_of(err: ForeignError, toks: Seq<Token>, filename: Seq<char>) -> (Seq<char>, Location) {
    match err {
        ForeignError::NoPayload { kind } => (kind@, Location::CallSite),
        ForeignError::Syntax { message, file, line, column } => match line_span(toks, line) {
            Some((s, e)) => (message@, Location::Span { start: s, end: e }),
            None => (located_message(message@, file@, line, column), Location::CallSite),
        },
        ForeignError::Traceback { file, line, text } => {
            if file@ == filename {
                match line_span(toks, line) {
                    Some((s, e)) => (text@, Location::Span { start: s, end: e }),
                    None => (text@, Location::CallSite),
                }
            } else {
                (text@, Location::CallSite)
            }
        },
        ForeignError::Generic { text } => (text@, Location::CallSite),
    }
}

fn copy_string(s: &String) -> (r: String)
    ensures
        r@ == s@,
{
    s.clone()
}

/// The diagnostic for a Python error raised by the block made of `tokens`,
/// compiled under the name `filename`.
pub fn compile_error_msg(err: &ForeignError, tokens: &Vec<Token>, filename: &str) -> (r: Diagnostic)
    ensures
        (r.message@, r.location) == diagnostic_of(*err, tokens@, filename@),
{
    match err {
        ForeignError::NoPayload { kind } => Diagnostic { message: copy_string(kind), location: Location::CallSite },
        ForeignError::Syntax { message, file, line, column } => match span_for_line(tokens, *line) {
            Some((s, e)) => Diagnostic { message: copy_string(message), location: Location::Span { start: s, end: e } },
            None => {
                let mut m: Vec<char> = vec!['`'];
                push_str_chars(&mut m, message.as_str());
                let sep: Vec<char> = vec!['`', ' ', 'a', 't', ' ', '`'];
                let mut k: usize = 0;
                while k < sep.len()
                    invariant
                        k <= sep.len(),
                        sep@ == seq!['`', ' ', 'a', 't', ' ', '`'],
                        m@ == seq!['`'] + message@ + sep@.take(k as int),
                    decreases sep.len() - k,
                {
                    m.push(sep[k]);
                    k += 1;
                    assert(m@ =~= seq!['`'] + message@ + sep@.take(k as int));
                }
                assert(sep@.take(sep.len() as int) =~= sep@);
                push_str_chars(&mut m, file.as_str());
                m.push(':');
                push_decimal(&mut m, *line);
                m.push(':');
                push_decimal(&mut m, *column);
                m.push('`');
                assert(m@ =~= located_message(message@, file@, *line, *column));
                Diagnostic { message: string_of(&m), location: Location::CallSite }
            },
        },
        ForeignError::Traceback { file, line, text } => {
            if same_text(file.as_str(), filename) {
                match span_for_line(tokens, *line) {
                    Some((s, e)) => Diagnostic { message: copy_string(text), location: Location::Span { start: s, end: e } },
                    None => Diagnostic { message: copy_string(text), location: Location::CallSite },
                }
            } else {
                Diagnostic { message: copy_string(text), location: Location::CallSite }
            }
        },
        ForeignError::Generic { text } => Diagnostic { message: copy_string(text), location: Location::CallSite },
    }
}

} // verus!
