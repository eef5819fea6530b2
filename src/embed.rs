use vstd::prelude::*;
use crate::text::{push_str_chars, string_of};
use crate::token::{close_text, open_text, Delimiter, LineColumn, Token, TokenTree};

verus! {

broadcast use vstd::std_specs::vec::group_vec_axioms, vstd::seq::group_seq_axioms;

/// The Python text would need a negative indent on `line`: a line that starts
/// left of the first line of the block.
#[derive(Clone, Copy, Debug, PartialEq, Eq, Structural)]
pub struct IndentationError {
    pub line: usize,
    /// The span of the host token that was being placed.
    pub start: LineColumn,
    pub end: LineColumn,
}

/// A host variable used in the block, and the name it is known by in Python.
#[derive(Debug)]
pub struct Binding {
    pub name: String,
    pub placeholder: String,
}

/// The state of a reconstruction, as mathematical values.
pub struct Walk {
    pub out: Seq<char>,
    /// The interpolated host identifiers, in order of first use.
    pub names: Seq<Seq<char>>,
    pub first_indent: Option<usize>,
    pub line: usize,
    pub column: usize,
}

pub open spec fn sat_add(a: usize, n: int) -> usize {
    if a + n > usize::MAX { usize::MAX } else { (a + n) as usize }
}

pub open spec fn sat_sub(a: usize, n: int) -> usize {
    if a - n < 0 { 0 } else { (a - n) as usize }
}

pub open spec fn repeat(c: char, n: int) -> Seq<char> {
    Seq::new(n as nat, |_i: int| c)
}

/// The name a host identifier is known by in Python.
pub open spec fn placeholder_of(name: Seq<char>) -> Seq<char> {
    seq!['_', 'R', 'U', 'S', 'T', '_'] + name
}

/// The Python expression that stands for an interpolated host identifier: a
/// call, so that Python refuses to assign to it.
pub open spec fn interpolation_text(name: Seq<char>) -> Seq<char> {
    seq!['_', 'R', 'U', 'S', 'T', '.', 'g', 'e', 't', '(', '"'] + placeholder_of(name) + seq!['"', ')']
}

pub open spec fn is_ascii_alpha(c: char) -> bool {
    ('a' <= c && c <= 'z') || ('A' <= c && c <= 'Z')
}

/// A string literal directly after `<letter> ` takes back that space (`f "{x}"`).
pub open spec fn retracts(out: Seq<char>, text: Seq<char>) -> bool {
    &&& text.len() > 0
    &&& text[0] == '"'
    &&& out.len() >= 2
    &&& out.last() == ' '
    &&& is_ascii_alpha(out[out.len() - 2])
}

pub open spec fn add_name(names: Seq<Seq<char>>, name: Seq<char>) -> Seq<Seq<char>> {
    if names.contains(name) { names } else { names.push(name) }
}

/// Moves the cursor to `pos`, emitting newlines and spaces; the first line
/// change fixes the indentation baseline.
pub open spec fn reconcile(s: Walk, pos: LineColumn, start: LineColumn, end: LineColumn) -> Result<Walk, IndentationError> {
    if pos.line > s.line {
        let base = match s.first_indent {
            Some(f) => f,
            None => pos.column,
        };
        if pos.column < base {
            Err(IndentationError { line: pos.line, start, end })
        } else {
            Ok(Walk {
                out: s.out + repeat('\n', pos.line - s.line) + repeat(' ', pos.column - base),
                first_indent: Some(base),
                line: pos.line,
                column: pos.column,
                ..s
            })
        }
    } else if pos.line == s.line && pos.column > s.column {
        Ok(Walk { out: s.out + repeat(' ', pos.column - s.column), column: pos.column, ..s })
    } else {
        Ok(s)
    }
}

pub open spec fn ident_text(t: TokenTree) -> Option<Seq<char>> {
    match t {
        TokenTree::Ident { text } => Some(text@),
        _ => None,
    }
}

pub open spec fn punct_char(t: TokenTree) -> Option<char> {
    match t {
        TokenTree::Punct { ch, .. } => Some(ch),
        _ => None,
    }
}

/// Emits `text` and advances the cursor by its width.
pub open spec fn emit(s: Walk, text: Seq<char>) -> Walk {
    Walk { out: s.out + text, column: sat_add(s.column, text.len() as int), ..s }
}

/// Emits a host identifier or literal and moves the cursor to its end.
pub open spec fn emit_word(s: Walk, text: Seq<char>, end: LineColumn) -> Walk {
    Walk { out: s.out + text, line: end.line, column: end.column, ..s }
}

/// The effect of the punctuation `toks[i]`, with the token after it where
/// the two form an escape, and how many tokens were used.
pub open spec fn punct_step(s: Walk, toks: Seq<Token>, i: int, interp: bool) -> (Walk, int) {
    let ch = punct_char(toks[i].tree).unwrap();
    let joint = toks[i].tree->joint;
    if interp && ch == '\'' && joint && i + 1 < toks.len() && ident_text(toks[i + 1].tree) is Some {
        let name = ident_text(toks[i + 1].tree).unwrap();
        let s2 = emit(s, interpolation_text(name));
        (Walk { names: add_name(s2.names, name), ..s2 }, 2)
    } else if ch == '#' && joint && i + 1 < toks.len() && punct_char(toks[i + 1].tree) is Some {
        let next = punct_char(toks[i + 1].tree).unwrap();
        let pair = if next == '#' { seq!['/', '/'] } else { seq![ch, next] };
        (emit(s, pair), 2)
    } else {
        (emit(s, seq![ch]), 1)
    }
}

/// The reconstruction of the tokens `toks[i..]`, from state `s`.
pub open spec fn walk(s: Walk, toks: Seq<Token>, i: int, interp: bool) -> Result<Walk, IndentationError>
    decreases toks, toks.len() - i,
{
    if i < 0 || i >= toks.len() {
        Ok(s)
    } else {
        let t = toks[i];
        match reconcile(s, t.start, t.start, t.end) {
            Err(e) => Err(e),
            Ok(s1) => match t.tree {
                TokenTree::Group { delimiter, stream } => {
                    let close = close_text(delimiter);
                    match walk(emit(s1, open_text(delimiter)), stream@, 0, interp) {
                        Err(e) => Err(e),
                        Ok(s2) => {
                            let pos = LineColumn { line: t.end.line, column: sat_sub(t.end.column, close.len() as int) };
                            match reconcile(s2, pos, t.start, t.end) {
                                Err(e) => Err(e),
                                Ok(s3) => walk(emit(s3, close), toks, i + 1, interp),
                            }
                        }
                    }
                }
                TokenTree::Punct { .. } => {
                    let (s2, k) = punct_step(s1, toks, i, interp);
                    walk(s2, toks, i + k, interp)
                }
                TokenTree::Ident { text } => walk(emit_word(s1, text@, t.end), toks, i + 1, interp),
                TokenTree::Literal { text } => {
                    let out = if retracts(s1.out, text@) { s1.out.drop_last() } else { s1.out };
                    walk(emit_word(Walk { out, ..s1 }, text@, t.end), toks, i + 1, interp)
                }
            },
        }
    }
}

/// Rebuilds Python source text from host tokens.
pub struct EmbedPython {
    pub python: Vec<char>,
    pub variables: Vec<Binding>,
    pub first_indent: Option<usize>,
    pub line: usize,
    pub column: usize,
    /// Set for code run while the host compiles: no host variables exist then.
    pub compile_time: bool,
}

pub open spec fn binding_names(b: Seq<Binding>) -> Seq<Seq<char>> {
    b.map_values(|x: Binding| x.name@)
}

impl EmbedPython {
    pub open spec fn state(&self) -> Walk {
        Walk {
            out: self.python@,
            names: binding_names(self.variables@),
            first_indent: self.first_indent,
            line: self.line,
            column: self.column,
        }
    }

    /// Each binding's placeholder is derived from its name.
    pub open spec fn wf(&self) -> bool {
        forall|k: int| 0 <= k < self.variables.len()
            ==> #[trigger] self.variables@[k].placeholder@ == placeholder_of(self.variables@[k].name@)
    }

    pub fn new() -> (r: Self)
        ensures
            r.wf(),
            r.state() == (Walk { out: Seq::empty(), names: Seq::empty(), first_indent: None, line: 1, column: 0 }),
            !r.compile_time,
    {
        let r = EmbedPython {
            python: Vec::new(),
            variables: Vec::new(),
            first_indent: None,
            line: 1,
            column: 0,
            compile_time: false,
        };
        assert(binding_names(r.variables@) == Seq::<Seq<char>>::empty());
        r
    }

    fn push_repeat(&mut self, c: char, n: usize)
        ensures
            final(self).python@ == old(self).python@ + repeat(c, n as int),
            final(self).variables == old(self).variables,
            final(self).first_indent == old(self).first_indent,
            final(self).line == old(self).line,
            final(self).column == old(self).column,
            final(self).compile_time == old(self).compile_time,
    {
        let mut k: usize = 0;
        while k < n
            invariant
                k <= n,
                self.python@ == old(self).python@ + repeat(c, k as int),
                self.variables == old(self).variables,
                self.first_indent == old(self).first_indent,
                self.line == old(self).line,
                self.column == old(self).column,
                self.compile_time == old(self).compile_time,
            decreases n - k,
        {
            self.python.push(c);
            k += 1;
            assert(self.python@ =~= old(self).python@ + repeat(c, k as int));
        }
    }

    /// Appends `text` and advances the cursor by its width.
    fn emit(&mut self, text: &Vec<char>)
        ensures
            final(self).state() == emit(old(self).state(), text@),
            final(self).variables == old(self).variables,
            final(self).compile_time == old(self).compile_time,
    {
        let mut k: usize = 0;
        while k < text.len()
            invariant
                k <= text.len(),
                self.python@ == old(self).python@ + text@.take(k as int),
                self.variables == old(self).variables,
                self.first_indent == old(self).first_indent,
                self.line == old(self).line,
                self.column == old(self).column,
                self.compile_time == old(self).compile_time,
            decreases text.len() - k,
        {
            self.python.push(text[k]);
            k += 1;
            assert(self.python@ =~= old(self).python@ + text@.take(k as int));
        }
        assert(text@.take(text.len() as int) =~= text@);
        self.column = self.column.saturating_add(text.len());
    }

    /// Appends a host word and moves the cursor to its end.
    fn emit_word(&mut self, text: &String, end: LineColumn)
        ensures
            final(self).state() == emit_word(old(self).state(), text@, end),
            final(self).variables == old(self).variables,
            final(self).compile_time == old(self).compile_time,
    {
        push_str_chars(&mut self.python, text.as_str());
        self.line = end.line;
        self.column = end.column;
    }

    /// Records `name` as a binding unless it is one already.
    fn note_binding(&mut self, name: &String)
        requires
            old(self).wf(),
        ensures
            final(self).wf(),
            final(self).state() == (Walk { names: add_name(old(self).state().names, name@), ..old(self).state() }),
            final(self).compile_time == old(self).compile_time,
    {
        let ghost names = binding_names(self.variables@);
        let mut k: usize = 0;
        while k < self.variables.len()
            invariant
                k <= self.variables.len(),
                names == binding_names(self.variables@),
                self.wf(),
                self.state() == old(self).state(),
                self.compile_time == old(self).compile_time,
                forall|j: int| 0 <= j < k ==> names[j] != name@,
            decreases self.variables.len() - k,
        {
            if self.variables[k].name == *name {
                assert(names.contains(name@)) by {
                    assert(names[k as int] == name@);
                }
                return;
            }
            k += 1;
        }
        assert(!names.contains(name@));
        let mut placeholder: Vec<char> = vec!['_', 'R', 'U', 'S', 'T', '_'];
        push_str_chars(&mut placeholder, name.as_str());
        let binding = Binding { name: name.clone(), placeholder: string_of(&placeholder) };
        self.variables.push(binding);
        assert(binding_names(self.variables@) =~= names.push(name@));
    }

    /// Appends the Python text of `tokens`, with the cursor, baseline and
    /// bindings carried on from earlier calls.
    pub fn add(&mut self, tokens: &Vec<Token>) -> (r: Result<(), IndentationError>)
        requires
            old(self).wf(),
        ensures
            final(self).wf(),
            final(self).compile_time == old(self).compile_time,
            match walk(old(self).state(), tokens@, 0, !old(self).compile_time) {
                Ok(w) => r is Ok && final(self).state() == w,
                Err(e) => r == Err::<(), IndentationError>(e),
            },
        decreases tokens,
    {
        let ghost interp = !self.compile_time;
        let mut i: usize = 0;
        while i < tokens.len()
            invariant
                0 <= i <= tokens.len(),
                self.wf(),
                self.compile_time == old(self).compile_time,
                interp == !self.compile_time,
                walk(old(self).state(), tokens@, 0, interp) == walk(self.state(), tokens@, i as int, interp),
            decreases tokens.len() - i,
        {
            let token = &tokens[i];
            let r = self.add_whitespace(token.start, token.start, token.end);
            if let Err(e) = r {
                return Err(e);
            }
            match &token.tree {
                TokenTree::Group { delimiter, stream } => {
                    let (open, close) = delimiter.brackets();
                    self.emit(&open);
                    assert(decreases_to!(tokens => stream)) by {
                        assert(decreases_to!(tokens => tokens[i as int]));
                    }
                    let r = self.add(stream);
                    if let Err(e) = r {
                        return Err(e);
                    }
                    let pos = LineColumn { line: token.end.line, column: token.end.column.saturating_sub(close.len()) };
                    let r = self.add_whitespace(pos, token.start, token.end);
                    if let Err(e) = r {
                        return Err(e);
                    }
                    self.emit(&close);
                    i += 1;
                }
                TokenTree::Punct { .. } => {
                    i = self.add_punct(tokens, i);
                }
                TokenTree::Ident { text } => {
                    self.emit_word(text, token.end);
                    i += 1;
                }
                TokenTree::Literal { text } => {
                    if self.retracts_before(text) {
                        self.python.pop();
                    }
                    self.emit_word(text, token.end);
                    i += 1;
                }
            }
        }
        Ok(())
    }

    /// Handles the punctuation `tokens[i]` and returns the index after what it used.
    fn add_punct(&mut self, tokens: &Vec<Token>, i: usize) -> (r: usize)
        requires
            old(self).wf(),
            i < tokens.len(),
            tokens@[i as int].tree is Punct,
        ensures
            final(self).wf(),
            final(self).compile_time == old(self).compile_time,
            (final(self).state(), r - i) == punct_step(old(self).state(), tokens@, i as int, !old(self).compile_time),
            i < r <= tokens.len(),
    {
        let (ch, joint) = match &tokens[i].tree {
            TokenTree::Punct { ch, joint } => (*ch, *joint),
            _ => (' ', false),
        };
        let next_ident: Option<&String> = if i + 1 < tokens.len() {
            match &tokens[i + 1].tree {
                TokenTree::Ident { text } => Some(text),
                _ => None,
            }
        } else {
            None
        };
        let next_punct: Option<char> = if i + 1 < tokens.len() {
            match &tokens[i + 1].tree {
                TokenTree::Punct { ch, .. } => Some(*ch),
                _ => None,
            }
        } else {
            None
        };
        if !self.compile_time && ch == '\'' && joint && next_ident.is_some() {
            let name = next_ident.unwrap();
            let mut text: Vec<char> = vec!['_', 'R', 'U', 'S', 'T', '.', 'g', 'e', 't', '(', '"', '_', 'R', 'U', 'S', 'T', '_'];
            push_str_chars(&mut text, name.as_str());
            text.push('"');
            text.push(')');
            assert(text@ =~= interpolation_text(name@));
            self.emit(&text);
            self.note_binding(name);
            i + 2
        } else if ch == '#' && joint && next_punct.is_some() {
            let next = next_punct.unwrap();
            let pair = if next == '#' { vec!['/', '/'] } else { vec![ch, next] };
            assert(pair@ =~= (if next == '#' { seq!['/', '/'] } else { seq![ch, next] }));
            self.emit(&pair);
            i + 2
        } else {
            let single = vec![ch];
            assert(single@ =~= seq![ch]);
            self.emit(&single);
            i + 1
        }
    }

    /// Whether the literal `text` takes back the space before it.
    fn retracts_before(&self, text: &String) -> (r: bool)
        ensures
            r == retracts(self.python@, text@),
    {
        let n = self.python.len();
        if n < 2 || self.python[n - 1] != ' ' {
            return false;
        }
        let c = self.python[n - 2];
        if !(('a' <= c && c <= 'z') || ('A' <= c && c <= 'Z')) {
            return false;
        }
        let s = text.as_str();
        let mut first: Option<char> = None;
        for c in it: s.chars()
            invariant
                it.seq() == s@,
                first == (if it.index() > 0 { Some(s@[0]) } else { None::<char> }),
        {
            if first.is_none() {
                first = Some(c);
            }
        }
        match first {
            Some(f) => f == '"',
            None => false,
        }
    }

    /// Moves the cursor to `pos`; `start` and `end` give the span that an error names.
    fn add_whitespace(&mut self, pos: LineColumn, start: LineColumn, end: LineColumn) -> (r: Result<(), IndentationError>)
        ensures
            final(self).variables == old(self).variables,
            final(self).compile_time == old(self).compile_time,
            match reconcile(old(self).state(), pos, start, end) {
                Ok(w) => r is Ok && final(self).state() == w,
                Err(e) => r == Err::<(), IndentationError>(e),
            },
    {
        if pos.line > self.line {
            let base = match self.first_indent {
                Some(f) => f,
                None => pos.column,
            };
            if pos.column < base {
                return Err(IndentationError { line: pos.line, start, end });
            }
            let lines = pos.line - self.line;
            self.push_repeat('\n', lines);
            self.push_repeat(' ', pos.column - base);
            self.first_indent = Some(base);
            self.line = pos.line;
            self.column = pos.column;
            assert(self.python@ =~= old(self).python@ + repeat('\n', lines as int) + repeat(' ', pos.column - base));
        } else if pos.line == self.line && pos.column > self.column {
            self.push_repeat(' ', pos.column - self.column);
            self.column = pos.column;
        }
        Ok(())
    }
}

/// The state a reconstruction starts from: line 1, column 0, nothing emitted.
pub open spec fn start_state() -> Walk {
    Walk { out: Seq::empty(), names: Seq::empty(), first_indent: None, line: 1, column: 0 }
}

/// Python source rebuilt from host tokens, and the host variables it uses.
#[derive(Debug)]
pub struct Reconstruction {
    pub source: String,
    /// In order of first use, each name once.
    pub bindings: Vec<Binding>,
}

/// Rebuilds the Python source of a block; `interpolate` enables `'name`
/// references to host variables.
pub fn reconstruct(tokens: &Vec<Token>, interpolate: bool) -> (r: Result<Reconstruction, IndentationError>)
    ensures
        match walk(start_state(), tokens@, 0, interpolate) {
            Ok(w) => r matches Ok(x) && x.source@ == w.out && binding_names(x.bindings@) == w.names
                && forall|k: int| 0 <= k < x.bindings.len()
                    ==> #[trigger] x.bindings@[k].placeholder@ == placeholder_of(x.bindings@[k].name@),
            Err(e) => r == Err::<Reconstruction, IndentationError>(e),
        },
{
    let mut x = EmbedPython::new();
    x.compile_time = !interpolate;
    assert(x.state() == start_state());
    match x.add(tokens) {
        Err(e) => Err(e),
        Ok(()) => {
            let source = string_of(&x.python);
            Ok(Reconstruction { source, bindings: x.variables })
        },
    }
}

} // verus!
