use vstd::prelude::*;
use crate::embed::{
    add_name, emit, emit_word, punct_step, reconcile, start_state, walk, IndentationError, Walk,
};
use crate::embed::{repeat, retracts, sat_sub};
use crate::token::{close_text, open_text, LineColumn, Token, TokenTree};

verus! {

broadcast use vstd::std_specs::vec::group_vec_axioms, vstd::seq::group_seq_axioms;

proof fn lemma_add_name_distinct(names: Seq<Seq<char>>, name: Seq<char>)
    requires
        names.no_duplicates(),
    ensures
        add_name(names, name).no_duplicates(),
        names.is_prefix_of(add_name(names, name)),
        add_name(names, name).contains(name),
{
    if !names.contains(name) {
        let n = names.push(name);
        assert(n[names.len() as int] == name);
        assert forall|a: int, b: int| 0 <= a < n.len() && 0 <= b < n.len() && a != b implies n[a] != n[b] by {
            if a == names.len() {
                assert(n[b] == names[b]);
            } else if b == names.len() {
                assert(n[a] == names[a]);
            }
        }
    }
}

/// A block lists each host variable it uses once, however often it refers to
/// it: every successful reconstruction keeps the names distinct, and keeps
/// those found before it in their order.
pub proof fn lemma_bindings_distinct(s: Walk, toks: Seq<Token>, i: int, interp: bool)
    requires
        s.names.no_duplicates(),
    ensures
        walk(s, toks, i, interp) matches Ok(w) ==> w.names.no_duplicates() && s.names.is_prefix_of(w.names),
    decreases toks, toks.len() - i,
{
    if 0 <= i < toks.len() {
        let t = toks[i];
        if let Ok(s1) = reconcile(s, t.start, t.start, t.end) {
            assert(s1.names == s.names);
            match t.tree {
                TokenTree::Group { delimiter, stream } => {
                    assert(decreases_to!(toks => stream@)) by {
                        assert(decreases_to!(toks => toks[i]));
                    }
                    lemma_bindings_distinct(emit(s1, crate::token::open_text(delimiter)), stream@, 0, interp);
                    if let Ok(s2) = walk(emit(s1, crate::token::open_text(delimiter)), stream@, 0, interp) {
                        let close = crate::token::close_text(delimiter);
                        let pos = LineColumn {
                            line: t.end.line,
                            column: crate::embed::sat_sub(t.end.column, close.len() as int),
                        };
                        if let Ok(s3) = reconcile(s2, pos, t.start, t.end) {
                            lemma_bindings_distinct(emit(s3, close), toks, i + 1, interp);
                        }
                    }
                }
                TokenTree::Punct { .. } => {
                    let (s2, k) = punct_step(s1, toks, i, interp);
                    if interp && punct_char_is(toks, i, '\'') && toks[i].tree->joint && i + 1 < toks.len()
                        && crate::embed::ident_text(toks[i + 1].tree) is Some {
                        let name = crate::embed::ident_text(toks[i + 1].tree).unwrap();
                        lemma_add_name_distinct(s1.names, name);
                    }
                    lemma_bindings_distinct(s2, toks, i + k, interp);
                }
                TokenTree::Ident { text } => {
                    lemma_bindings_distinct(emit_word(s1, text@, t.end), toks, i + 1, interp);
                }
                TokenTree::Literal { text } => {
                    let out = if crate::embed::retracts(s1.out, text@) { s1.out.drop_last() } else { s1.out };
                    lemma_bindings_distinct(emit_word(Walk { out, ..s1 }, text@, t.end), toks, i + 1, interp);
                }
            }
        }
    }
}

spec fn punct_char_is(toks: Seq<Token>, i: int, c: char) -> bool {
    crate::embed::punct_char(toks[i].tree) == Some(c)
}

/// Every reconstruction of a whole block lists each host variable once.
pub proof fn lemma_block_bindings_distinct(toks: Seq<Token>, interp: bool)
    ensures
        walk(start_state(), toks, 0, interp) matches Ok(w) ==> w.names.no_duplicates(),
{
    lemma_bindings_distinct(start_state(), toks, 0, interp);
}

pub open spec fn is_blank(c: char) -> bool {
    c == ' ' || c == '\n'
}

pub open spec fn not_blank() -> spec_fn(char) -> bool {
    |c: char| !is_blank(c)
}

/// The text without its spaces and newlines.
pub open spec fn strip_blanks(s: Seq<char>) -> Seq<char> {
    s.filter(not_blank())
}

/// The host tokens' own text, one after the other, with brackets for groups.
pub open spec fn flat_text(toks: Seq<Token>, i: int) -> Seq<char>
    decreases toks, toks.len() - i,
{
    if i < 0 || i >= toks.len() {
        Seq::empty()
    } else {
        let head = match toks[i].tree {
            TokenTree::Group { delimiter, stream } => open_text(delimiter) + flat_text(stream@, 0) + close_text(delimiter),
            TokenTree::Punct { ch, .. } => seq![ch],
            TokenTree::Ident { text } => text@,
            TokenTree::Literal { text } => text@,
        };
        head + flat_text(toks, i + 1)
    }
}

/// No joint `'` or `#` among `toks[i..]`, inside groups included.
pub open spec fn sigil_free(toks: Seq<Token>, i: int) -> bool
    decreases toks, toks.len() - i,
{
    if i < 0 || i >= toks.len() {
        true
    } else {
        let head = match toks[i].tree {
            TokenTree::Group { stream, .. } => sigil_free(stream@, 0),
            TokenTree::Punct { ch, joint } => !(joint && (ch == '\'' || ch == '#')),
            _ => true,
        };
        head && sigil_free(toks, i + 1)
    }
}

proof fn lemma_strip_add(a: Seq<char>, b: Seq<char>)
    ensures
        strip_blanks(a + b) == strip_blanks(a) + strip_blanks(b),
{
    Seq::filter_distributes_over_add(a, b, not_blank());
}

proof fn lemma_strip_repeat(c: char, n: int)
    requires
        is_blank(c),
        n >= 0,
    ensures
        strip_blanks(repeat(c, n)) == Seq::<char>::empty(),
    decreases n,
{
    reveal(Seq::filter);
    if n > 0 {
        lemma_strip_repeat(c, n - 1);
        assert(repeat(c, n).drop_last() =~= repeat(c, n - 1));
    } else {
        assert(repeat(c, n) =~= Seq::<char>::empty());
    }
}

proof fn lemma_strip_reconcile(s: Walk, pos: LineColumn, start: LineColumn, end: LineColumn)
    ensures
        reconcile(s, pos, start, end) matches Ok(s1) ==> strip_blanks(s1.out) == strip_blanks(s.out),
{
    if pos.line > s.line {
        let base = match s.first_indent {
            Some(f) => f,
            None => pos.column,
        };
        if pos.column >= base {
            let a = repeat('\n', pos.line - s.line);
            let b = repeat(' ', pos.column - base);
            lemma_strip_add(s.out + a, b);
            lemma_strip_add(s.out, a);
            lemma_strip_repeat('\n', pos.line - s.line);
            lemma_strip_repeat(' ', pos.column - base);
            assert(strip_blanks(s.out) + Seq::<char>::empty() =~= strip_blanks(s.out));
        }
    } else if pos.line == s.line && pos.column > s.column {
        lemma_strip_add(s.out, repeat(' ', pos.column - s.column));
        lemma_strip_repeat(' ', pos.column - s.column);
        assert(strip_blanks(s.out) + Seq::<char>::empty() =~= strip_blanks(s.out));
    }
}

proof fn lemma_strip_retract(out: Seq<char>, text: Seq<char>)
    requires
        retracts(out, text),
    ensures
        strip_blanks(out.drop_last()) == strip_blanks(out),
{
    assert(out =~= out.drop_last() + seq![' ']);
    lemma_strip_add(out.drop_last(), seq![' ']);
    lemma_strip_repeat(' ', 1);
    assert(repeat(' ', 1) =~= seq![' ']);
    assert(strip_blanks(out.drop_last()) + Seq::<char>::empty() =~= strip_blanks(out.drop_last()));
}

#[verifier::rlimit(80)]
/// Without escapes, the Python text holds exactly the host tokens' text in
/// their order: the two differ only in spaces and newlines.
pub proof fn lemma_text_kept(s: Walk, toks: Seq<Token>, i: int, interp: bool)
    requires
        sigil_free(toks, i),
    ensures
        walk(s, toks, i, interp) matches Ok(w) ==> strip_blanks(w.out) == strip_blanks(s.out) + strip_blanks(flat_text(toks, i)),
    decreases toks, toks.len() - i,
{
    if i < 0 || i >= toks.len() {
        assert(strip_blanks(s.out) + strip_blanks(Seq::<char>::empty()) =~= strip_blanks(s.out)) by {
            reveal(Seq::filter);
        }
        return;
    }
    let t = toks[i];
    lemma_strip_reconcile(s, t.start, t.start, t.end);
    if let Ok(s1) = reconcile(s, t.start, t.start, t.end) {
        let rest = flat_text(toks, i + 1);
        match t.tree {
            TokenTree::Group { delimiter, stream } => {
                assert(decreases_to!(toks => stream@)) by {
                    assert(decreases_to!(toks => toks[i]));
                }
                let open = open_text(delimiter);
                let close = close_text(delimiter);
                let inner = flat_text(stream@, 0);
                lemma_strip_add(s1.out, open);
                lemma_text_kept(emit(s1, open), stream@, 0, interp);
                if let Ok(s2) = walk(emit(s1, open), stream@, 0, interp) {
                    let pos = LineColumn { line: t.end.line, column: sat_sub(t.end.column, close.len() as int) };
                    lemma_strip_reconcile(s2, pos, t.start, t.end);
                    if let Ok(s3) = reconcile(s2, pos, t.start, t.end) {
                        lemma_strip_add(s3.out, close);
                        lemma_text_kept(emit(s3, close), toks, i + 1, interp);
                        lemma_strip_add(open + inner + close, rest);
                        lemma_strip_add(open + inner, close);
                        lemma_strip_add(open, inner);
                        assert(flat_text(toks, i) == open + inner + close + rest);
                        assert(strip_blanks(flat_text(toks, i)) =~= strip_blanks(open) + strip_blanks(inner) + strip_blanks(close) + strip_blanks(rest));
                    }
                }
            }
            TokenTree::Punct { ch, joint } => {
                assert(punct_step(s1, toks, i, interp) == (emit(s1, seq![ch]), 1int));
                lemma_strip_add(s1.out, seq![ch]);
                lemma_text_kept(emit(s1, seq![ch]), toks, i + 1, interp);
                lemma_strip_add(seq![ch], rest);
            }
            TokenTree::Ident { text } => {
                lemma_strip_add(s1.out, text@);
                lemma_text_kept(emit_word(s1, text@, t.end), toks, i + 1, interp);
                lemma_strip_add(text@, rest);
            }
            TokenTree::Literal { text } => {
                let out = if retracts(s1.out, text@) { s1.out.drop_last() } else { s1.out };
                if retracts(s1.out, text@) {
                    lemma_strip_retract(s1.out, text@);
                }
                lemma_strip_add(out, text@);
                lemma_text_kept(emit_word(Walk { out, ..s1 }, text@, t.end), toks, i + 1, interp);
                lemma_strip_add(text@, rest);
            }
        }
    }
}

/// For a whole block without escapes, the Python text and the host tokens'
/// text differ only in spaces and newlines.
pub proof fn lemma_block_text_kept(toks: Seq<Token>, interp: bool)
    requires
        sigil_free(toks, 0),
    ensures
        walk(start_state(), toks, 0, interp) matches Ok(w) ==> strip_blanks(w.out) == strip_blanks(flat_text(toks, 0)),
{
    lemma_text_kept(start_state(), toks, 0, interp);
    assert(strip_blanks(Seq::<char>::empty()) =~= Seq::<char>::empty()) by {
        reveal(Seq::filter);
    }
    assert(Seq::<char>::empty() + strip_blanks(flat_text(toks, 0)) =~= strip_blanks(flat_text(toks, 0)));
}

pub open spec fn is_word(t: Token) -> bool {
    (t.tree is Ident || t.tree is Literal) && t.start.line <= t.end.line
}

/// A block whose first token, a word, stands below the first line, and whose
/// next line starts left of that word, fails with an error on that line.
pub proof fn lemma_dedent_fails(toks: Seq<Token>, interp: bool)
    requires
        toks.len() >= 2,
        is_word(toks[0]),
        toks[0].start.line > 1,
        toks[1].start.line > toks[0].end.line,
        toks[1].start.column < toks[0].start.column,
    ensures
        walk(start_state(), toks, 0, interp) == Err::<Walk, IndentationError>(
            IndentationError { line: toks[1].start.line, start: toks[1].start, end: toks[1].end },
        ),
{
    let t = toks[0];
    let s1 = reconcile(start_state(), t.start, t.start, t.end).unwrap();
    assert(s1.first_indent == Some(t.start.column));
    let text = match t.tree {
        TokenTree::Ident { text } => text@,
        TokenTree::Literal { text } => text@,
        _ => Seq::empty(),
    };
    let out = s1.out;
    if let TokenTree::Literal { text } = t.tree {
        assert(out.last() == '\n') by {
            assert(out[out.len() - 1] == repeat('\n', t.start.line - 1)[t.start.line - 2]);
        }
    }
    let s2 = emit_word(s1, text, t.end);
    assert(walk(start_state(), toks, 0, interp) == walk(s2, toks, 1, interp));
}

/// The conditions under which a block of words keeps to its indentation:
/// each word on lines of its own, none left of the first.
pub open spec fn words_indented(toks: Seq<Token>) -> bool {
    &&& toks.len() >= 1
    &&& toks[0].start.line > 1
    &&& forall|k: int| 0 <= k < toks.len() ==> #[trigger] is_word(toks[k])
    &&& forall|k: int| 0 < k < toks.len() ==> #[trigger] toks[k].start.line > toks[k - 1].end.line
    &&& forall|k: int| 0 <= k < toks.len() ==> #[trigger] toks[k].start.column >= toks[0].start.column
}

proof fn lemma_words_from(s: Walk, toks: Seq<Token>, i: int, interp: bool)
    requires
        words_indented(toks),
        1 <= i <= toks.len(),
        s.first_indent == Some(toks[0].start.column),
        s.line == toks[i - 1].end.line,
    ensures
        walk(s, toks, i, interp) is Ok,
    decreases toks.len() - i,
{
    if i < toks.len() {
        let t = toks[i];
        assert(is_word(t));
        assert(t.start.line > toks[i - 1].end.line);
        assert(t.start.column >= toks[0].start.column);
        let s1 = reconcile(s, t.start, t.start, t.end).unwrap();
        match t.tree {
            TokenTree::Ident { text } => {
                lemma_words_from(emit_word(s1, text@, t.end), toks, i + 1, interp);
            }
            TokenTree::Literal { text } => {
                let out = if retracts(s1.out, text@) { s1.out.drop_last() } else { s1.out };
                lemma_words_from(emit_word(Walk { out, ..s1 }, text@, t.end), toks, i + 1, interp);
            }
            _ => {}
        }
    }
}

/// A block of words that never starts a line left of its first word is
/// rebuilt without an indentation error.
pub proof fn lemma_indented_words_succeed(toks: Seq<Token>, interp: bool)
    requires
        words_indented(toks),
    ensures
        walk(start_state(), toks, 0, interp) is Ok,
{
    let t = toks[0];
    assert(is_word(t));
    let s1 = reconcile(start_state(), t.start, t.start, t.end).unwrap();
    match t.tree {
        TokenTree::Ident { text } => {
            lemma_words_from(emit_word(s1, text@, t.end), toks, 1, interp);
        }
        TokenTree::Literal { text } => {
            let out = if retracts(s1.out, text@) { s1.out.drop_last() } else { s1.out };
            lemma_words_from(emit_word(Walk { out, ..s1 }, text@, t.end), toks, 1, interp);
        }
        _ => {}
    }
}

/// A joint `#` before another `#` becomes Python's floor division `//`;
/// before other punctuation, both characters are kept as they are.
pub proof fn lemma_hash_escape(s: Walk, toks: Seq<Token>, i: int, interp: bool)
    requires
        0 <= i,
        i + 1 < toks.len(),
        toks[i].tree == (TokenTree::Punct { ch: '#', joint: true }),
        toks[i + 1].tree is Punct,
        reconcile(s, toks[i].start, toks[i].start, toks[i].end) is Ok,
    ensures
        ({
            let s1 = reconcile(s, toks[i].start, toks[i].start, toks[i].end).unwrap();
            let next = toks[i + 1].tree->ch;
            walk(s, toks, i, interp) == walk(
                emit(s1, if next == '#' { seq!['/', '/'] } else { seq!['#', next] }),
                toks,
                i + 2,
                interp,
            )
        }),
{
}

} // verus!
