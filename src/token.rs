use vstd::prelude::*;

verus! {

/// A position in the host source: a 1-based line and a 0-based column.
#[derive(Clone, Copy, Debug, PartialEq, Eq, Structural)]
pub struct LineColumn {
    pub line: usize,
    pub column: usize,
}

/// The kind of brackets around a group of host tokens.
#[derive(Clone, Copy, Debug, PartialEq, Eq, Structural)]
pub enum Delimiter {
    Parenthesis,
    Brace,
    Bracket,
    /// A group without visible brackets.
    Invisible,
}

/// One host token, without its position.
#[derive(Debug)]
pub enum TokenTree {
    /// A bracketed group and the tokens inside it.
    Group { delimiter: Delimiter, stream: Vec<Token> },
    /// A punctuation character; `joint` when the next token follows it with no gap.
    Punct { ch: char, joint: bool },
    Ident { text: String },
    Literal { text: String },
}

/// A host token together with where it starts and ends.
#[derive(Debug)]
pub struct Token {
    pub tree: TokenTree,
    pub start: LineColumn,
    pub end: LineColumn,
}

/// The opening bracket of a delimiter, as Python text.
pub open spec fn open_text(d: Delimiter) -> Seq<char> {
    match d {
        Delimiter::Parenthesis => seq!['('],
        Delimiter::Brace => seq!['{'],
        Delimiter::Bracket => seq!['['],
        Delimiter::Invisible => Seq::empty(),
    }
}

/// The closing bracket of a delimiter, as Python text.
pub open spec fn close_text(d: Delimiter) -> Seq<char> {
    match d {
        Delimiter::Parenthesis => seq![')'],
        Delimiter::Brace => seq!['}'],
        Delimiter::Bracket => seq![']'],
        Delimiter::Invisible => Seq::empty(),
    }
}

impl Delimiter {
    /// The opening and closing brackets of this delimiter.
    pub fn brackets(&self) -> (r: (Vec<char>, Vec<char>))
        ensures
            r.0@ == open_text(*self),
            r.1@ == close_text(*self),
    {
        match self {
            Delimiter::Parenthesis => (vec!['('], vec![')']),
            Delimiter::Brace => (vec!['{'], vec!['}']),
            Delimiter::Bracket => (vec!['['], vec![']']),
            Delimiter::Invisible => (Vec::new(), Vec::new()),
        }
    }
}

impl Token {
    pub fn group(delimiter: Delimiter, stream: Vec<Token>, start: LineColumn, end: LineColumn) -> (r: Token)
        ensures
            r == (Token { tree: TokenTree::Group { delimiter, stream }, start, end }),
    {
        Token { tree: TokenTree::Group { delimiter, stream }, start, end }
    }

    pub fn punct(ch: char, joint: bool, start: LineColumn) -> (r: Token)
        ensures
            r.tree == (TokenTree::Punct { ch, joint }),
            r.start == start,
            r.end == (LineColumn { line: start.line, column: if start.column < usize::MAX { (start.column + 1) as usize } else { start.column } }),
    {
        let column = if start.column < usize::MAX { start.column + 1 } else { start.column };
        Token { tree: TokenTree::Punct { ch, joint }, start, end: LineColumn { line: start.line, column } }
    }

    pub fn ident(text: String, start: LineColumn, end: LineColumn) -> (r: Token)
        ensures
            r == (Token { tree: TokenTree::Ident { text }, start, end }),
    {
        Token { tree: TokenTree::Ident { text }, start, end }
    }

    pub fn literal(text: String, start: LineColumn, end: LineColumn) -> (r: Token)
        ensures
            r == (Token { tree: TokenTree::Literal { text }, start, end }),
    {
        Token { tree: TokenTree::Literal { text }, start, end }
    }
}

} // verus!
