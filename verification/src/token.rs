//! Token trees: the input of the translator.

use vstd::prelude::*;

verus! {

/// A source position, as the host counts it: the range from `lo` up to `hi`.
#[derive(Clone, Copy, Debug, PartialEq, Eq, Structural)]
pub struct Span {
    pub lo: u32,
    pub hi: u32,
}

/// The kind of bracket that encloses a group.
#[derive(Clone, Copy, Debug, PartialEq, Eq, Structural)]
pub enum Delim {
    /// `[` and `]`
    Bracket,
    /// `{` and `}`
    Brace,
    /// `(` and `)`
    Paren,
}

/// One lexical unit. The translator only tells apart the variants it has a
/// use for; everything else is `Other`.
#[derive(Debug, PartialEq, Eq)]
pub enum Token {
    /// A string literal, by its contents as the host decoded them.
    Str(String),
    /// An integer literal, by its source text.
    Integer(String),
    /// A floating-point literal, by its source text.
    Float(String),
    /// An identifier by its name. A raw or otherwise quoted identifier is not
    /// `plain`.
    Ident { name: String, plain: bool },
    /// The punctuation `,`.
    Comma,
    /// The punctuation `:`.
    Colon,
    /// Any other token, by its source text.
    Other(String),
}

/// A piece of tokenized source: a single token, or a run of token trees that
/// the host has bracketed or otherwise set apart. Each carries its position.
#[derive(Debug, PartialEq, Eq)]
pub enum TokenTree {
    /// One token.
    Leaf(Span, Token),
    /// The token trees between a pair of brackets.
    Group(Span, Delim, Vec<TokenTree>),
    /// A repetition or splice of the host's macro language. The grammar of
    /// literals has no use for it.
    Sequence(Span, Vec<TokenTree>),
}

/// The mathematical value of a [`Token`].
pub enum TokenView {
    Str(Seq<char>),
    Integer(Seq<char>),
    Float(Seq<char>),
    Ident { name: Seq<char>, plain: bool },
    Comma,
    Colon,
    Other(Seq<char>),
}

/// The mathematical value of a [`TokenTree`].
pub enum TreeView {
    Leaf(Span, TokenView),
    Group(Span, Delim, Seq<TreeView>),
    Sequence(Span, Seq<TreeView>),
}

impl View for Token {
    type V = TokenView;

    open spec fn view(&self) -> TokenView {
        match *self {
            Token::Str(s) => TokenView::Str(s@),
            Token::Integer(s) => TokenView::Integer(s@),
            Token::Float(s) => TokenView::Float(s@),
            Token::Ident { name, plain } => TokenView::Ident { name: name@, plain },
            Token::Comma => TokenView::Comma,
            Token::Colon => TokenView::Colon,
            Token::Other(s) => TokenView::Other(s@),
        }
    }
}

impl View for TokenTree {
    type V = TreeView;

    open spec fn view(&self) -> TreeView
        decreases self,
    {
        match *self {
            TokenTree::Leaf(sp, tok) => TreeView::Leaf(sp, tok@),
            TokenTree::Group(sp, delim, tts) => TreeView::Group(sp, delim, trees_view(tts@)),
            TokenTree::Sequence(sp, tts) => TreeView::Sequence(sp, trees_view(tts@)),
        }
    }
}

/// The mathematical value of a sequence of token trees, element by element.
pub open spec fn trees_view(tts: Seq<TokenTree>) -> Seq<TreeView>
    decreases tts,
{
    Seq::new(
        tts.len(),
        |i: int|
            if 0 <= i < tts.len() {
                tts[i]@
            } else {
                arbitrary()
            },
    )
}

impl Clone for Token {
    fn clone(&self) -> (r: Self)
        ensures
            r@ == self@,
    {
        match self {
            Token::Str(s) => Token::Str(s.clone()),
            Token::Integer(s) => Token::Integer(s.clone()),
            Token::Float(s) => Token::Float(s.clone()),
            Token::Ident { name, plain } => Token::Ident { name: name.clone(), plain: *plain },
            Token::Comma => Token::Comma,
            Token::Colon => Token::Colon,
            Token::Other(s) => Token::Other(s.clone()),
        }
    }
}

impl Clone for TokenTree {
    fn clone(&self) -> (r: Self)
        ensures
            r@ == self@,
        decreases self,
    {
        match self {
            TokenTree::Leaf(sp, tok) => TokenTree::Leaf(*sp, tok.clone()),
            TokenTree::Group(sp, delim, tts) => TokenTree::Group(*sp, *delim, clone_trees(tts)),
            TokenTree::Sequence(sp, tts) => TokenTree::Sequence(*sp, clone_trees(tts)),
        }
    }
}

/// Copies a sequence of token trees, element by element.
pub(crate) fn clone_trees(tts: &[TokenTree]) -> (r: Vec<TokenTree>)
    ensures
        trees_view(r@) == trees_view(tts@),
    decreases tts@,
{
    let mut out: Vec<TokenTree> = Vec::new();
    let mut i: usize = 0;
    while i < tts.len()
        invariant
            i <= tts.len(),
            out@.len() == i,
            forall|j: int| 0 <= j < i ==> out@[j]@ == tts@[j]@,
        decreases tts.len() - i,
    {
        out.push(tts[i].clone());
        i += 1;
    }
    assert(trees_view(out@) =~= trees_view(tts@));
    out
}

/// The position of a token tree itself.
pub open spec fn tree_span(tt: TreeView) -> Span {
    match tt {
        TreeView::Leaf(sp, _) => sp,
        TreeView::Group(sp, _, _) => sp,
        TreeView::Sequence(sp, _) => sp,
    }
}

/// The text by which a token is shown in a message. A string literal is shown
/// between double quotes, its contents as they are.
pub open spec fn token_text(tok: TokenView) -> Seq<char> {
    match tok {
        TokenView::Str(s) => "\""@ + s + "\""@,
        TokenView::Integer(text) => text,
        TokenView::Float(text) => text,
        TokenView::Ident { name, .. } => name,
        TokenView::Comma => ","@,
        TokenView::Colon => ":"@,
        TokenView::Other(text) => text,
    }
}

/// The opening bracket of a group.
pub open spec fn open_text(delim: Delim) -> Seq<char> {
    match delim {
        Delim::Bracket => "["@,
        Delim::Brace => "{"@,
        Delim::Paren => "("@,
    }
}

/// The closing bracket of a group.
pub open spec fn close_text(delim: Delim) -> Seq<char> {
    match delim {
        Delim::Bracket => "]"@,
        Delim::Brace => "}"@,
        Delim::Paren => ")"@,
    }
}

/// The text by which a token tree is shown in a message: a leaf by its token,
/// a group by its brackets around its children, the children separated by
/// single spaces.
pub open spec fn tree_text(tt: TreeView) -> Seq<char>
    decreases tt, 0nat,
{
    match tt {
        TreeView::Leaf(_, tok) => token_text(tok),
        TreeView::Group(_, delim, tts) => open_text(delim) + joined_text(tts, tts.len())
            + close_text(delim),
        TreeView::Sequence(_, tts) => "$("@ + joined_text(tts, tts.len()) + ")"@,
    }
}

/// The texts of the first `n` trees of `tts`, separated by single spaces.
pub open spec fn joined_text(tts: Seq<TreeView>, n: nat) -> Seq<char>
    decreases tts, n,
{
    if n == 0 || n > tts.len() {
        Seq::empty()
    } else if n == 1 {
        tree_text(tts[0])
    } else {
        joined_text(tts, (n - 1) as nat) + " "@ + tree_text(tts[n - 1])
    }
}

impl Token {
    /// Renders the token for a message.
    pub fn text(&self) -> (r: String)
        ensures
            r@ == token_text(self@),
    {
        match self {
            Token::Str(s) => {
                let mut out = String::from_str("\"");
                out.append(s.as_str());
                out.append("\"");
                out
            },
            Token::Integer(text) => text.clone(),
            Token::Float(text) => text.clone(),
            Token::Ident { name, .. } => name.clone(),
            Token::Comma => String::from_str(","),
            Token::Colon => String::from_str(":"),
            Token::Other(text) => text.clone(),
        }
    }
}

impl Delim {
    /// The opening bracket.
    pub fn open(&self) -> (r: &'static str)
        ensures
            r@ == open_text(*self),
    {
        match self {
            Delim::Bracket => "[",
            Delim::Brace => "{",
            Delim::Paren => "(",
        }
    }

    /// The closing bracket.
    pub fn close(&self) -> (r: &'static str)
        ensures
            r@ == close_text(*self),
    {
        match self {
            Delim::Bracket => "]",
            Delim::Brace => "}",
            Delim::Paren => ")",
        }
    }
}

impl TokenTree {
    /// The position of the tree itself.
    pub fn span(&self) -> (r: Span)
        ensures
            r == tree_span(self@),
    {
        match self {
            TokenTree::Leaf(sp, _) => *sp,
            TokenTree::Group(sp, _, _) => *sp,
            TokenTree::Sequence(sp, _) => *sp,
        }
    }

    /// Renders the token tree for a message.
    pub fn text(&self) -> (r: String)
        ensures
            r@ == tree_text(self@),
        decreases self,
    {
        match self {
            TokenTree::Leaf(_, tok) => tok.text(),
            TokenTree::Group(_, delim, tts) => {
                let mut out = String::from_str(delim.open());
                let inner = join_text(tts);
                out.append(inner.as_str());
                out.append(delim.close());
                out
            },
            TokenTree::Sequence(_, tts) => {
                let mut out = String::from_str("$(");
                let inner = join_text(tts);
                out.append(inner.as_str());
                out.append(")");
                out
            },
        }
    }
}

/// Renders a sequence of token trees, separated by single spaces.
fn join_text(tts: &[TokenTree]) -> (r: String)
    ensures
        r@ == joined_text(trees_view(tts@), tts@.len()),
    decreases tts@,
{
    let mut out = String::new();
    let mut i: usize = 0;
    while i < tts.len()
        invariant
            i <= tts.len(),
            out@ == joined_text(trees_view(tts@), i as nat),
        decreases tts.len() - i,
    {
        if i > 0 {
            out.append(" ");
        }
        let piece = tts[i].text();
        out.append(piece.as_str());
        i += 1;
    }
    out
}

} // verus!
