//! The translator: from a token tree to the expression that builds its value.
//!
//! A leaf token is a scalar. A bracket group is an array, `value (',' value)*`.
//! A brace group is an object, `(string ':' value ','?)*`. A parenthesis group
//! is an escape: its tokens are host code and are handed on as they are.

use crate::error::{
    expectation_error, expected_but_found, ErrorKind, ErrorView, ObjectFault, TranslationError,
};
use crate::expr::{exprs_view, pairs_view, Expr, ExprView};
use crate::laws::{lemma_array_fault_stays, lemma_object_fault_stays};
use crate::literal::{
    float_literal_numeral, float_numeral, integer_literal_value, integer_value,
};
use crate::token::{
    clone_trees, token_text, trees_view, Delim, Span, Token, TokenTree, TokenView, TreeView,
};
use vstd::prelude::*;

verus! {

/// The mathematical value of a translation's outcome.
pub open spec fn result_view(r: Result<Expr, TranslationError>) -> Result<ExprView, ErrorView> {
    match r {
        Ok(e) => Ok(e@),
        Err(e) => Err(e@),
    }
}

/// The mathematical value of an array body's outcome.
pub open spec fn items_view(r: Result<Vec<Expr>, TranslationError>) -> Result<
    Seq<ExprView>,
    ErrorView,
> {
    match r {
        Ok(items) => Ok(exprs_view(items@)),
        Err(e) => Err(e@),
    }
}

/// The mathematical value of an object entry's outcome.
pub open spec fn entry_view(r: Result<(String, Expr), TranslationError>) -> Result<
    (Seq<char>, ExprView),
    ErrorView,
> {
    match r {
        Ok(pair) => Ok((pair.0@, pair.1@)),
        Err(e) => Err(e@),
    }
}

/// The mathematical value of an object body's outcome.
pub open spec fn entries_view(r: Result<Vec<(String, Expr)>, TranslationError>) -> Result<
    Seq<(Seq<char>, ExprView)>,
    ErrorView,
> {
    match r {
        Ok(pairs) => Ok(pairs_view(pairs@)),
        Err(e) => Err(e@),
    }
}

/// Whether `tok` is the plain identifier `word`.
pub open spec fn is_word(tok: TokenView, word: Seq<char>) -> bool {
    tok matches TokenView::Ident { name, plain } && plain && name == word
}

/// Whether `tok` stands for a scalar value: a string, integer or float
/// literal, or one of the words `null`, `true` and `false`.
pub open spec fn is_scalar(tok: TokenView) -> bool {
    tok is Str || tok is Integer || tok is Float || is_word(tok, "null"@) || is_word(tok, "true"@)
        || is_word(tok, "false"@)
}

/// The error for a token that stands for no scalar value.
pub open spec fn unexpected_token_error(sp: Span, tok: TokenView) -> ErrorView {
    ErrorView {
        kind: ErrorKind::UnexpectedToken,
        message: "unexpected `"@ + token_text(tok) + "` in JSON"@,
        span: sp,
    }
}

/// What the token `tok` at `sp` translates to.
pub open spec fn classification(sp: Span, tok: TokenView) -> Result<ExprView, ErrorView> {
    match tok {
        TokenView::Str(s) => Ok(ExprView::Str(s)),
        TokenView::Integer(text) => Ok(ExprView::Integer(integer_value(text))),
        TokenView::Float(text) => Ok(ExprView::Float(float_numeral(text))),
        _ => if is_word(tok, "null"@) {
            Ok(ExprView::Null)
        } else if is_word(tok, "true"@) {
            Ok(ExprView::Boolean(true))
        } else if is_word(tok, "false"@) {
            Ok(ExprView::Boolean(false))
        } else {
            Err(unexpected_token_error(sp, tok))
        },
    }
}

/// Whether `tt` is the punctuation `,`.
pub open spec fn is_comma(tt: TreeView) -> bool {
    tt matches TreeView::Leaf(_, TokenView::Comma)
}

/// The error for a node that the grammar has no use for.
pub open spec fn unsupported_error(sp: Span) -> ErrorView {
    ErrorView {
        kind: ErrorKind::UnsupportedConstruct,
        message: "`json!` unexpected TtSequence"@,
        span: sp,
    }
}

/// The error for a literal without a token.
pub open spec fn empty_literal_error(sp: Span) -> ErrorView {
    ErrorView { kind: ErrorKind::EmptyLiteral, message: "expected JSON literal"@, span: sp }
}

/// The error for a name at `name_sp` that nothing follows.
pub open spec fn missing_colon_value_error(name_sp: Span) -> ErrorView {
    ErrorView {
        kind: ErrorKind::MalformedObjectEntry(ObjectFault::MissingColonValue),
        message: "found name but no colon-value afterwards"@,
        span: name_sp,
    }
}

/// The error for a `:` at `colon_sp` that nothing follows.
pub open spec fn missing_value_error(colon_sp: Span) -> ErrorView {
    ErrorView {
        kind: ErrorKind::MalformedObjectEntry(ObjectFault::MissingValue),
        message: "found `:` but no value afterwards"@,
        span: colon_sp,
    }
}

/// The number of entries in an object body of `n` tokens: an entry takes four
/// tokens, the last one may do with fewer.
pub open spec fn entry_count(n: nat) -> nat {
    (n + 3) / 4
}

/// What the token tree `tt` translates to.
pub open spec fn translation(tt: TreeView) -> Result<ExprView, ErrorView>
    decreases tt, 0nat,
{
    match tt {
        TreeView::Leaf(sp, tok) => classification(sp, tok),
        TreeView::Group(sp, Delim::Bracket, tts) => match array_items(sp, tts, tts.len()) {
            Ok(items) => Ok(ExprView::List(items)),
            Err(e) => Err(e),
        },
        TreeView::Group(sp, Delim::Brace, tts) => match object_pairs(
            sp,
            tts,
            entry_count(tts.len()),
        ) {
            Ok(pairs) => Ok(ExprView::Object(pairs)),
            Err(e) => Err(e),
        },
        TreeView::Group(_, Delim::Paren, tts) => Ok(ExprView::Escape(tts)),
        TreeView::Sequence(sp, _) => Err(unsupported_error(sp)),
    }
}

/// What the first `n` trees of the array body `tts` give, `sp` being the
/// position of the group: the values in their order, or the first fault.
pub open spec fn array_items(sp: Span, tts: Seq<TreeView>, n: nat) -> Result<
    Seq<ExprView>,
    ErrorView,
>
    decreases tts, n,
{
    if n == 0 || n > tts.len() {
        Ok(Seq::empty())
    } else {
        match array_items(sp, tts, (n - 1) as nat) {
            Err(e) => Err(e),
            Ok(items) => {
                let tt = tts[n - 1];
                if (n - 1) % 2 == 1 {
                    if is_comma(tt) {
                        Ok(items)
                    } else {
                        Err(
                            expectation_error(
                                ErrorKind::MalformedArraySeparator,
                                sp,
                                "`,`"@,
                                tt,
                            ),
                        )
                    }
                } else {
                    match translation(tt) {
                        Ok(item) => Ok(items.push(item)),
                        Err(e) => Err(e),
                    }
                }
            },
        }
    }
}

/// What the entry that starts at position `at` of the object body `tts` gives:
/// its key and value, or the fault in it.
pub open spec fn object_entry(sp: Span, tts: Seq<TreeView>, at: int) -> Result<
    (Seq<char>, ExprView),
    ErrorView,
>
    decreases tts, 0nat,
{
    if at < 0 || at >= tts.len() {
        arbitrary()
    } else {
        match tts[at] {
            TreeView::Leaf(name_sp, TokenView::Str(name)) => if at + 1 >= tts.len() {
                Err(missing_colon_value_error(name_sp))
            } else {
                match tts[at + 1] {
                    TreeView::Leaf(colon_sp, TokenView::Colon) => if at + 2 >= tts.len() {
                        Err(missing_value_error(colon_sp))
                    } else if at + 3 < tts.len() && !is_comma(tts[at + 3]) {
                        Err(
                            expectation_error(
                                ErrorKind::MalformedObjectEntry(ObjectFault::MissingComma),
                                sp,
                                "`,`"@,
                                tts[at + 3],
                            ),
                        )
                    } else {
                        match translation(tts[at + 2]) {
                            Ok(value) => Ok((name, value)),
                            Err(e) => Err(e),
                        }
                    },
                    found => Err(
                        expectation_error(
                            ErrorKind::MalformedObjectEntry(ObjectFault::MissingColon),
                            sp,
                            "`:`"@,
                            found,
                        ),
                    ),
                }
            },
            found => Err(
                expectation_error(
                    ErrorKind::MalformedObjectEntry(ObjectFault::MissingName),
                    sp,
                    "string literal"@,
                    found,
                ),
            ),
        }
    }
}

/// What the first `k` entries of the object body `tts` give, `sp` being the
/// position of the group: the keys with their values in their order, or the
/// first fault.
pub open spec fn object_pairs(sp: Span, tts: Seq<TreeView>, k: nat) -> Result<
    Seq<(Seq<char>, ExprView)>,
    ErrorView,
>
    decreases tts, k,
{
    if k == 0 || k > entry_count(tts.len()) {
        Ok(Seq::empty())
    } else {
        match object_pairs(sp, tts, (k - 1) as nat) {
            Err(e) => Err(e),
            Ok(pairs) => match object_entry(sp, tts, 4 * (k - 1)) {
                Ok(pair) => Ok(pairs.push(pair)),
                Err(e) => Err(e),
            },
        }
    }
}

/// What a literal that consists of the token trees `tts` translates to, `sp`
/// being the position of the literal: the translation of the first tree.
pub open spec fn expansion(sp: Span, tts: Seq<TreeView>) -> Result<ExprView, ErrorView> {
    if tts.len() == 0 {
        Err(empty_literal_error(sp))
    } else {
        translation(tts[0])
    }
}

fn same_text(name: &String, word: &str) -> (r: bool)
    ensures
        r == (name@ == word@),
{
    let other = String::from_str(word);
    *name == other
}

/// Translates one leaf token into the expression of a scalar value.
///
/// A string literal gives its contents, an integer literal its value kept to
/// 64 bits, a float literal its numeral, and the plain identifiers `null`,
/// `true` and `false` the values they name. Any other token is refused, with
/// a message that shows it.
pub fn token_to_expr(sp: Span, tok: &Token) -> (r: Result<Expr, TranslationError>)
    ensures
        result_view(r) == classification(sp, tok@),
        r is Ok <==> is_scalar(tok@),
        r matches Err(e) ==> e.kind == ErrorKind::UnexpectedToken && e.span == sp,
{
    match tok {
        Token::Str(s) => Ok(Expr::Str(s.clone())),
        Token::Integer(text) => Ok(Expr::Integer(integer_literal_value(text.as_str()))),
        Token::Float(text) => Ok(Expr::Float(float_literal_numeral(text.as_str()))),
        Token::Ident { name, plain: true } if same_text(name, "null") => Ok(Expr::Null),
        Token::Ident { name, plain: true } if same_text(name, "true") => Ok(Expr::Boolean(true)),
        Token::Ident { name, plain: true } if same_text(name, "false") => Ok(Expr::Boolean(false)),
        _ => {
            let shown = tok.text();
            let mut message = String::from_str("unexpected `");
            message.append(shown.as_str());
            message.append("` in JSON");
            Err(TranslationError { kind: ErrorKind::UnexpectedToken, message, span: sp })
        },
    }
}

/// Translates one token tree: a leaf as a scalar, a bracket group as an
/// array, a brace group as an object, a parenthesis group as an escape. A
/// failure in any part is the failure of the whole, unchanged.
pub fn tt_to_expr(tt: &TokenTree) -> (r: Result<Expr, TranslationError>)
    ensures
        result_view(r) == translation(tt@),
    decreases tt, 0nat,
{
    match tt {
        TokenTree::Leaf(sp, tok) => token_to_expr(*sp, tok),
        TokenTree::Group(sp, Delim::Bracket, tts) => {
            match parse_array(*sp, tts.as_slice()) {
                Ok(items) => Ok(Expr::List(items)),
                Err(e) => Err(e),
            }
        },
        TokenTree::Group(sp, Delim::Brace, tts) => {
            match parse_object(*sp, tts.as_slice()) {
                Ok(pairs) => Ok(Expr::Object(pairs)),
                Err(e) => Err(e),
            }
        },
        TokenTree::Group(_, Delim::Paren, tts) => Ok(Expr::Escape(clone_trees(tts.as_slice()))),
        TokenTree::Sequence(sp, _) => Err(
            TranslationError {
                kind: ErrorKind::UnsupportedConstruct,
                message: String::from_str("`json!` unexpected TtSequence"),
                span: *sp,
            },
        ),
    }
}

/// Translates the body of an array, `sp` being the position of its group.
///
/// The trees at even positions are the values, those at odd positions must be
/// commas. The values come out in their order. The first fault ends the
/// translation. A comma behind the last value is accepted.
pub fn parse_array(sp: Span, tts: &[TokenTree]) -> (r: Result<Vec<Expr>, TranslationError>)
    ensures
        items_view(r) == array_items(sp, trees_view(tts@), tts@.len()),
    decreases tts@, 1nat,
{
    let mut exprs: Vec<Expr> = Vec::new();
    let mut i: usize = 0;
    assert(exprs_view(exprs@) =~= Seq::empty());
    while i < tts.len()
        invariant
            i <= tts.len(),
            array_items(sp, trees_view(tts@), i as nat) == Ok::<Seq<ExprView>, ErrorView>(
                exprs_view(exprs@),
            ),
        decreases tts.len() - i,
    {
        let tt = &tts[i];
        if i % 2 == 1 {
            match tt {
                TokenTree::Leaf(_, Token::Comma) => {},
                _ => {
                    let e = expected_but_found(ErrorKind::MalformedArraySeparator, sp, "`,`", tt);
                    proof {
                        lemma_array_fault_stays(sp, trees_view(tts@), (i + 1) as nat, tts@.len());
                    }
                    return Err(e);
                },
            }
        } else {
            match tt_to_expr(tt) {
                Ok(item) => {
                    let ghost before = exprs_view(exprs@);
                    exprs.push(item);
                    assert(exprs_view(exprs@) =~= before.push(item@));
                },
                Err(e) => {
                    proof {
                        lemma_array_fault_stays(sp, trees_view(tts@), (i + 1) as nat, tts@.len());
                    }
                    return Err(e);
                },
            }
        }
        i += 1;
    }
    Ok(exprs)
}

/// Translates the entry of an object body that starts at position `at`.
fn parse_entry(sp: Span, tts: &[TokenTree], at: usize) -> (r: Result<
    (String, Expr),
    TranslationError,
>)
    requires
        at < tts@.len(),
    ensures
        entry_view(r) == object_entry(sp, trees_view(tts@), at as int),
    decreases tts@, 0nat,
{
    let rest = tts.len() - at;
    let (name_sp, name) = match &tts[at] {
        TokenTree::Leaf(name_sp, Token::Str(name)) => (*name_sp, name),
        found => {
            return Err(
                expected_but_found(
                    ErrorKind::MalformedObjectEntry(ObjectFault::MissingName),
                    sp,
                    "string literal",
                    found,
                ),
            );
        },
    };
    if rest < 2 {
        return Err(
            TranslationError {
                kind: ErrorKind::MalformedObjectEntry(ObjectFault::MissingColonValue),
                message: String::from_str("found name but no colon-value afterwards"),
                span: name_sp,
            },
        );
    }
    let colon_sp = match &tts[at + 1] {
        TokenTree::Leaf(colon_sp, Token::Colon) => *colon_sp,
        found => {
            return Err(
                expected_but_found(
                    ErrorKind::MalformedObjectEntry(ObjectFault::MissingColon),
                    sp,
                    "`:`",
                    found,
                ),
            );
        },
    };
    if rest < 3 {
        return Err(
            TranslationError {
                kind: ErrorKind::MalformedObjectEntry(ObjectFault::MissingValue),
                message: String::from_str("found `:` but no value afterwards"),
                span: colon_sp,
            },
        );
    }
    if rest > 3 {
        match &tts[at + 3] {
            TokenTree::Leaf(_, Token::Comma) => {},
            found => {
                return Err(
                    expected_but_found(
                        ErrorKind::MalformedObjectEntry(ObjectFault::MissingComma),
                        sp,
                        "`,`",
                        found,
                    ),
                );
            },
        }
    }
    match tt_to_expr(&tts[at + 2]) {
        Ok(value) => Ok((name.clone(), value)),
        Err(e) => Err(e),
    }
}

/// Translates the body of an object, `sp` being the position of its group.
///
/// An entry is a string literal, a `:`, a value and a `,`; the last entry may
/// leave the `,` out. The keys with their values come out in their order, a
/// key that occurs twice comes out twice. The first fault ends the
/// translation.
pub fn parse_object(sp: Span, tts: &[TokenTree]) -> (r: Result<
    Vec<(String, Expr)>,
    TranslationError,
>)
    ensures
        entries_view(r) == object_pairs(sp, trees_view(tts@), entry_count(tts@.len())),
    decreases tts@, 1nat,
{
    let mut items: Vec<(String, Expr)> = Vec::new();
    let mut at: usize = 0;
    let ghost mut k: nat = 0;
    assert(pairs_view(items@) =~= Seq::empty());
    while at < tts.len()
        invariant
            at <= tts.len(),
            k <= entry_count(tts@.len()),
            at < tts.len() ==> at == 4 * k,
            at == tts.len() ==> k == entry_count(tts@.len()),
            object_pairs(sp, trees_view(tts@), k) == Ok::<Seq<(Seq<char>, ExprView)>, ErrorView>(
                pairs_view(items@),
            ),
        decreases tts.len() - at,
    {
        match parse_entry(sp, tts, at) {
            Ok(pair) => {
                let ghost before = pairs_view(items@);
                let ghost added = (pair.0@, pair.1@);
                items.push(pair);
                assert(pairs_view(items@) =~= before.push(added));
            },
            Err(e) => {
                proof {
                    lemma_object_fault_stays(
                        sp,
                        trees_view(tts@),
                        k + 1,
                        entry_count(tts@.len()),
                    );
                }
                return Err(e);
            },
        }
        at = if tts.len() - at > 4 {
            at + 4
        } else {
            tts.len()
        };
        proof {
            k = k + 1;
        }
    }
    Ok(items)
}

/// Translates a literal that consists of the token trees `tts`, `sp` being
/// the position of the literal: the first tree is the literal. A literal
/// without a token is refused.
pub fn expand(sp: Span, tts: &[TokenTree]) -> (r: Result<Expr, TranslationError>)
    ensures
        result_view(r) == expansion(sp, trees_view(tts@)),
{
    if tts.len() == 0 {
        Err(
            TranslationError {
                kind: ErrorKind::EmptyLiteral,
                message: String::from_str("expected JSON literal"),
                span: sp,
            },
        )
    } else {
        tt_to_expr(&tts[0])
    }
}

} // verus!
