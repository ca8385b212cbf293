//! Translation failures: what went wrong, and where.

use crate::token::{tree_text, Span, TokenTree, TreeView};
use vstd::prelude::*;

verus! {

/// What is wrong with an entry of an object.
#[derive(Clone, Copy, Debug, PartialEq, Eq, Structural)]
pub enum ObjectFault {
    /// The entry does not start with a string literal.
    MissingName,
    /// Nothing follows the name.
    MissingColonValue,
    /// Something other than `:` follows the name.
    MissingColon,
    /// Nothing follows the `:`.
    MissingValue,
    /// Something other than `,` follows the value.
    MissingComma,
}

/// The kinds of failure that the translator reports. What the host's parser
/// makes of the tokens of an escape is the host's to report.
#[derive(Clone, Copy, Debug, PartialEq, Eq, Structural)]
pub enum ErrorKind {
    /// No token was supplied.
    EmptyLiteral,
    /// A token that stands for no scalar value.
    UnexpectedToken,
    /// Two values of an array with something other than `,` between them.
    MalformedArraySeparator,
    /// An entry of an object that is not `name : value`.
    MalformedObjectEntry(ObjectFault),
    /// A node of the token tree that the grammar has no use for.
    UnsupportedConstruct,
}

/// A failed translation: one message, bound to one source position.
#[derive(Debug, PartialEq, Eq)]
pub struct TranslationError {
    pub kind: ErrorKind,
    pub message: String,
    pub span: Span,
}

/// The mathematical value of a [`TranslationError`].
pub struct ErrorView {
    pub kind: ErrorKind,
    pub message: Seq<char>,
    pub span: Span,
}

impl View for TranslationError {
    type V = ErrorView;

    open spec fn view(&self) -> ErrorView {
        ErrorView { kind: self.kind, message: self.message@, span: self.span }
    }
}

impl Clone for TranslationError {
    fn clone(&self) -> (r: Self)
        ensures
            r@ == self@,
    {
        TranslationError { kind: self.kind, message: self.message.clone(), span: self.span }
    }
}

/// The position to report a fault in `tt` at: that of `tt` itself where it is
/// a leaf token, else `sp`, the position of the group around it.
pub open spec fn resolved_span(sp: Span, tt: TreeView) -> Span {
    match tt {
        TreeView::Leaf(own, _) => own,
        _ => sp,
    }
}

/// The message that says what was expected where `found` stands.
pub open spec fn expectation_message(expected: Seq<char>, found: TreeView) -> Seq<char> {
    "expected "@ + expected + " but found: `"@ + tree_text(found) + "`"@
}

/// The error that says what was expected where `found` stands, inside the
/// group at `sp`.
pub open spec fn expectation_error(
    kind: ErrorKind,
    sp: Span,
    expected: Seq<char>,
    found: TreeView,
) -> ErrorView {
    ErrorView {
        kind,
        message: expectation_message(expected, found),
        span: resolved_span(sp, found),
    }
}

/// Resolves the position to report a fault in `tt` at: the token's own where
/// `tt` is a leaf, else `sp`, the position of the enclosing group.
pub fn best_span(sp: Span, tt: &TokenTree) -> (r: Span)
    ensures
        r == resolved_span(sp, tt@),
{
    match tt {
        TokenTree::Leaf(own, _) => *own,
        _ => sp,
    }
}

/// Reports that `expected` was expected where `found` stands, inside the
/// group at `sp`.
pub fn expected_but_found(kind: ErrorKind, sp: Span, expected: &str, found: &TokenTree) -> (e:
    TranslationError)
    ensures
        e@ == expectation_error(kind, sp, expected@, found@),
{
    let shown = found.text();
    let mut message = String::from_str("expected ");
    message.append(expected);
    message.append(" but found: `");
    message.append(shown.as_str());
    message.append("`");
    TranslationError { kind, message, span: best_span(sp, found) }
}

} // verus!
