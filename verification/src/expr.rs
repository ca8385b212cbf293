//! Expressions: the output of the translator.

use crate::token::{clone_trees, trees_view, TokenTree, TreeView};
use vstd::prelude::*;

verus! {

/// An expression that, once the host evaluates it, builds a structured value.
#[derive(Debug, PartialEq, Eq)]
pub enum Expr {
    /// Builds the null value.
    Null,
    /// Builds a boolean.
    Boolean(bool),
    /// Builds a 64-bit signed integer.
    Integer(i64),
    /// Builds a 64-bit float from the numeral of a floating-point literal.
    Float(String),
    /// Builds a string from owned text.
    Str(String),
    /// Builds a list from the values of the expressions, in their order.
    List(Vec<Expr>),
    /// Builds an object: each pair is inserted, in the order of the pairs, into
    /// a fresh map ordered by key. A later pair replaces an earlier one with
    /// the same key.
    Object(Vec<(String, Expr)>),
    /// Converts to a structured value whatever the host expression that these
    /// tokens spell evaluates to.
    Escape(Vec<TokenTree>),
}

/// The mathematical value of an [`Expr`].
pub enum ExprView {
    Null,
    Boolean(bool),
    Integer(int),
    Float(Seq<char>),
    Str(Seq<char>),
    List(Seq<ExprView>),
    Object(Seq<(Seq<char>, ExprView)>),
    Escape(Seq<TreeView>),
}

impl View for Expr {
    type V = ExprView;

    open spec fn view(&self) -> ExprView
        decreases self,
    {
        match *self {
            Expr::Null => ExprView::Null,
            Expr::Boolean(b) => ExprView::Boolean(b),
            Expr::Integer(v) => ExprView::Integer(v as int),
            Expr::Float(numeral) => ExprView::Float(numeral@),
            Expr::Str(s) => ExprView::Str(s@),
            Expr::List(items) => ExprView::List(exprs_view(items@)),
            Expr::Object(pairs) => ExprView::Object(pairs_view(pairs@)),
            Expr::Escape(tts) => ExprView::Escape(trees_view(tts@)),
        }
    }
}

/// The mathematical value of a sequence of expressions, element by element.
pub open spec fn exprs_view(items: Seq<Expr>) -> Seq<ExprView>
    decreases items,
{
    Seq::new(
        items.len(),
        |i: int|
            if 0 <= i < items.len() {
                items[i]@
            } else {
                arbitrary()
            },
    )
}

/// The mathematical value of a sequence of keys with their expressions,
/// element by element.
pub open spec fn pairs_view(pairs: Seq<(String, Expr)>) -> Seq<(Seq<char>, ExprView)>
    decreases pairs,
{
    Seq::new(
        pairs.len(),
        |i: int|
            if 0 <= i < pairs.len() {
                (pairs[i].0@, pairs[i].1@)
            } else {
                arbitrary()
            },
    )
}

impl Clone for Expr {
    fn clone(&self) -> (r: Self)
        ensures
            r@ == self@,
        decreases self,
    {
        match self {
            Expr::Null => Expr::Null,
            Expr::Boolean(b) => Expr::Boolean(*b),
            Expr::Integer(v) => Expr::Integer(*v),
            Expr::Float(numeral) => Expr::Float(numeral.clone()),
            Expr::Str(s) => Expr::Str(s.clone()),
            Expr::List(items) => Expr::List(clone_exprs(items.as_slice())),
            Expr::Object(pairs) => Expr::Object(clone_pairs(pairs.as_slice())),
            Expr::Escape(tts) => Expr::Escape(clone_trees(tts.as_slice())),
        }
    }
}

/// Copies a sequence of expressions, element by element.
fn clone_exprs(items: &[Expr]) -> (r: Vec<Expr>)
    ensures
        exprs_view(r@) == exprs_view(items@),
    decreases items@,
{
    let mut out: Vec<Expr> = Vec::new();
    let mut i: usize = 0;
    while i < items.len()
        invariant
            i <= items.len(),
            out@.len() == i,
            forall|j: int| 0 <= j < i ==> out@[j]@ == items@[j]@,
        decreases items.len() - i,
    {
        out.push(items[i].clone());
        i += 1;
    }
    assert(exprs_view(out@) =~= exprs_view(items@));
    out
}

/// Copies a sequence of keys with their expressions, element by element.
fn clone_pairs(pairs: &[(String, Expr)]) -> (r: Vec<(String, Expr)>)
    ensures
        pairs_view(r@) == pairs_view(pairs@),
    decreases pairs@,
{
    let mut out: Vec<(String, Expr)> = Vec::new();
    let mut i: usize = 0;
    while i < pairs.len()
        invariant
            i <= pairs.len(),
            out@.len() == i,
            forall|j: int| 0 <= j < i ==> out@[j].0@ == pairs@[j].0@ && out@[j].1@ == pairs@[j].1@,
        decreases pairs.len() - i,
    {
        let key = pairs[i].0.clone();
        let value = pairs[i].1.clone();
        out.push((key, value));
        i += 1;
    }
    assert(pairs_view(out@) =~= pairs_view(pairs@));
    out
}

} // verus!
