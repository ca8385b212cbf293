//! What holds of every translation, proved from the definitions.

use crate::error::{expectation_error, ErrorKind, ErrorView};
use crate::expr::ExprView;
use crate::token::{Delim, Span, TokenView, TreeView};
use crate::translate::{
    array_items, classification, entry_count, is_comma, is_scalar, object_entry, object_pairs,
    translation, unexpected_token_error,
};
use vstd::prelude::*;

verus! {

/// The fault at position `i` of an array body, taken by itself: something
/// other than a comma at an odd position, or a value at an even position that
/// does not translate.
pub open spec fn array_fault(sp: Span, tts: Seq<TreeView>, i: int) -> Option<ErrorView> {
    if i % 2 == 1 {
        if is_comma(tts[i]) {
            None
        } else {
            Some(expectation_error(ErrorKind::MalformedArraySeparator, sp, "`,`"@, tts[i]))
        }
    } else {
        match translation(tts[i]) {
            Ok(_) => None,
            Err(e) => Some(e),
        }
    }
}

/// The value at position `2 * k` of an array body.
pub open spec fn array_value(tts: Seq<TreeView>, k: int) -> ExprView {
    translation(tts[2 * k])->Ok_0
}

/// The fault in the `k`-th entry of an object body, taken by itself.
pub open spec fn object_fault(sp: Span, tts: Seq<TreeView>, k: int) -> Option<ErrorView> {
    match object_entry(sp, tts, 4 * k) {
        Ok(_) => None,
        Err(e) => Some(e),
    }
}

/// The key and value of the `k`-th entry of an object body.
pub open spec fn object_pair(sp: Span, tts: Seq<TreeView>, k: int) -> (Seq<char>, ExprView) {
    object_entry(sp, tts, 4 * k)->Ok_0
}

/// The classifier is total on scalars and refuses everything else: a scalar
/// token translates, and any other token fails as an unexpected token, at its
/// own position, with a message that shows the token.
pub proof fn lemma_classifier_domain(sp: Span, tok: TokenView)
    ensures
        is_scalar(tok) ==> classification(sp, tok) is Ok,
        !is_scalar(tok) ==> classification(sp, tok) == Err::<ExprView, ErrorView>(
            unexpected_token_error(sp, tok),
        ),
        unexpected_token_error(sp, tok).kind == ErrorKind::UnexpectedToken,
        unexpected_token_error(sp, tok).span == sp,
{
}

/// Without a fault among the first `n` positions of an array body, the values
/// at the even positions come out, in their order.
pub proof fn lemma_array_prefix_order(sp: Span, tts: Seq<TreeView>, n: nat)
    requires
        n <= tts.len(),
        forall|i: int| 0 <= i < n ==> array_fault(sp, tts, i) is None,
    ensures
        array_items(sp, tts, n) == Ok::<Seq<ExprView>, ErrorView>(
            Seq::new((n + 1) / 2, |k: int| array_value(tts, k)),
        ),
    decreases n,
{
    if n > 0 {
        lemma_array_prefix_order(sp, tts, (n - 1) as nat);
        let before = Seq::new(n / 2, |k: int| array_value(tts, k));
        let after = Seq::new((n + 1) / 2, |k: int| array_value(tts, k));
        assert(array_fault(sp, tts, n - 1) is None);
        if (n - 1) % 2 == 1 {
            assert(after =~= before);
        } else {
            assert(after =~= before.push(array_value(tts, (n - 1) / 2)));
        }
    } else {
        assert(Seq::new(0, |k: int| array_value(tts, k)) =~= Seq::<ExprView>::empty());
    }
}

/// An array keeps the order of its source: where every odd position of the
/// body holds a comma and every even position a value that translates, the
/// array translates to the list of those values, in the order of the source.
pub proof fn lemma_array_order(sp: Span, tts: Seq<TreeView>)
    requires
        forall|i: int| 0 <= i < tts.len() ==> array_fault(sp, tts, i) is None,
    ensures
        translation(TreeView::Group(sp, Delim::Bracket, tts)) == Ok::<ExprView, ErrorView>(
            ExprView::List(Seq::new((tts.len() + 1) / 2, |k: int| array_value(tts, k))),
        ),
{
    lemma_array_prefix_order(sp, tts, tts.len());
}

/// A fault among the first `n` trees of an array body is the outcome for any
/// longer part of the body.
pub proof fn lemma_array_fault_stays(sp: Span, tts: Seq<TreeView>, n: nat, m: nat)
    requires
        n <= m <= tts.len(),
        array_items(sp, tts, n) is Err,
    ensures
        array_items(sp, tts, m) == array_items(sp, tts, n),
    decreases m - n,
{
    if n < m {
        lemma_array_fault_stays(sp, tts, n, (m - 1) as nat);
    }
}

/// An array fails fast: the first fault in its body, in the order of the
/// source, is the outcome of the whole array, unchanged.
pub proof fn lemma_array_first_fault(sp: Span, tts: Seq<TreeView>, i: int)
    requires
        0 <= i < tts.len(),
        array_fault(sp, tts, i) is Some,
        forall|j: int| 0 <= j < i ==> array_fault(sp, tts, j) is None,
    ensures
        translation(TreeView::Group(sp, Delim::Bracket, tts)) == Err::<ExprView, ErrorView>(
            array_fault(sp, tts, i)->0,
        ),
{
    lemma_array_prefix_order(sp, tts, i as nat);
    assert(array_items(sp, tts, (i + 1) as nat) == Err::<Seq<ExprView>, ErrorView>(
        array_fault(sp, tts, i)->0,
    ));
    lemma_array_fault_stays(sp, tts, (i + 1) as nat, tts.len());
}

/// The first `n` trees of an array body give values if and only if none of
/// their positions holds a fault.
pub proof fn lemma_array_prefix_succeeds_iff(sp: Span, tts: Seq<TreeView>, n: nat)
    requires
        n <= tts.len(),
    ensures
        array_items(sp, tts, n) is Ok <==> forall|i: int|
            0 <= i < n ==> array_fault(sp, tts, i) is None,
    decreases n,
{
    if n > 0 {
        lemma_array_prefix_succeeds_iff(sp, tts, (n - 1) as nat);
        if array_items(sp, tts, n) is Ok {
            assert(array_fault(sp, tts, n - 1) is None);
        }
        if forall|i: int| 0 <= i < n ==> array_fault(sp, tts, i) is None {
            lemma_array_prefix_order(sp, tts, n);
        }
    }
}

/// Success is owed exactly where nothing is at fault: an array translates if
/// and only if no position of its body holds a fault.
pub proof fn lemma_array_succeeds_iff(sp: Span, tts: Seq<TreeView>)
    ensures
        translation(TreeView::Group(sp, Delim::Bracket, tts)) is Ok <==> forall|i: int|
            0 <= i < tts.len() ==> array_fault(sp, tts, i) is None,
{
    lemma_array_prefix_succeeds_iff(sp, tts, tts.len());
}

/// What the first `n` trees of an array body give does not depend on what
/// follows them.
pub proof fn lemma_array_prefix(sp: Span, tts: Seq<TreeView>, more: Seq<TreeView>, n: nat)
    requires
        n <= tts.len(),
    ensures
        array_items(sp, tts + more, n) == array_items(sp, tts, n),
    decreases n,
{
    if n > 0 {
        lemma_array_prefix(sp, tts, more, (n - 1) as nat);
        assert((tts + more)[n - 1] == tts[n - 1]);
    }
}

/// A comma behind the last value of an array changes nothing: the array
/// translates as it does without that comma.
pub proof fn lemma_trailing_comma(sp: Span, tts: Seq<TreeView>, comma_sp: Span)
    requires
        tts.len() % 2 == 1,
    ensures
        translation(
            TreeView::Group(sp, Delim::Bracket, tts.push(TreeView::Leaf(comma_sp, TokenView::Comma))),
        ) == translation(TreeView::Group(sp, Delim::Bracket, tts)),
{
    let comma = TreeView::Leaf(comma_sp, TokenView::Comma);
    let longer = tts.push(comma);
    assert(longer =~= tts + seq![comma]);
    lemma_array_prefix(sp, tts, seq![comma], tts.len());
    assert(longer[tts.len() as int] == comma);
    assert(is_comma(comma));
}

/// Without a fault among the first `k` entries of an object body, the keys
/// with their values come out, in their order.
pub proof fn lemma_object_prefix_order(sp: Span, tts: Seq<TreeView>, k: nat)
    requires
        k <= entry_count(tts.len()),
        forall|j: int| 0 <= j < k ==> object_fault(sp, tts, j) is None,
    ensures
        object_pairs(sp, tts, k) == Ok::<Seq<(Seq<char>, ExprView)>, ErrorView>(
            Seq::new(k, |j: int| object_pair(sp, tts, j)),
        ),
    decreases k,
{
    if k > 0 {
        lemma_object_prefix_order(sp, tts, (k - 1) as nat);
        let before = Seq::new((k - 1) as nat, |j: int| object_pair(sp, tts, j));
        let after = Seq::new(k, |j: int| object_pair(sp, tts, j));
        assert(object_fault(sp, tts, k - 1) is None);
        assert(after =~= before.push(object_pair(sp, tts, k - 1)));
    } else {
        assert(Seq::new(0, |j: int| object_pair(sp, tts, j)) =~= Seq::<
            (Seq<char>, ExprView),
        >::empty());
    }
}

/// An object keeps the order of its source: where every entry of the body is
/// `name : value` with a value that translates, the object translates to the
/// keys with their values, in the order of the source. A key that occurs
/// twice comes out twice.
pub proof fn lemma_object_order(sp: Span, tts: Seq<TreeView>)
    requires
        forall|j: int| 0 <= j < entry_count(tts.len()) ==> object_fault(sp, tts, j) is None,
    ensures
        translation(TreeView::Group(sp, Delim::Brace, tts)) == Ok::<ExprView, ErrorView>(
            ExprView::Object(
                Seq::new(entry_count(tts.len()), |j: int| object_pair(sp, tts, j)),
            ),
        ),
{
    lemma_object_prefix_order(sp, tts, entry_count(tts.len()));
}

/// A fault among the first `k` entries of an object body is the outcome for
/// any longer part of the body.
pub proof fn lemma_object_fault_stays(sp: Span, tts: Seq<TreeView>, k: nat, m: nat)
    requires
        k <= m <= entry_count(tts.len()),
        object_pairs(sp, tts, k) is Err,
    ensures
        object_pairs(sp, tts, m) == object_pairs(sp, tts, k),
    decreases m - k,
{
    if k < m {
        lemma_object_fault_stays(sp, tts, k, (m - 1) as nat);
    }
}

/// An object fails fast: the fault in its first faulty entry, in the order of
/// the source, is the outcome of the whole object, unchanged.
pub proof fn lemma_object_first_fault(sp: Span, tts: Seq<TreeView>, k: int)
    requires
        0 <= k < entry_count(tts.len()),
        object_fault(sp, tts, k) is Some,
        forall|j: int| 0 <= j < k ==> object_fault(sp, tts, j) is None,
    ensures
        translation(TreeView::Group(sp, Delim::Brace, tts)) == Err::<ExprView, ErrorView>(
            object_fault(sp, tts, k)->0,
        ),
{
    lemma_object_prefix_order(sp, tts, k as nat);
    assert(object_pairs(sp, tts, (k + 1) as nat) == Err::<Seq<(Seq<char>, ExprView)>, ErrorView>(
        object_fault(sp, tts, k)->0,
    ));
    lemma_object_fault_stays(sp, tts, (k + 1) as nat, entry_count(tts.len()));
}

/// The first `k` entries of an object body give keys with values if and only
/// if none of them holds a fault.
pub proof fn lemma_object_prefix_succeeds_iff(sp: Span, tts: Seq<TreeView>, k: nat)
    requires
        k <= entry_count(tts.len()),
    ensures
        object_pairs(sp, tts, k) is Ok <==> forall|j: int|
            0 <= j < k ==> object_fault(sp, tts, j) is None,
    decreases k,
{
    if k > 0 {
        lemma_object_prefix_succeeds_iff(sp, tts, (k - 1) as nat);
        if object_pairs(sp, tts, k) is Ok {
            assert(object_fault(sp, tts, k - 1) is None);
        }
        if forall|j: int| 0 <= j < k ==> object_fault(sp, tts, j) is None {
            lemma_object_prefix_order(sp, tts, k);
        }
    }
}

/// Success is owed exactly where nothing is at fault: an object translates
/// if and only if no entry of its body holds a fault.
pub proof fn lemma_object_succeeds_iff(sp: Span, tts: Seq<TreeView>)
    ensures
        translation(TreeView::Group(sp, Delim::Brace, tts)) is Ok <==> forall|j: int|
            0 <= j < entry_count(tts.len()) ==> object_fault(sp, tts, j) is None,
{
    lemma_object_prefix_succeeds_iff(sp, tts, entry_count(tts.len()));
}

/// Empty composites are values: an empty bracket group translates to the
/// empty list and an empty brace group to the empty object.
pub proof fn lemma_empty_composites(sp: Span)
    ensures
        translation(TreeView::Group(sp, Delim::Bracket, Seq::empty())) == Ok::<
            ExprView,
            ErrorView,
        >(ExprView::List(Seq::empty())),
        translation(TreeView::Group(sp, Delim::Brace, Seq::empty())) == Ok::<ExprView, ErrorView>(
            ExprView::Object(Seq::empty()),
        ),
{
}

/// An escape is opaque: whatever tokens a parenthesis group holds, it
/// translates, and to the escape of exactly those tokens. None of them is
/// read as part of the literal's own grammar.
pub proof fn lemma_escape_is_opaque(sp: Span, tts: Seq<TreeView>)
    ensures
        translation(TreeView::Group(sp, Delim::Paren, tts)) == Ok::<ExprView, ErrorView>(
            ExprView::Escape(tts),
        ),
{
}

} // verus!
