use json_macros::{tt_to_expr, Delim, Expr, Span, Token, TokenTree};
use rustc_serialize::json::Json;
use std::collections::BTreeMap;

fn at(lo: u32) -> Span {
    Span { lo, hi: lo + 1 }
}

fn num(lo: u32, text: &str) -> TokenTree {
    TokenTree::Leaf(at(lo), Token::Integer(text.to_string()))
}

fn decimal(lo: u32, text: &str) -> TokenTree {
    TokenTree::Leaf(at(lo), Token::Float(text.to_string()))
}

fn string(lo: u32, text: &str) -> TokenTree {
    TokenTree::Leaf(at(lo), Token::Str(text.to_string()))
}

fn word(lo: u32, name: &str) -> TokenTree {
    TokenTree::Leaf(at(lo), Token::Ident { name: name.to_string(), plain: true })
}

fn comma(lo: u32) -> TokenTree {
    TokenTree::Leaf(at(lo), Token::Comma)
}

fn colon(lo: u32) -> TokenTree {
    TokenTree::Leaf(at(lo), Token::Colon)
}

fn array(tts: Vec<TokenTree>) -> TokenTree {
    TokenTree::Group(Span { lo: 0, hi: 99 }, Delim::Bracket, tts)
}

fn object(tts: Vec<TokenTree>) -> TokenTree {
    TokenTree::Group(Span { lo: 0, hi: 99 }, Delim::Brace, tts)
}

/// Evaluates an expression as the host would: each node is one constructor
/// of the structured value.
fn build(expr: &Expr) -> Json {
    match expr {
        Expr::Null => Json::Null,
        Expr::Boolean(b) => Json::Boolean(*b),
        Expr::Integer(v) => Json::I64(*v),
        Expr::Float(numeral) => Json::F64(numeral.replace('_', "").parse().unwrap()),
        Expr::Str(s) => Json::String(s.clone()),
        Expr::List(items) => Json::Array(items.iter().map(build).collect()),
        Expr::Object(pairs) => {
            let mut ob = BTreeMap::new();
            for (key, value) in pairs.iter() {
                ob.insert(key.clone(), build(value));
            }
            Json::Object(ob)
        }
        Expr::Escape(_) => panic!("host code has no value here"),
    }
}

fn value_of(tt: &TokenTree) -> Json {
    build(&tt_to_expr(tt).unwrap())
}

#[test]
fn scalars_build_scalar_values() {
    assert_eq!(value_of(&word(0, "null")), Json::Null);
    assert_eq!(value_of(&word(0, "true")), Json::Boolean(true));
    assert_eq!(value_of(&word(0, "false")), Json::Boolean(false));
    assert_eq!(value_of(&num(0, "42u8")), Json::I64(42));
    assert_eq!(value_of(&num(0, "18446744073709551615")), Json::I64(-1));
    assert_eq!(value_of(&decimal(0, "1.5f64")), Json::F64(1.5));
    assert_eq!(value_of(&decimal(0, "1_0.2_5e1")), Json::F64(102.5));
    assert_eq!(value_of(&string(0, "text")), Json::String("text".to_string()));
}

#[test]
fn empty_composites_build_empty_values() {
    assert_eq!(value_of(&array(vec![])), Json::Array(vec![]));
    assert_eq!(value_of(&object(vec![])), Json::Object(BTreeMap::new()));
}

#[test]
fn list_has_the_order_of_the_source() {
    // ["c", "a", "b"]
    let tt = array(vec![string(1, "c"), comma(2), string(3, "a"), comma(4), string(5, "b")]);
    let built = value_of(&tt);
    let items = built.as_array().unwrap();
    assert_eq!(items.len(), 3);
    assert_eq!(items[0], Json::String("c".to_string()));
    assert_eq!(items[1], Json::String("a".to_string()));
    assert_eq!(items[2], Json::String("b".to_string()));
}

#[test]
fn later_duplicate_key_wins() {
    // {"k":1,"k":2}
    let tt = object(vec![
        string(1, "k"),
        colon(2),
        num(3, "1"),
        comma(4),
        string(5, "k"),
        colon(6),
        num(7, "2"),
    ]);
    let built = value_of(&tt);
    assert_eq!(built.find("k"), Some(&Json::I64(2)));
    assert_eq!(built.as_object().unwrap().len(), 1);
}

#[test]
fn object_is_ordered_by_key() {
    // {"b": 1, "a": 2}
    let tt = object(vec![
        string(1, "b"),
        colon(2),
        num(3, "1"),
        comma(4),
        string(5, "a"),
        colon(6),
        num(7, "2"),
    ]);
    let built = value_of(&tt);
    let keys: Vec<&String> = built.as_object().unwrap().keys().collect();
    assert_eq!(keys, vec!["a", "b"]);
    assert_eq!(built.find("a"), Some(&Json::I64(2)));
    assert_eq!(built.find("b"), Some(&Json::I64(1)));
}

#[test]
fn nested_literal_builds_the_nested_value() {
    // [{"a": [1,2]}, null]
    let inner = array(vec![num(8, "1"), comma(9), num(10, "2")]);
    let ob = object(vec![string(2, "a"), colon(5), inner]);
    let tt = array(vec![ob, comma(13), word(15, "null")]);
    let mut expected_ob = BTreeMap::new();
    expected_ob.insert("a".to_string(), Json::Array(vec![Json::I64(1), Json::I64(2)]));
    assert_eq!(value_of(&tt), Json::Array(vec![Json::Object(expected_ob), Json::Null]));
}
