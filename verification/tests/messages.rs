use json_macros::{
    best_span, expected_but_found, Delim, ErrorKind, Expr, ObjectFault, Span, Token, TokenTree,
};

fn at(lo: u32) -> Span {
    Span { lo, hi: lo + 1 }
}

fn leaf(lo: u32, tok: Token) -> TokenTree {
    TokenTree::Leaf(at(lo), tok)
}

#[test]
fn tokens_are_shown_by_their_text() {
    assert_eq!(Token::Str("a b".to_string()).text(), "\"a b\"");
    assert_eq!(Token::Str(String::new()).text(), "\"\"");
    assert_eq!(Token::Integer("0x1fu8".to_string()).text(), "0x1fu8");
    assert_eq!(Token::Float("1.5f32".to_string()).text(), "1.5f32");
    assert_eq!(Token::Ident { name: "null".to_string(), plain: true }.text(), "null");
    assert_eq!(Token::Ident { name: "null".to_string(), plain: false }.text(), "null");
    assert_eq!(Token::Comma.text(), ",");
    assert_eq!(Token::Colon.text(), ":");
    assert_eq!(Token::Other("=>".to_string()).text(), "=>");
}

#[test]
fn brackets_are_shown_in_pairs() {
    assert_eq!((Delim::Bracket.open(), Delim::Bracket.close()), ("[", "]"));
    assert_eq!((Delim::Brace.open(), Delim::Brace.close()), ("{", "}"));
    assert_eq!((Delim::Paren.open(), Delim::Paren.close()), ("(", ")"));
}

#[test]
fn groups_are_shown_with_their_children() {
    let sp = Span { lo: 0, hi: 9 };
    assert_eq!(TokenTree::Group(sp, Delim::Bracket, vec![]).text(), "[]");
    assert_eq!(TokenTree::Group(sp, Delim::Paren, vec![leaf(1, Token::Comma)]).text(), "(,)");
    let inner = TokenTree::Group(
        sp,
        Delim::Brace,
        vec![
            leaf(1, Token::Str("k".to_string())),
            leaf(2, Token::Colon),
            leaf(3, Token::Integer("1".to_string())),
        ],
    );
    assert_eq!(inner.text(), "{\"k\" : 1}");
    let outer = TokenTree::Group(
        sp,
        Delim::Bracket,
        vec![inner, leaf(5, Token::Comma), TokenTree::Sequence(sp, vec![leaf(6, Token::Colon)])],
    );
    assert_eq!(outer.text(), "[{\"k\" : 1} , $(:)]");
}

#[test]
fn copies_are_equal() {
    let sp = Span { lo: 0, hi: 9 };
    let tt = TokenTree::Group(
        sp,
        Delim::Brace,
        vec![
            leaf(1, Token::Str("k".to_string())),
            TokenTree::Sequence(sp, vec![leaf(2, Token::Float("1.0".to_string()))]),
            TokenTree::Group(sp, Delim::Paren, vec![]),
        ],
    );
    assert_eq!(tt.clone(), tt);
    assert_eq!(tt.clone().text(), tt.text());
}

#[test]
fn a_token_is_reported_at_its_own_position() {
    let around = Span { lo: 0, hi: 20 };
    assert_eq!(best_span(around, &leaf(4, Token::Colon)), at(4));
}

#[test]
fn a_group_is_reported_at_the_enclosing_position() {
    let around = Span { lo: 0, hi: 20 };
    let own = Span { lo: 3, hi: 8 };
    assert_eq!(best_span(around, &TokenTree::Group(own, Delim::Paren, vec![])), around);
    assert_eq!(best_span(around, &TokenTree::Sequence(own, vec![])), around);
}

#[test]
fn expectation_names_both_sides() {
    let around = Span { lo: 0, hi: 20 };
    let kind = ErrorKind::MalformedObjectEntry(ObjectFault::MissingColon);
    let e = expected_but_found(kind, around, "`:`", &leaf(4, Token::Integer("1".to_string())));
    assert_eq!(e.kind, kind);
    assert_eq!(e.message, "expected `:` but found: `1`");
    assert_eq!(e.span, at(4));
    let found = TokenTree::Group(Span { lo: 3, hi: 5 }, Delim::Bracket, vec![]);
    let e = expected_but_found(ErrorKind::MalformedArraySeparator, around, "`,`", &found);
    assert_eq!(e.kind, ErrorKind::MalformedArraySeparator);
    assert_eq!(e.message, "expected `,` but found: `[]`");
    assert_eq!(e.span, around);
}

#[test]
fn copies_of_expressions_are_equal() {
    let expr = Expr::List(vec![
        Expr::Null,
        Expr::Boolean(true),
        Expr::Integer(-3),
        Expr::Float("1.5".to_string()),
        Expr::Str("s".to_string()),
        Expr::Object(vec![
            ("k".to_string(), Expr::List(vec![])),
            ("k".to_string(), Expr::Escape(vec![leaf(1, Token::Other("+".to_string()))])),
        ]),
    ]);
    assert_eq!(expr.clone(), expr);
}

#[test]
fn copies_of_errors_are_equal() {
    let around = Span { lo: 0, hi: 20 };
    let e = expected_but_found(ErrorKind::MalformedArraySeparator, around, "`,`", &leaf(4, Token::Colon));
    assert_eq!(e.clone(), e);
    assert_eq!(e.clone().message, "expected `,` but found: `:`");
}
