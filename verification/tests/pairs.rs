use test_proc_macros::model::{SourceError, Token};
use test_proc_macros::pairs::{
    accept_as_ident, my_macro, my_macro_source, Expected, MacroInputError, MyItem, MyPair,
};

fn ident(s: &str) -> Token {
    Token::Ident(s.to_string())
}

fn lit(s: &str) -> Token {
    Token::Literal(s.to_string())
}

fn sam_call() -> Vec<Token> {
    vec![
        ident("name"),
        Token::Punct('='),
        lit("\"Sam\""),
        Token::Punct(','),
        ident("call"),
        Token::Punct('='),
        lit("\"09\""),
    ]
}

fn err(expected: Expected, at: usize, at_end: bool) -> MacroInputError {
    MacroInputError { expected, at, at_end, keyword: None }
}

fn check(res: Result<String, MacroInputError>, expected: Expected, at: usize, at_end: bool) {
    let e = res.unwrap_err();
    assert_eq!(e.expected, expected);
    assert_eq!(e.at, at);
    assert_eq!(e.at_end, at_end);
}

#[test]
fn expands_pairs_into_map_inserts() {
    let out = my_macro(&sam_call()).unwrap();
    assert_eq!(
        out,
        "let mut map = std::collections::HashMap::new(); map.insert(\"name\", \"Sam\"); map.insert(\"call\", \"09\"); "
    );
}

#[test]
fn parses_pairs_in_order() {
    let item = MyItem::parse(&sam_call()).unwrap();
    assert_eq!(item.pairs.len(), 2);
    assert_eq!(item.pairs[0].k, "name");
    assert_eq!(item.pairs[0].v, "\"Sam\"");
    assert_eq!(item.pairs[1].k, "call");
    assert_eq!(item.pairs[1].v, "\"09\"");
}

#[test]
fn one_pair_and_raw_forms() {
    let ts = vec![ident("r#type"), Token::Punct('='), lit("r#\"x\"#")];
    assert_eq!(
        my_macro(&ts).unwrap(),
        "let mut map = std::collections::HashMap::new(); map.insert(\"r#type\", r#\"x\"#); "
    );
}

#[test]
fn pair_to_tokens() {
    let p = MyPair { k: "name".to_string(), v: "\"Sam\"".to_string() };
    assert_eq!(p.to_tokens(), "map.insert(\"name\", \"Sam\"); ");
}

#[test]
fn pair_parse_at_offset() {
    let p = MyPair::parse(&sam_call(), 4).unwrap();
    assert_eq!(p.k, "call");
    assert_eq!(p.v, "\"09\"");
}

#[test]
fn empty_input_is_refused() {
    check(my_macro(&vec![]), Expected::Ident, 0, true);
}

#[test]
fn keyword_is_no_identifier() {
    let ts = vec![ident("type"), Token::Punct('='), lit("\"x\"")];
    let e = my_macro(&ts).unwrap_err();
    assert_eq!(e.expected, Expected::Ident);
    assert_eq!(e.at, 0);
    assert_eq!(e.keyword.as_deref(), Some("type"));
    assert_eq!(e.message(), "expected identifier, found keyword `type`");
    let ts = vec![ident("_"), Token::Punct('='), lit("\"x\"")];
    check(my_macro(&ts), Expected::Ident, 0, false);
}

#[test]
fn group_is_no_identifier() {
    let ts = vec![Token::Group("(a)".to_string()), Token::Punct('='), lit("\"x\"")];
    check(my_macro(&ts), Expected::Ident, 0, false);
}

#[test]
fn missing_equals() {
    let ts = vec![ident("a"), Token::Punct(':'), lit("\"x\"")];
    check(my_macro(&ts), Expected::Eq, 1, false);
    check(my_macro(&vec![ident("a")]), Expected::Eq, 1, true);
}

#[test]
fn value_must_be_a_string_literal() {
    let ts = vec![ident("a"), Token::Punct('='), lit("42")];
    check(my_macro(&ts), Expected::StrLit, 2, false);
    let ts = vec![ident("a"), Token::Punct('='), lit("b\"x\"")];
    check(my_macro(&ts), Expected::StrLit, 2, false);
    let ts = vec![ident("a"), Token::Punct('='), ident("b")];
    check(my_macro(&ts), Expected::StrLit, 2, false);
    let ts = vec![ident("a"), Token::Punct('=')];
    check(my_macro(&ts), Expected::StrLit, 2, true);
}

#[test]
fn pairs_are_separated_by_commas() {
    let ts = vec![ident("a"), Token::Punct('='), lit("\"x\""), Token::Punct(';')];
    check(my_macro(&ts), Expected::Comma, 3, false);
}

#[test]
fn trailing_comma_is_refused() {
    let ts = vec![ident("a"), Token::Punct('='), lit("\"x\""), Token::Punct(',')];
    check(my_macro(&ts), Expected::Ident, 4, true);
}

#[test]
fn identifiers_and_keywords() {
    assert!(accept_as_ident("name"));
    assert!(accept_as_ident("r#type"));
    assert!(accept_as_ident("Type"));
    assert!(!accept_as_ident("type"));
    assert!(!accept_as_ident("Self"));
    assert!(!accept_as_ident("_"));
    assert!(!accept_as_ident("yield"));
}

#[test]
fn refusal_messages() {
    assert_eq!(err(Expected::Ident, 0, true).message(), "unexpected end of input, expected identifier");
    assert_eq!(err(Expected::Ident, 0, false).message(), "expected identifier");
    assert_eq!(err(Expected::Eq, 1, false).message(), "expected `=`");
    assert_eq!(err(Expected::Eq, 1, true).message(), "expected `=`");
    assert_eq!(err(Expected::StrLit, 2, false).message(), "expected string literal");
    assert_eq!(err(Expected::StrLit, 2, true).message(), "unexpected end of input, expected string literal");
    assert_eq!(err(Expected::Comma, 3, false).message(), "expected `,`");
}

#[test]
fn macro_from_source() {
    assert_eq!(
        my_macro_source("name = \"Sam\", call = \"09\"").unwrap(),
        "let mut map = std::collections::HashMap::new(); map.insert(\"name\", \"Sam\"); map.insert(\"call\", \"09\"); "
    );
    match my_macro_source("name = \"Sam\",") {
        Err(SourceError::Input(m, at)) => {
            assert_eq!(m, "unexpected end of input, expected identifier");
            assert_eq!(at, 4);
        }
        other => panic!("unexpected {:?}", other),
    }
    match my_macro_source("fn = \"x\"") {
        Err(SourceError::Input(m, at)) => {
            assert_eq!(m, "expected identifier, found keyword `fn`");
            assert_eq!(at, 0);
        }
        other => panic!("unexpected {:?}", other),
    }
    assert!(matches!(my_macro_source("a = \"unclosed"), Err(SourceError::Syntax(_))));
}

#[test]
fn source_is_lexed_into_top_level_trees() {
    match my_macro_source("a = (b c)") {
        Err(SourceError::Input(m, at)) => {
            assert_eq!(m, "expected string literal");
            assert_eq!(at, 2);
        }
        other => panic!("unexpected {:?}", other),
    }
    match my_macro_source("a = \"x\" (b)") {
        Err(SourceError::Input(m, at)) => {
            assert_eq!(m, "expected `,`");
            assert_eq!(at, 3);
        }
        other => panic!("unexpected {:?}", other),
    }
}

#[test]
fn key_literal_escapes_as_proc_macro2_does() {
    let p = MyPair { k: "a\"b".to_string(), v: "\"v\"".to_string() };
    assert_eq!(p.to_tokens(), "map.insert(\"a\\\"b\", \"v\"); ");
}

#[test]
fn two_inputs_joined_by_a_comma() {
    let a = my_macro_source("name = \"Sam\"").unwrap();
    let b = my_macro_source("call = \"09\", name = \"Al\"").unwrap();
    let ab = my_macro_source("name = \"Sam\" , call = \"09\", name = \"Al\"").unwrap();
    let header = "let mut map = std::collections::HashMap::new(); ";
    assert_eq!(ab, format!("{}{}{}", header, &a[header.len()..], &b[header.len()..]));
}
