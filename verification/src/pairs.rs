//! The input grammar of `my_macro!`: a non-empty, comma-separated list of
//! `name = "value"` pairs, and the map-building statements it expands to.
use vstd::prelude::*;
use vstd::string::*;
use crate::model::{SourceError, Token, TokenView, tokens_view};
use crate::text::str_eq;
use crate::outside::{
    lex, lexed_tokens, parses_as_lit_str, proc_macro2_string_literal, string_literal,
    syn_lit_str_accepts,
};

verus! {

/// The words that an identifier token may not be when it is read as a plain
/// identifier: `_` and Rust's strict, reserved and weak keywords.
pub open spec fn is_keyword(s: Seq<char>) -> bool {
    s == "_"@
        || s == "abstract"@
        || s == "as"@
        || s == "async"@
        || s == "await"@
        || s == "become"@
        || s == "box"@
        || s == "break"@
        || s == "const"@
        || s == "continue"@
        || s == "crate"@
        || s == "do"@
        || s == "dyn"@
        || s == "else"@
        || s == "enum"@
        || s == "extern"@
        || s == "false"@
        || s == "final"@
        || s == "fn"@
        || s == "for"@
        || s == "if"@
        || s == "impl"@
        || s == "in"@
        || s == "let"@
        || s == "loop"@
        || s == "macro"@
        || s == "match"@
        || s == "mod"@
        || s == "move"@
        || s == "mut"@
        || s == "override"@
        || s == "priv"@
        || s == "pub"@
        || s == "ref"@
        || s == "return"@
        || s == "Self"@
        || s == "self"@
        || s == "static"@
        || s == "struct"@
        || s == "super"@
        || s == "trait"@
        || s == "true"@
        || s == "try"@
        || s == "type"@
        || s == "typeof"@
        || s == "unsafe"@
        || s == "unsized"@
        || s == "use"@
        || s == "virtual"@
        || s == "where"@
        || s == "while"@
        || s == "yield"@
}

/// The words that `syn` refuses to read as an identifier, listed as a set: `_`
/// and the strict, reserved and weak keywords of the Rust reference.
pub open spec fn rust_keywords() -> Set<Seq<char>> {
    set![
        "_"@, "abstract"@, "as"@, "async"@, "await"@, "become"@, "box"@, "break"@, "const"@,
        "continue"@, "crate"@, "do"@, "dyn"@, "else"@, "enum"@, "extern"@, "false"@, "final"@,
        "fn"@, "for"@, "if"@, "impl"@, "in"@, "let"@, "loop"@, "macro"@, "match"@, "mod"@,
        "move"@, "mut"@, "override"@, "priv"@, "pub"@, "ref"@, "return"@, "Self"@, "self"@,
        "static"@, "struct"@, "super"@, "trait"@, "true"@, "try"@, "type"@, "typeof"@,
        "unsafe"@, "unsized"@, "use"@, "virtual"@, "where"@, "while"@, "yield"@
    ]
}

/// A name is refused as a keyword exactly when it is one of the listed words:
/// every other identifier (`key`, `value`, `id`, ...) is read as a name.
pub proof fn lemma_keywords_are_listed(s: Seq<char>)
    ensures
        is_keyword(s) <==> rust_keywords().contains(s),
{
}

/// Whether an identifier token, written `repr`, is read as an identifier (and
/// not refused as a keyword).
pub fn accept_as_ident(repr: &str) -> (res: bool)
    ensures
        res == !is_keyword(repr@),
{
    !(str_eq(repr, "_")
        || str_eq(repr, "abstract")
        || str_eq(repr, "as")
        || str_eq(repr, "async")
        || str_eq(repr, "await")
        || str_eq(repr, "become")
        || str_eq(repr, "box")
        || str_eq(repr, "break")
        || str_eq(repr, "const")
        || str_eq(repr, "continue")
        || str_eq(repr, "crate")
        || str_eq(repr, "do")
        || str_eq(repr, "dyn")
        || str_eq(repr, "else")
        || str_eq(repr, "enum")
        || str_eq(repr, "extern")
        || str_eq(repr, "false")
        || str_eq(repr, "final")
        || str_eq(repr, "fn")
        || str_eq(repr, "for")
        || str_eq(repr, "if")
        || str_eq(repr, "impl")
        || str_eq(repr, "in")
        || str_eq(repr, "let")
        || str_eq(repr, "loop")
        || str_eq(repr, "macro")
        || str_eq(repr, "match")
        || str_eq(repr, "mod")
        || str_eq(repr, "move")
        || str_eq(repr, "mut")
        || str_eq(repr, "override")
        || str_eq(repr, "priv")
        || str_eq(repr, "pub")
        || str_eq(repr, "ref")
        || str_eq(repr, "return")
        || str_eq(repr, "Self")
        || str_eq(repr, "self")
        || str_eq(repr, "static")
        || str_eq(repr, "struct")
        || str_eq(repr, "super")
        || str_eq(repr, "trait")
        || str_eq(repr, "true")
        || str_eq(repr, "try")
        || str_eq(repr, "type")
        || str_eq(repr, "typeof")
        || str_eq(repr, "unsafe")
        || str_eq(repr, "unsized")
        || str_eq(repr, "use")
        || str_eq(repr, "virtual")
        || str_eq(repr, "where")
        || str_eq(repr, "while")
        || str_eq(repr, "yield"))
}

/// What a pair's parser expected where it failed.
#[derive(Debug, Clone, Copy, PartialEq, Eq, Structural)]
pub enum Expected {
    /// an identifier (that is not a keyword)
    Ident,
    /// `=`
    Eq,
    /// a string literal
    StrLit,
    /// `,`
    Comma,
}

/// A refusal of `my_macro!`'s input.
#[derive(Debug)]
pub struct MacroInputError {
    /// What was expected.
    pub expected: Expected,
    /// The index of the offending token (the number of tokens at the end of input).
    pub at: usize,
    /// Whether the input ended where something was expected.
    pub at_end: bool,
    /// The keyword found where an identifier was expected.
    pub keyword: Option<String>,
}

/// The view of a [`MacroInputError`].
pub struct InputErrorView {
    pub expected: Expected,
    pub at: int,
    pub at_end: bool,
    pub keyword: Option<Seq<char>>,
}

impl View for MacroInputError {
    type V = InputErrorView;

    open spec fn view(&self) -> InputErrorView {
        InputErrorView {
            expected: self.expected,
            at: self.at as int,
            at_end: self.at_end,
            keyword: match self.keyword {
                Some(k) => Some(k@),
                None => None,
            },
        }
    }
}

/// The description of a refusal, as `syn` words it: a keyword where an
/// identifier was expected is named; a missing identifier or string literal at
/// the end of the input is prefixed with `unexpected end of input, `; a missing
/// `=` or `,` is not.
pub open spec fn message_text(e: InputErrorView) -> Seq<char> {
    match e.keyword {
        Some(k) => "expected identifier, found keyword `"@ + k + "`"@,
        None => match e.expected {
            Expected::Ident => (if e.at_end { "unexpected end of input, "@ } else { Seq::empty() })
                + "expected identifier"@,
            Expected::StrLit => (if e.at_end { "unexpected end of input, "@ } else { Seq::empty() })
                + "expected string literal"@,
            Expected::Eq => "expected `=`"@,
            Expected::Comma => "expected `,`"@,
        },
    }
}

impl MacroInputError {
    /// The message the refusal is reported with.
    pub fn message(&self) -> (res: String)
        ensures
            res@ == message_text(self@),
    {
        match &self.keyword {
            Some(k) => {
                let mut s = String::from_str("expected identifier, found keyword `");
                s.append(k.as_str());
                s.append("`");
                s
            },
            None => {
                let mut s = String::new();
                match self.expected {
                    Expected::Ident => {
                        if self.at_end {
                            s.append("unexpected end of input, ");
                        }
                        s.append("expected identifier");
                    },
                    Expected::StrLit => {
                        if self.at_end {
                            s.append("unexpected end of input, ");
                        }
                        s.append("expected string literal");
                    },
                    Expected::Eq => s.append("expected `=`"),
                    Expected::Comma => s.append("expected `,`"),
                }
                s
            },
        }
    }
}

/// The spec value of an error at token `at` of a list of `len` tokens.
pub open spec fn error_at(expected: Expected, at: int, len: int) -> InputErrorView {
    InputErrorView { expected, at, at_end: at >= len, keyword: None }
}

/// The spec value of the refusal of the keyword `k` at token `at`.
pub open spec fn keyword_error_at(k: Seq<char>, at: int) -> InputErrorView {
    InputErrorView { expected: Expected::Ident, at, at_end: false, keyword: Some(k) }
}

/// One `name = "value"` pair: the name as written and the literal as written.
#[derive(Debug)]
pub struct MyPair {
    pub k: String,
    pub v: String,
}

/// The view of a pair.
pub struct PairView {
    pub k: Seq<char>,
    pub v: Seq<char>,
}

impl View for MyPair {
    type V = PairView;

    open spec fn view(&self) -> PairView {
        PairView { k: self.k@, v: self.v@ }
    }
}

/// The parsed input of `my_macro!`.
#[derive(Debug)]
pub struct MyItem {
    pub pairs: Vec<MyPair>,
}

/// The view of a list of pairs.
pub open spec fn pairs_view(ps: Seq<MyPair>) -> Seq<PairView> {
    ps.map_values(|p: MyPair| p@)
}

/// The pair that starts at token `i`: an identifier that is no keyword, `=`,
/// and a string literal.
pub open spec fn pair_at(ts: Seq<TokenView>, i: int) -> Result<PairView, InputErrorView> {
    let len = ts.len() as int;
    if i >= len {
        Err(error_at(Expected::Ident, len, len))
    } else if !(ts[i] is Ident) {
        Err(error_at(Expected::Ident, i, len))
    } else if is_keyword(ts[i]->Ident_0) {
        Err(keyword_error_at(ts[i]->Ident_0, i))
    } else if i + 1 >= len {
        Err(error_at(Expected::Eq, len, len))
    } else if ts[i + 1] != TokenView::Punct('=') {
        Err(error_at(Expected::Eq, i + 1, len))
    } else if i + 2 >= len {
        Err(error_at(Expected::StrLit, len, len))
    } else if !(ts[i + 2] is Literal) || !syn_lit_str_accepts(ts[i + 2]->Literal_0) {
        Err(error_at(Expected::StrLit, i + 2, len))
    } else {
        Ok(PairView { k: ts[i]->Ident_0, v: ts[i + 2]->Literal_0 })
    }
}

/// The pairs from token `i` on: a pair, then either the end of the input or a
/// comma and more pairs. A trailing comma is refused, and so is an empty input.
pub open spec fn pairs_from(ts: Seq<TokenView>, i: int) -> Result<Seq<PairView>, InputErrorView>
    recommends
        0 <= i <= ts.len(),
    decreases ts.len() - i,
{
    match pair_at(ts, i) {
        Err(e) => Err(e),
        Ok(p) => {
            if i + 3 >= ts.len() {
                Ok(seq![p])
            } else if ts[i + 3] != TokenView::Punct(',') {
                Err(error_at(Expected::Comma, i + 3, ts.len() as int))
            } else {
                match pairs_from(ts, i + 4) {
                    Ok(ps) => Ok(seq![p] + ps),
                    Err(e) => Err(e),
                }
            }
        },
    }
}

/// The whole input of `my_macro!`, parsed.
pub open spec fn parse_pairs(ts: Seq<TokenView>) -> Result<Seq<PairView>, InputErrorView> {
    pairs_from(ts, 0)
}

/// The statement that one pair expands to.
pub open spec fn pair_text(p: PairView) -> Seq<char> {
    "map.insert("@ + proc_macro2_string_literal(p.k) + ", "@ + p.v + "); "@
}

/// The statements that a list of pairs expands to, in order.
pub open spec fn pairs_text(ps: Seq<PairView>) -> Seq<char>
    decreases ps.len(),
{
    if ps.len() == 0 {
        Seq::empty()
    } else {
        pairs_text(ps.drop_last()) + pair_text(ps.last())
    }
}

/// The expansion of `my_macro!`: a new map, then one `insert` per pair.
pub open spec fn item_text(ps: Seq<PairView>) -> Seq<char> {
    "let mut map = std::collections::HashMap::new(); "@ + pairs_text(ps)
}

impl MyPair {
    /// Reads the pair that starts at token `i`.
    pub fn parse(ts: &Vec<Token>, i: usize) -> (res: Result<MyPair, MacroInputError>)
        ensures
            match pair_at(tokens_view(ts@), i as int) {
                Ok(p) => res matches Ok(q) && q@ == p,
                Err(e) => res matches Err(f) && f@ == e,
            },
    {
        let ghost tv = tokens_view(ts@);
        let len = ts.len();
        if i >= len {
            return Err(MacroInputError { expected: Expected::Ident, at: len, at_end: true, keyword: None });
        }
        let k = match &ts[i] {
            Token::Ident(k) => {
                if !accept_as_ident(k.as_str()) {
                    return Err(MacroInputError { expected: Expected::Ident, at: i, at_end: false, keyword: Some(k.clone()) });
                }
                k.clone()
            },
            _ => {
                return Err(MacroInputError { expected: Expected::Ident, at: i, at_end: false, keyword: None });
            },
        };
        if i + 1 >= len {
            return Err(MacroInputError { expected: Expected::Eq, at: len, at_end: true, keyword: None });
        }
        match &ts[i + 1] {
            Token::Punct(c) => {
                if *c != '=' {
                    return Err(MacroInputError { expected: Expected::Eq, at: i + 1, at_end: false, keyword: None });
                }
            },
            _ => {
                return Err(MacroInputError { expected: Expected::Eq, at: i + 1, at_end: false, keyword: None });
            },
        }
        if i + 2 >= len {
            return Err(MacroInputError { expected: Expected::StrLit, at: len, at_end: true, keyword: None });
        }
        let v = match &ts[i + 2] {
            Token::Literal(v) => {
                if !parses_as_lit_str(v.as_str()) {
                    return Err(MacroInputError { expected: Expected::StrLit, at: i + 2, at_end: false, keyword: None });
                }
                v.clone()
            },
            _ => {
                return Err(MacroInputError { expected: Expected::StrLit, at: i + 2, at_end: false, keyword: None });
            },
        };
        Ok(MyPair { k, v })
    }

    /// The statement this pair expands to: `map.insert("name", "value");`.
    pub fn to_tokens(&self) -> (res: String)
        ensures
            res@ == pair_text(self@),
    {
        let mut s = String::from_str("map.insert(");
        let key = string_literal(self.k.as_str());
        s.append(key.as_str());
        s.append(", ");
        s.append(self.v.as_str());
        s.append("); ");
        s
    }
}


/// The pairs already read, put in front of what the rest of the input gives.
pub open spec fn prepend(acc: Seq<PairView>, r: Result<Seq<PairView>, InputErrorView>) -> Result<Seq<PairView>, InputErrorView> {
    match r {
        Ok(ps) => Ok(acc + ps),
        Err(e) => Err(e),
    }
}

impl MyItem {
    /// Reads the whole input: pairs separated by commas, at least one, with no
    /// trailing comma. The first refusal is returned.
    #[verifier::rlimit(40)]
    pub fn parse(ts: &Vec<Token>) -> (res: Result<MyItem, MacroInputError>)
        ensures
            match parse_pairs(tokens_view(ts@)) {
                Ok(ps) => res matches Ok(item) && pairs_view(item.pairs@) == ps,
                Err(e) => res matches Err(f) && f@ == e,
            },
    {
        let ghost tv = tokens_view(ts@);
        let len = ts.len();
        let mut pairs: Vec<MyPair> = Vec::new();
        let mut i: usize = 0;
        assert(prepend(pairs_view(pairs@), pairs_from(tv, 0)) =~= pairs_from(tv, 0)) by {
            assert(pairs_view(pairs@) =~= Seq::<PairView>::empty());
            match pairs_from(tv, 0) {
                Ok(ps) => { assert(Seq::<PairView>::empty() + ps =~= ps); },
                Err(_) => {},
            }
        }
        loop
            invariant
                tv == tokens_view(ts@),
                len == ts@.len(),
                tv.len() == len,
                i <= len,
                prepend(pairs_view(pairs@), pairs_from(tv, i as int)) == pairs_from(tv, 0),
            decreases len - i,
        {
            let p = match MyPair::parse(ts, i) {
                Ok(p) => p,
                Err(e) => {
                    return Err(e);
                },
            };
            let ghost acc = pairs_view(pairs@);
            let ghost pv = p@;
            pairs.push(p);
            assert(pairs_view(pairs@) =~= acc.push(pv));
            if i + 3 >= len {
                assert(acc + seq![pv] =~= acc.push(pv));
                return Ok(MyItem { pairs });
            }
            let is_comma = match &ts[i + 3] {
                Token::Punct(c) => *c == ',',
                _ => false,
            };
            if !is_comma {
                return Err(MacroInputError { expected: Expected::Comma, at: i + 3, at_end: false, keyword: None });
            }
            proof {
                match pairs_from(tv, i + 4) {
                    Ok(ps) => { assert(acc + (seq![pv] + ps) =~= acc.push(pv) + ps); },
                    Err(_) => {},
                }
            }
            i = i + 4;
        }
    }

    /// The statements the input expands to: a new map, then one `insert` per pair.
    pub fn to_tokens(&self) -> (res: String)
        ensures
            res@ == item_text(pairs_view(self.pairs@)),
    {
        let ghost pv = pairs_view(self.pairs@);
        let mut body = String::new();
        let mut i: usize = 0;
        assert(pv.take(0) =~= Seq::<PairView>::empty());
        while i < self.pairs.len()
            invariant
                pv == pairs_view(self.pairs@),
                pv.len() == self.pairs@.len(),
                i <= self.pairs.len(),
                body@ == pairs_text(pv.take(i as int)),
            decreases self.pairs.len() - i,
        {
            let t = self.pairs[i].to_tokens();
            proof {
                assert(pv.take(i + 1).drop_last() =~= pv.take(i as int));
                assert(pv.take(i + 1).last() == self.pairs@[i as int]@);
            }
            body.append(t.as_str());
            i = i + 1;
        }
        assert(pv.take(self.pairs.len() as int) =~= pv);
        let mut s = String::from_str("let mut map = std::collections::HashMap::new(); ");
        s.append(body.as_str());
        s
    }
}

/// `my_macro!`: reads the `name = "value"` pairs and expands to a map built
/// from them, or returns where and why the input was refused.
pub fn my_macro(ts: &Vec<Token>) -> (res: Result<String, MacroInputError>)
    ensures
        match parse_pairs(tokens_view(ts@)) {
            Ok(ps) => res matches Ok(t) && t@ == item_text(ps),
            Err(e) => res matches Err(f) && f@ == e,
        },
{
    match MyItem::parse(ts) {
        Ok(item) => Ok(item.to_tokens()),
        Err(e) => Err(e),
    }
}


/// A pair that the grammar accepts: its name is no keyword and its value is a
/// string literal.
pub open spec fn valid_pair(p: PairView) -> bool {
    !is_keyword(p.k) && syn_lit_str_accepts(p.v)
}

/// The token at index `j` of the input written for `ps`.
pub open spec fn pair_token_at(ps: Seq<PairView>, j: int) -> TokenView {
    if j % 4 == 0 {
        TokenView::Ident(ps[j / 4].k)
    } else if j % 4 == 1 {
        TokenView::Punct('=')
    } else if j % 4 == 2 {
        TokenView::Literal(ps[j / 4].v)
    } else {
        TokenView::Punct(',')
    }
}

/// The input that writes the pairs `ps`: `k0 = v0 , k1 = v1 , ...` with no
/// trailing comma.
pub open spec fn pairs_tokens(ps: Seq<PairView>) -> Seq<TokenView> {
    if ps.len() == 0 {
        Seq::empty()
    } else {
        Seq::new((4 * ps.len() - 1) as nat, |j: int| pair_token_at(ps, j))
    }
}

#[verifier::rlimit(40)]
proof fn lemma_written_pairs_parse_from(ps: Seq<PairView>, k: int)
    requires
        0 <= k < ps.len(),
        forall|n: int| 0 <= n < ps.len() ==> #[trigger] valid_pair(ps[n]),
    ensures
        pairs_from(pairs_tokens(ps), 4 * k) == Ok::<Seq<PairView>, InputErrorView>(ps.skip(k)),
    decreases ps.len() - k,
{
    let ts = pairs_tokens(ps);
    let i = 4 * k;
    assert(i % 4 == 0 && i / 4 == k);
    assert((i + 1) % 4 == 1 && (i + 1) / 4 == k);
    assert((i + 2) % 4 == 2 && (i + 2) / 4 == k);
    assert((i + 3) % 4 == 3);
    assert(valid_pair(ps[k]));
    assert(ts[i] == TokenView::Ident(ps[k].k));
    assert(ts[i + 1] == TokenView::Punct('='));
    assert(ts[i + 2] == TokenView::Literal(ps[k].v));
    assert(pair_at(ts, i) == Ok::<PairView, InputErrorView>(ps[k]));
    if k == ps.len() - 1 {
        assert(ps.skip(k) =~= seq![ps[k]]);
    } else {
        assert(ts[i + 3] == TokenView::Punct(','));
        lemma_written_pairs_parse_from(ps, k + 1);
        assert(4 * (k + 1) == i + 4);
        assert(seq![ps[k]] + ps.skip(k + 1) =~= ps.skip(k));
    }
}

/// The grammar reads back every non-empty list of acceptable pairs from the
/// input that writes it: `parse_pairs(pairs_tokens(ps)) == Ok(ps)`.
pub proof fn lemma_written_pairs_parse(ps: Seq<PairView>)
    requires
        ps.len() > 0,
        forall|n: int| 0 <= n < ps.len() ==> #[trigger] valid_pair(ps[n]),
    ensures
        parse_pairs(pairs_tokens(ps)) == Ok::<Seq<PairView>, InputErrorView>(ps),
{
    lemma_written_pairs_parse_from(ps, 0);
    assert(ps.skip(0) =~= ps);
}

#[verifier::rlimit(40)]
proof fn lemma_parsed_input_is_written_from(ts: Seq<TokenView>, i: int)
    requires
        0 <= i,
        pairs_from(ts, i) is Ok,
    ensures
        ({
            let ps = pairs_from(ts, i)->Ok_0;
            &&& ps.len() > 0
            &&& forall|n: int| 0 <= n < ps.len() ==> #[trigger] valid_pair(ps[n])
            &&& ts.len() == i + 4 * ps.len() - 1
            &&& forall|j: int| 0 <= j < ts.len() - i ==> ts[i + j] == #[trigger] pairs_tokens(ps)[j]
        }),
    decreases ts.len() - i,
{
    let ps = pairs_from(ts, i)->Ok_0;
    let p = pair_at(ts, i)->Ok_0;
    assert(pair_at(ts, i) is Ok);
    if i + 3 >= ts.len() {
        assert(ps == seq![p]);
        assert forall|j: int| 0 <= j < ts.len() - i implies ts[i + j] == #[trigger] pairs_tokens(ps)[j] by {
            assert(j / 4 == 0);
        }
    } else {
        let rest = pairs_from(ts, i + 4)->Ok_0;
        lemma_parsed_input_is_written_from(ts, i + 4);
        assert(ps == seq![p] + rest);
        assert forall|n: int| 0 <= n < ps.len() implies #[trigger] valid_pair(ps[n]) by {
            if n > 0 {
                assert(ps[n] == rest[n - 1]);
            }
        }
        assert forall|j: int| 0 <= j < ts.len() - i implies ts[i + j] == #[trigger] pairs_tokens(ps)[j] by {
            if j >= 4 {
                assert(ts[(i + 4) + (j - 4)] == pairs_tokens(rest)[j - 4]);
                assert((j - 4) % 4 == j % 4);
                assert((j - 4) / 4 == j / 4 - 1);
                assert(ps[j / 4] == rest[(j - 4) / 4]);
            } else {
                assert(j / 4 == 0);
            }
        }
    }
}

/// Whatever input the grammar accepts is exactly the input that writes the
/// pairs it returns: a non-empty list of acceptable pairs, comma-separated,
/// with nothing before, between or after.
pub proof fn lemma_parsed_input_is_written(ts: Seq<TokenView>)
    requires
        parse_pairs(ts) is Ok,
    ensures
        ({
            let ps = parse_pairs(ts)->Ok_0;
            &&& ps.len() > 0
            &&& forall|n: int| 0 <= n < ps.len() ==> #[trigger] valid_pair(ps[n])
            &&& ts == pairs_tokens(ps)
        }),
{
    let ps = parse_pairs(ts)->Ok_0;
    lemma_parsed_input_is_written_from(ts, 0);
    assert forall|j: int| 0 <= j < ts.len() implies ts[j] == pairs_tokens(ps)[j] by {
        assert(ts[0 + j] == pairs_tokens(ps)[j]);
    }
    assert(ts =~= pairs_tokens(ps));
}


/// A single pair `k = v` whose name is no listed keyword and whose value is a
/// string literal is read as that pair, and expands to the map's creation
/// followed by `map.insert(k, v);` with `k` written as a string literal.
pub proof fn lemma_single_pair_expands(k: Seq<char>, v: Seq<char>)
    requires
        !rust_keywords().contains(k),
        syn_lit_str_accepts(v),
    ensures
        parse_pairs(seq![TokenView::Ident(k), TokenView::Punct('='), TokenView::Literal(v)])
            == Ok::<Seq<PairView>, InputErrorView>(seq![PairView { k, v }]),
        item_text(seq![PairView { k, v }]) == "let mut map = std::collections::HashMap::new(); "@
            + "map.insert("@ + proc_macro2_string_literal(k) + ", "@ + v + "); "@,
{
    lemma_keywords_are_listed(k);
    let ps = seq![PairView { k, v }];
    assert(ps.drop_last() =~= Seq::<PairView>::empty());
    assert(ps.last() == PairView { k, v });
    assert(pairs_text(ps.drop_last()) =~= Seq::<char>::empty());
    assert(pairs_text(ps) =~= pair_text(PairView { k, v }));
}

/// A pair whose name is a listed keyword is refused at its first token, and
/// the refusal names the keyword.
pub proof fn lemma_keyword_pair_refused(k: Seq<char>, v: Seq<char>)
    requires
        rust_keywords().contains(k),
    ensures
        parse_pairs(seq![TokenView::Ident(k), TokenView::Punct('='), TokenView::Literal(v)])
            == Err::<Seq<PairView>, InputErrorView>(keyword_error_at(k, 0)),
{
    lemma_keywords_are_listed(k);
}

/// The expansion is made pair by pair: the statements for `ps1 + ps2` are
/// those for `ps1` followed by those for `ps2`.
pub proof fn lemma_pairs_text_concat(ps1: Seq<PairView>, ps2: Seq<PairView>)
    ensures
        pairs_text(ps1 + ps2) == pairs_text(ps1) + pairs_text(ps2),
    decreases ps2.len(),
{
    if ps2.len() == 0 {
        assert(ps1 + ps2 =~= ps1);
        assert(pairs_text(ps1) + pairs_text(ps2) =~= pairs_text(ps1));
    } else {
        lemma_pairs_text_concat(ps1, ps2.drop_last());
        assert((ps1 + ps2).drop_last() =~= ps1 + ps2.drop_last());
        assert((ps1 + ps2).last() == ps2.last());
        assert(pairs_text(ps1 + ps2) =~= pairs_text(ps1) + pairs_text(ps2));
    }
}


/// `my_macro!` on the input written in `source`: the text is lexed by
/// `proc-macro2`, then read and expanded as [`my_macro`] does.
pub fn my_macro_source(source: &str) -> (res: Result<String, SourceError>)
    ensures
        match lexed_tokens(source@) {
            Some(ts) => match parse_pairs(ts) {
                Ok(ps) => res matches Ok(t) && t@ == item_text(ps),
                Err(e) => res matches Err(SourceError::Input(m, at)) && m@ == message_text(e) && at == e.at,
            },
            None => res matches Err(SourceError::Syntax(_)),
        },
{
    match lex(source) {
        Ok(ts) => match my_macro(&ts) {
            Ok(t) => Ok(t),
            Err(e) => Err(SourceError::Input(e.message(), e.at)),
        },
        Err(msg) => Err(SourceError::Syntax(msg)),
    }
}


proof fn lemma_pairs_tokens_concat(pa: Seq<PairView>, pb: Seq<PairView>)
    requires
        pa.len() > 0,
        pb.len() > 0,
    ensures
        pairs_tokens(pa) + seq![TokenView::Punct(',')] + pairs_tokens(pb) == pairs_tokens(pa + pb),
{
    let n = pa.len() as int;
    let ab = pa + pb;
    let lhs = pairs_tokens(pa) + seq![TokenView::Punct(',')] + pairs_tokens(pb);
    let rhs = pairs_tokens(ab);
    assert(lhs.len() == rhs.len());
    assert forall|j: int| 0 <= j < lhs.len() implies lhs[j] == rhs[j] by {
        if j < 4 * n - 1 {
            assert(j / 4 < n);
            assert(ab[j / 4] == pa[j / 4]);
            assert(lhs[j] == pairs_tokens(pa)[j]);
        } else if j == 4 * n - 1 {
            assert(j % 4 == 3);
        } else {
            let k = j - 4 * n;
            assert(k % 4 == j % 4);
            assert(k / 4 == j / 4 - n);
            assert(lhs[j] == pairs_tokens(pb)[k]);
            assert(ab[j / 4] == pb[k / 4]);
        }
    }
    assert(lhs =~= rhs);
}

/// `my_macro!` on `a , b`, where `a` and `b` are each inputs it accepts, reads
/// the pairs of `a` followed by those of `b`, and expands to the map's creation
/// followed by the inserts for `a`, then the inserts for `b`: one per pair, in
/// order, repeated names kept.
pub proof fn lemma_my_macro_concat(ta: Seq<TokenView>, tb: Seq<TokenView>)
    requires
        parse_pairs(ta) is Ok,
        parse_pairs(tb) is Ok,
    ensures
        ({
            let pa = parse_pairs(ta)->Ok_0;
            let pb = parse_pairs(tb)->Ok_0;
            &&& parse_pairs(ta + seq![TokenView::Punct(',')] + tb) == Ok::<Seq<PairView>, InputErrorView>(pa + pb)
            &&& item_text(pa + pb) == "let mut map = std::collections::HashMap::new(); "@ + pairs_text(pa) + pairs_text(pb)
        }),
{
    let pa = parse_pairs(ta)->Ok_0;
    let pb = parse_pairs(tb)->Ok_0;
    lemma_parsed_input_is_written(ta);
    lemma_parsed_input_is_written(tb);
    lemma_pairs_tokens_concat(pa, pb);
    let ab = pa + pb;
    assert forall|k: int| 0 <= k < ab.len() implies #[trigger] valid_pair(ab[k]) by {
        if k < pa.len() {
            assert(valid_pair(pa[k]));
        } else {
            assert(ab[k] == pb[k - pa.len()]);
            assert(valid_pair(pb[k - pa.len()]));
        }
    }
    lemma_written_pairs_parse(ab);
    lemma_pairs_text_concat(pa, pb);
}

} // verus!
