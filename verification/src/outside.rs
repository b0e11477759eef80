//! Calls into the outside crates that the macros rely on: `syn` reads Rust
//! syntax, `proc-macro2` lexes text and writes string literals, `heck` changes
//! the case of names.
//!
//! `proc-macro2` lexes and prints either with the compiler's own code (inside
//! a macro that the compiler is expanding) or with its own. Every call below
//! that lexes or prints first selects `proc-macro2`'s own code
//! (`proc_macro2::fallback::force`), so that its outcome depends on its
//! argument alone, in every process.
use vstd::prelude::*;
use quote::ToTokens;
use syn::Data;
use crate::model::{
    DataParts, DeriveParts, DerivePartsView, FieldModel, FieldView, FnModel, FnView, StructParts,
    StructPartsView, Token, TokenView, VariantParts, fields_view, tokens_view,
};

verus! {

/// The struct item that `syn` reads from `source` (`None` when it reads none),
/// every piece, and the fields as a whole, kept as the text `syn` prints.
pub uninterp spec fn syn_item_struct_parts(source: Seq<char>) -> Option<StructPartsView>;

/// Reads a struct item with `syn::parse_str::<syn::ItemStruct>` and prints the
/// item and each of its pieces with `quote::ToTokens`. Claimed: the outcome is a
/// function of `source` alone, named [`syn_item_struct_parts`]; `syn`'s message
/// on failure is not stated.
/// `proc-macro2`'s own lexer and printer are selected before the call.
#[verifier::external_body]
pub(crate) fn read_item_struct(source: &str) -> (res: Result<StructParts, String>)
    ensures
        match syn_item_struct_parts(source@) {
            Some(v) => res matches Ok(m) && m@ == v,
            None => res is Err,
        },
{
    proc_macro2::fallback::force();
    let i = syn::parse_str::<syn::ItemStruct>(source).map_err(|e| e.to_string())?;
    let t = |x: &dyn ToTokens| x.to_token_stream().to_string();
    Ok(StructParts { text: t(&i), attrs: i.attrs.iter().map(|a| t(a)).collect(), vis: t(&i.vis), ident: t(&i.ident),
        generics: t(&i.generics), where_clause: t(&i.generics.where_clause), fields: t(&i.fields) })
}

/// The braced fields that `syn` reads from `source` (`None` when it reads
/// none): each field as printed, its name and its type.
pub uninterp spec fn syn_fields_named(source: Seq<char>) -> Option<Seq<FieldView>>;

/// Reads braced fields with `syn::parse_str::<syn::FieldsNamed>` and prints each
/// field, its name and its type with `quote::ToTokens`. Claimed: the outcome is
/// a function of `source` alone, named [`syn_fields_named`]. Also claimed, as
/// `Field::parse_named` shows: every field read has a name, so its printed name
/// is not empty.
/// `proc-macro2`'s own lexer and printer are selected before the call.
#[verifier::external_body]
pub(crate) fn read_fields_named(source: &str) -> (res: Result<Vec<FieldModel>, String>)
    ensures
        match syn_fields_named(source@) {
            Some(v) => res matches Ok(m) && fields_view(m@) == v,
            None => res is Err,
        },
        res matches Ok(m) ==> forall|j: int| 0 <= j < m@.len() ==> (#[trigger] m@[j]).ident@.len() > 0,
{
    proc_macro2::fallback::force();
    let n = syn::parse_str::<syn::FieldsNamed>(source).map_err(|e| e.to_string())?;
    let t = |x: &dyn ToTokens| x.to_token_stream().to_string();
    Ok(n.named.iter().map(|x| FieldModel { text: t(x), ident: t(&x.ident), ty: t(&x.ty) }).collect())
}

/// The parenthesized fields that `syn` reads from `source` (`None` when it reads
/// none): each field as printed, an empty name and its type.
pub uninterp spec fn syn_fields_unnamed(source: Seq<char>) -> Option<Seq<FieldView>>;

/// Reads tuple fields with `syn::parse_str::<syn::FieldsUnnamed>` and prints each
/// field, its (absent, so empty) name and its type with `quote::ToTokens`.
/// Claimed: the outcome is a function of `source` alone, named
/// [`syn_fields_unnamed`].
/// `proc-macro2`'s own lexer and printer are selected before the call.
#[verifier::external_body]
pub(crate) fn read_fields_unnamed(source: &str) -> (res: Result<Vec<FieldModel>, String>)
    ensures
        match syn_fields_unnamed(source@) {
            Some(v) => res matches Ok(m) && fields_view(m@) == v,
            None => res is Err,
        },
{
    proc_macro2::fallback::force();
    let n = syn::parse_str::<syn::FieldsUnnamed>(source).map_err(|e| e.to_string())?;
    let t = |x: &dyn ToTokens| x.to_token_stream().to_string();
    Ok(n.unnamed.iter().map(|x| FieldModel { text: t(x), ident: t(&x.ident), ty: t(&x.ty) }).collect())
}

/// The function item that `syn` reads from `source` (`None` when it reads none),
/// every part of its signature and its body kept as the text `syn` prints.
pub uninterp spec fn syn_item_fn(source: Seq<char>) -> Option<FnView>;

/// Reads a function item with `syn::parse_str::<syn::ItemFn>` and converts its
/// parts into the library's model. Claimed: the outcome is a function of
/// `source` alone, named [`syn_item_fn`]; the failure message is not stated.
/// `proc-macro2`'s own lexer and printer are selected before the call.
#[verifier::external_body]
pub(crate) fn parse_item_fn(source: &str) -> (res: Result<FnModel, String>)
    ensures
        match syn_item_fn(source@) {
            Some(v) => res matches Ok(m) && m@ == v,
            None => res is Err,
        },
{
    proc_macro2::fallback::force();
    let i = syn::parse_str::<syn::ItemFn>(source).map_err(|e| e.to_string())?;
    let t = |x: &dyn ToTokens| x.to_token_stream().to_string();
    let s = &i.sig;
    Ok(FnModel { vis: t(&i.vis), constness: t(&s.constness), unsafety: t(&s.safety), asyncness: t(&s.asyncness),
        abi: t(&s.abi), ident: t(&s.ident), gen_params: t(&s.generics.params), params: t(&s.inputs),
        output: t(&s.output), where_clause: t(&s.generics.where_clause), block: t(&i.block) })
}

/// The derive input that `syn` reads from `source` (`None` when it reads none):
/// its name and, for an enum, each variant's attributes, name and fields as
/// printed.
pub uninterp spec fn syn_derive_input_parts(source: Seq<char>) -> Option<DerivePartsView>;

/// Reads a derive input with `syn::parse_str::<syn::DeriveInput>` and prints its
/// name and each variant's name and fields with `quote::ToTokens`. Claimed: the
/// outcome is a function of `source` alone, named [`syn_derive_input_parts`];
/// the failure message is not stated.
/// `proc-macro2`'s own lexer and printer are selected before the call.
#[verifier::external_body]
pub(crate) fn read_derive_input(source: &str) -> (res: Result<DeriveParts, String>)
    ensures
        match syn_derive_input_parts(source@) {
            Some(v) => res matches Ok(m) && m@ == v,
            None => res is Err,
        },
{
    proc_macro2::fallback::force();
    let i = syn::parse_str::<syn::DeriveInput>(source).map_err(|e| e.to_string())?;
    let t = |x: &dyn ToTokens| x.to_token_stream().to_string();
    let data = match &i.data {
        Data::Enum(e) => DataParts::Enum(e.variants.iter().map(|v| VariantParts { attrs: v.attrs.iter().map(|a| t(a)).collect(),
            ident: t(&v.ident), fields: t(&v.fields) }).collect()),
        Data::Struct(_) => DataParts::Struct, Data::Union(_) => DataParts::Union };
    Ok(DeriveParts { ident: t(&i.ident), data })
}

/// The top-level token trees that `proc-macro2` lexes from `source` (`None`
/// when the text does not lex), each kept as its kind and its printed text.
pub uninterp spec fn lexed_tokens(source: Seq<char>) -> Option<Seq<TokenView>>;

/// Lexes `source` with `proc_macro2::TokenStream`'s `FromStr` and converts each
/// top-level token tree, one for one, into a [`Token`]. Claimed: the outcome is
/// a function of `source` alone, named [`lexed_tokens`].
/// `proc-macro2`'s own lexer and printer are selected before the call.
#[verifier::external_body]
pub(crate) fn lex(source: &str) -> (res: Result<Vec<Token>, String>)
    ensures
        match lexed_tokens(source@) {
            Some(ts) => res matches Ok(v) && tokens_view(v@) == ts,
            None => res is Err,
        },
{
    proc_macro2::fallback::force();
    let ts: proc_macro2::TokenStream = source.parse().map_err(|e: proc_macro2::LexError| e.to_string())?;
    Ok(ts.into_iter().map(|tt| match tt {
        proc_macro2::TokenTree::Ident(i) => Token::Ident(i.to_string()),
        proc_macro2::TokenTree::Punct(p) => Token::Punct(p.as_char()),
        proc_macro2::TokenTree::Literal(l) => Token::Literal(l.to_string()),
        proc_macro2::TokenTree::Group(g) => Token::Group(g.to_string()),
    }).collect())
}

/// Whether `syn` reads the text `repr` as a string literal (`syn::LitStr`):
/// a well-formed `"..."`, `r"..."` or `r#"..."#` literal, possibly suffixed.
pub uninterp spec fn syn_lit_str_accepts(repr: Seq<char>) -> bool;

/// Asks `syn::parse_str::<syn::LitStr>` whether `repr` is a string literal.
/// Claimed: the answer is a function of `repr` alone, named
/// [`syn_lit_str_accepts`]; nothing more is stated of syn's literal grammar.
/// `proc-macro2`'s own lexer and printer are selected before the call.
#[verifier::external_body]
pub(crate) fn parses_as_lit_str(repr: &str) -> (res: bool)
    ensures
        res == syn_lit_str_accepts(repr@),
{
    proc_macro2::fallback::force();
    syn::parse_str::<syn::LitStr>(repr).is_ok()
}

/// The string literal that `proc-macro2` writes for the value `value`.
pub uninterp spec fn proc_macro2_string_literal(value: Seq<char>) -> Seq<char>;

/// Writes `value` as a string literal with `proc_macro2::Literal::string`.
/// Claimed: the text is a function of `value` alone, named
/// [`proc_macro2_string_literal`]; its escaping rules are not restated.
/// `proc-macro2`'s own lexer and printer are selected before the call.
#[verifier::external_body]
pub(crate) fn string_literal(value: &str) -> (res: String)
    ensures
        res@ == proc_macro2_string_literal(value@),
{
    proc_macro2::fallback::force();
    proc_macro2::Literal::string(value).to_string()
}

/// What `heck`'s `to_snake_case` makes of `s` (words split at non-alphanumeric
/// characters and at case changes, lowercased and joined by `_`).
pub uninterp spec fn heck_snake_case(s: Seq<char>) -> Seq<char>;

/// Calls `heck::ToSnakeCase::to_snake_case` on `s`.
/// Claimed: the result is a function of `s` alone, named [`heck_snake_case`];
/// heck's word-splitting rules are not restated.
#[verifier::external_body]
pub(crate) fn to_snake_case(s: &str) -> (res: String)
    ensures
        res@ == heck_snake_case(s@),
{
    heck::ToSnakeCase::to_snake_case(s)
}

} // verus!
