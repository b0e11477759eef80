use test_proc_macros::error_message::{
    accessor_names, error_message_derive, error_message_derive_source, expand_error_message,
    named_fields_return, unit_fields_return, unnamed_fields_return, variant_accessors,
};
use test_proc_macros::reading::parse_derive_input;
use test_proc_macros::model::{
    DataModel, DeriveInputModel, FieldModel, FieldsModel, SourceError, VariantModel,
};

fn toks(s: &str) -> String {
    s.parse::<proc_macro2::TokenStream>().unwrap().to_string()
}

fn field(ident: Option<&str>, ty: &str) -> FieldModel {
    FieldModel {
        text: match ident {
            Some(id) => format!("{}: {}", id, ty),
            None => ty.to_string(),
        },
        ident: ident.unwrap_or("").to_string(),
        ty: ty.to_string(),
    }
}

fn variant(ident: &str, fields: FieldsModel) -> VariantModel {
    VariantModel { attrs: vec![], ident: ident.to_string(), fields }
}

fn login_error() -> DeriveInputModel {
    DeriveInputModel {
        ident: "LoginError".to_string(),
        data: DataModel::Enum(vec![
            variant("Password", FieldsModel::Unit),
            variant("Username", FieldsModel::Unit),
            variant("Token", FieldsModel::Named(vec![field(Some("token"), "String")])),
            variant("Expired", FieldsModel::Unnamed(vec![field(None, "String")])),
        ]),
    }
}

const DOC_REF: &str = "Optionally returns references to the inner fields if this is a";
const DOC_VAL: &str = "Returns the inner fields if this is a";

#[test]
fn login_error_expansion() {
    let out = error_message_derive(&login_error());
    let expected = format!(
        "impl LoginError {{
            #[doc = \"{r} `LoginError::Password`, otherwise `None`\"]
            pub fn as_password(&self) -> Option<()> {{ match self {{ LoginError::Password => {{ Some(()) }} _ => None }} }}
            #[doc = \"{r} `LoginError::Username`, otherwise `None`\"]
            pub fn as_username(&self) -> Option<()> {{ match self {{ LoginError::Username => {{ Some(()) }} _ => None }} }}
            #[doc = \"{r} `LoginError::Token`, otherwise `None`\"]
            pub fn as_token(&self) -> Option<&String> {{ match self {{ LoginError::Token{{ token }} => {{ Some(&token) }} _ => None }} }}
            #[doc = \"{v} `LoginError::Token`, otherwise returns back the enum in the `Err` case of the result\"]
            pub fn into_token(self) -> ::core::result::Result<String, Self> {{ match self {{ LoginError::Token{{ token }} => {{ Ok(token) }} _ => Err(self) }} }}
            #[doc = \"{r} `LoginError::Expired`, otherwise `None`\"]
            pub fn as_expired(&self) -> Option<&String> {{ match self {{ LoginError::Expired(inner) => {{ Some(&inner) }} _ => None }} }}
            #[doc = \"{v} `LoginError::Expired`, otherwise returns back the enum in the `Err` case of the result\"]
            pub fn into_expired(self) -> ::core::result::Result<String, Self> {{ match self {{ LoginError::Expired(inner) => {{ Ok(inner) }}, _ => Err(self) }} }}
        }}",
        r = DOC_REF,
        v = DOC_VAL
    );
    assert_eq!(toks(&out.code), toks(&expected));
    assert_eq!(out.log, vec!["Unit Password", "Unit Username", "Named LoginError", "Unnamed LoginError"]);

    let source = "enum LoginError {
        #[error_message(\"password is not correct.\")]
        Password,
        #[error_message(\"user name is not exist.\")]
        Username,
        #[error_message(\"token.\")]
        Token { token: String },
        #[error_message(\"expired.\")]
        Expired(String),
    }";
    let from_source = error_message_derive_source(source).unwrap();
    assert_eq!(toks(&from_source.code), toks(&expected));
    assert_eq!(from_source.log, out.log);
}

#[test]
fn derive_on_struct_or_bad_input_is_refused() {
    match error_message_derive_source("struct S { a: u8 }") {
        Err(SourceError::NotAnEnum(n)) => assert_eq!(n, "S"),
        other => panic!("unexpected {:?}", other),
    }
    match error_message_derive_source("union U { a: u8 }") {
        Err(SourceError::NotAnEnum(n)) => assert_eq!(n, "U"),
        other => panic!("unexpected {:?}", other),
    }
    assert!(matches!(error_message_derive_source("fn f() {}"), Err(SourceError::Syntax(_))));
}

#[test]
fn empty_enum_gives_empty_impl() {
    let input = DeriveInputModel { ident: "E".to_string(), data: DataModel::Enum(vec![]) };
    let out = error_message_derive(&input);
    assert_eq!(out.code, "impl E { }");
    assert!(out.log.is_empty());
}

#[test]
fn accessor_names_are_snake_case() {
    let (a, b) = accessor_names("ExpiredToken");
    assert_eq!(a, "as_expired_token");
    assert_eq!(b, "into_expired_token");
    let (a, b) = accessor_names("HTTPError");
    assert_eq!(a, "as_http_error");
    assert_eq!(b, "into_http_error");
}

#[test]
fn unit_accessor_exact_text() {
    assert_eq!(
        unit_fields_return("E", "A", "as_a", "doc"),
        "#[doc = \"doc\"] pub fn as_a(&self) -> Option<()> { match self { E::A => { Some(()) } _ => None } } "
    );
}

#[test]
fn doc_text_is_quoted() {
    let out = unit_fields_return("E", "A", "as_a", "say \"hi\"");
    assert!(out.starts_with("#[doc = \"say \\\"hi\\\"\"] "));
}

#[test]
fn several_tuple_fields() {
    let fs = vec![field(None, "u8"), field(None, "u16")];
    let out = unnamed_fields_return("E", "P", "as_p", "r", "into_p", "v", &fs);
    assert_eq!(
        toks(&out),
        toks(
            "#[doc = \"r\"] pub fn as_p(&self) -> Option<(&u8, &u16,)> { match self { E::P(match_0, match_1,) => { Some((&match_0, &match_1,)) } _ => None } } \
             #[doc = \"v\"] pub fn into_p(self) -> ::core::result::Result<(u8, u16,), Self> { match self { E::P(match_0, match_1,) => { Ok((match_0, match_1,)) }, _ => Err(self) } }"
        )
    );
}

#[test]
fn many_tuple_fields_are_numbered() {
    let fs: Vec<FieldModel> = (0..12).map(|_| field(None, "u8")).collect();
    let out = unnamed_fields_return("E", "P", "as_p", "r", "into_p", "v", &fs);
    assert!(out.contains("match_10, match_11, )"));
    assert!(out.contains("& match_11, )"));
}

#[test]
fn empty_tuple_variant() {
    let out = unnamed_fields_return("E", "P", "as_p", "r", "into_p", "v", &vec![]);
    assert_eq!(
        toks(&out),
        toks(
            "#[doc = \"r\"] pub fn as_p(&self) -> Option<()> { match self { E::P() => { Some(()) } _ => None } } \
             #[doc = \"v\"] pub fn into_p(self) -> ::core::result::Result<(), Self> { match self { E::P() => { Ok(()) }, _ => Err(self) } }"
        )
    );
}

#[test]
fn several_named_fields() {
    let fs = vec![field(Some("x"), "i32"), field(Some("y"), "i64")];
    let out = named_fields_return("E", "Pt", "as_pt", "r", "into_pt", "v", &fs);
    assert_eq!(
        toks(&out),
        toks(
            "#[doc = \"r\"] pub fn as_pt(&self) -> Option<(&i32, &i64,)> { match self { E::Pt{ x, y, } => { Some((&x, &y,)) } _ => None } } \
             #[doc = \"v\"] pub fn into_pt(self) -> ::core::result::Result<(i32, i64,), Self> { match self { E::Pt{ x, y, } => { Ok((x, y,)) } _ => Err(self) } }"
        )
    );
}

#[test]
fn empty_named_variant() {
    let out = named_fields_return("E", "B", "as_b", "r", "into_b", "v", &vec![]);
    assert_eq!(
        toks(&out),
        toks(
            "#[doc = \"r\"] pub fn as_b(&self) -> Option<()> { match self { E::B{ } => { Some(()) } _ => None } } \
             #[doc = \"v\"] pub fn into_b(self) -> ::core::result::Result<(), Self> { match self { E::B{ } => { Ok(()) } _ => Err(self) } }"
        )
    );
}

#[test]
fn variant_logs() {
    let (_, log) = variant_accessors("E", &variant("A", FieldsModel::Unit), "as_a", "into_a");
    assert_eq!(log, "Unit A");
    let (_, log) = variant_accessors("E", &variant("A", FieldsModel::Unnamed(vec![])), "as_a", "into_a");
    assert_eq!(log, "Unnamed E");
    let (_, log) = variant_accessors("E", &variant("A", FieldsModel::Named(vec![])), "as_a", "into_a");
    assert_eq!(log, "Named E");
}

#[test]
fn expansion_with_given_names() {
    let vs = vec![variant("A", FieldsModel::Unit)];
    let out = expand_error_message("E", &vs, &vec!["first".to_string()], &vec!["second".to_string()]);
    assert_eq!(
        out.code,
        "impl E { #[doc = \"Optionally returns references to the inner fields if this is a `E::A`, otherwise `None`\"] pub fn first(&self) -> Option<()> { match self { E::A => { Some(()) } _ => None } } }"
    );
}

#[test]
fn helper_attributes_do_not_change_the_expansion() {
    let with = error_message_derive_source(
        "enum E { #[error_message(\"a.\")] A, #[error_message(\"b.\")] #[doc = \"x\"] B(u8) }",
    )
    .unwrap();
    let without = error_message_derive_source("enum E { A, B(u8) }").unwrap();
    assert_eq!(with.code, without.code);
    assert_eq!(with.log, without.log);
}

#[test]
fn derive_reads_variant_attributes() {
    let d = parse_derive_input("enum E { #[error_message(\"a.\")] A }").unwrap();
    match &d.data {
        DataModel::Enum(vs) => assert_eq!(vs[0].attrs.len(), 1),
        _ => panic!("not an enum"),
    }
}
