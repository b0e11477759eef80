use test_proc_macros::model::{DataModel, DeriveInputModel, FieldModel, FieldsModel, StructModel};
use test_proc_macros::model::SourceError;
use test_proc_macros::reading::{parse_derive_input, parse_fields, parse_item_struct};
use test_proc_macros::structs::{
    add_field, add_field_source, add_named_field, add_tuple, add_tuple_source, add_unnamed_field,
    my_attribute_struct, my_attribute_struct_source, my_derive, my_derive_source, render_field,
    render_struct,
};

fn toks(s: &str) -> String {
    s.parse::<proc_macro2::TokenStream>().unwrap().to_string()
}

fn field(vis: &str, ident: Option<&str>, ty: &str) -> FieldModel {
    let text = match ident {
        Some(id) => format!("{} {}: {}", vis, id, ty),
        None => format!("{} {}", vis, ty),
    };
    FieldModel {
        text: text.trim().to_string(),
        ident: ident.unwrap_or("").to_string(),
        ty: ty.to_string(),
    }
}

fn item(ident: &str, fields: FieldsModel) -> StructModel {
    StructModel {
        text: format!("#[derive(Debug)] pub struct {} ...", ident),
        attrs: vec!["#[derive(Debug)]".to_string()],
        vis: "pub".to_string(),
        ident: ident.to_string(),
        generics: String::new(),
        where_clause: String::new(),
        fields,
    }
}

fn toy() -> StructModel {
    item(
        "Toy",
        FieldsModel::Named(vec![
            field("pub", Some("a"), "String"),
            field("pub", Some("b"), "i32"),
            field("pub", Some("c"), "bool"),
        ]))
}

#[test]
fn render_field_exact_text() {
    assert_eq!(render_field(&field("pub", Some("a"), "String")), "pub a: String");
    assert_eq!(render_field(&field("", None, "u8")), "u8");
}

#[test]
fn render_braced_struct_keeps_its_tokens() {
    assert_eq!(
        toks(&render_struct(&toy())),
        toks("#[derive(Debug)] pub struct Toy { pub a: String, pub b: i32, pub c: bool }")
    );
}

#[test]
fn render_tuple_and_unit_structs() {
    let t = item("P", FieldsModel::Unnamed(vec![field("", None, "u8"), field("pub", None, "u16")]));
    assert_eq!(toks(&render_struct(&t)), toks("#[derive(Debug)] pub struct P(u8, pub u16);"));
    let u = item("Table", FieldsModel::Unit);
    assert_eq!(toks(&render_struct(&u)), toks("#[derive(Debug)] pub struct Table;"));
}

#[test]
fn render_struct_with_generics_and_where_clause() {
    let mut s = item("W", FieldsModel::Named(vec![field("", Some("x"), "T")]));
    s.generics = "<T>".to_string();
    s.where_clause = "where T: Copy".to_string();
    assert_eq!(
        toks(&render_struct(&s)),
        toks("#[derive(Debug)] pub struct W<T> where T: Copy { x: T }")
    );
    let mut t = item("V", FieldsModel::Unnamed(vec![field("", None, "T")]));
    t.generics = "<T>".to_string();
    t.where_clause = "where T: Copy".to_string();
    assert_eq!(
        toks(&render_struct(&t)),
        toks("#[derive(Debug)] pub struct V<T>(T) where T: Copy;")
    );
}

#[test]
fn my_derive_adds_ok() {
    let input = DeriveInputModel {
        ident: "Person".to_string(),
        data: DataModel::Struct,
    };
    let out = my_derive(&input);
    assert_eq!(out, "impl Person { fn ok(&self) { println!(\"Hi {}, i'm ok!\", self.name); } }");
    assert_eq!(
        toks(&out),
        toks("impl Person { fn ok(&self){ println!(\"Hi {}, i'm ok!\", self.name); } }")
    );
}

#[test]
fn my_attribute_struct_keeps_the_struct_and_adds_drive() {
    let mut car = item("Car", FieldsModel::Named(vec![field("pub", Some("no"), "String")]));
    car.text = "#[derive(Debug)] pub struct Car { pub no: String, }".to_string();
    assert_eq!(
        toks(&my_attribute_struct(&car)),
        toks(
            "#[derive(Debug)] pub struct Car { pub no: String, } \
             impl Car { fn drive(&self) { println!(\"Car no {}\", self.no); } }"
        )
    );
}

#[test]
fn add_field_appends_d() {
    assert_eq!(
        toks(&add_field(toy())),
        toks("#[derive(Debug)] pub struct Toy { pub a: String, pub b: i32, pub c: bool, pub d: String }")
    );
}

#[test]
fn add_field_model() {
    let s = add_named_field(toy());
    match &s.fields {
        FieldsModel::Named(fs) => {
            assert_eq!(fs.len(), 4);
            assert_eq!(fs[3].ident, "d");
            assert_eq!(fs[3].text, "pub d: String");
            assert_eq!(fs[3].ty, "String");
            assert_eq!(fs[0].ident, "a");
        }
        _ => panic!("fields are no longer named"),
    }
    assert_eq!(s.ident, "Toy");
    assert_eq!(s.text, render_struct(&s));
}

#[test]
fn add_tuple_on_unit_struct() {
    let u = item("Table", FieldsModel::Unit);
    assert_eq!(toks(&add_tuple(u)), toks("#[derive(Debug)] pub struct Table(String);"));
}

#[test]
fn add_tuple_on_tuple_struct_appends() {
    let t = item("P", FieldsModel::Unnamed(vec![field("", None, "u8")]));
    assert_eq!(toks(&add_tuple(t)), toks("#[derive(Debug)] pub struct P(u8, String);"));
}

#[test]
fn add_tuple_on_braced_struct_replaces_the_fields() {
    let s = add_unnamed_field(toy());
    match &s.fields {
        FieldsModel::Unnamed(fs) => {
            assert_eq!(fs.len(), 1);
            assert_eq!(fs[0].ty, "String");
            assert!(fs[0].ident.is_empty());
        }
        _ => panic!("not a tuple struct"),
    }
    assert_eq!(toks(&add_tuple(toy())), toks("#[derive(Debug)] pub struct Toy(String);"));
}

#[test]
fn add_tuple_ignores_the_fields_it_replaces() {
    let braced = toy();
    let unit = item("Toy", FieldsModel::Unit);
    assert_eq!(add_tuple(braced), add_tuple(unit));
}

#[test]
fn exact_struct_text() {
    let t = item("P", FieldsModel::Unnamed(vec![field("", None, "u8")]));
    assert_eq!(render_struct(&t), "#[derive(Debug)] pub struct P  (u8)  ;");
}

#[test]
fn parse_item_struct_reads_the_pieces() {
    let s = parse_item_struct("#[derive(Debug)] pub struct W<T> where T: Copy { pub a: T, b: u8, }").unwrap();
    assert_eq!(s.attrs.len(), 1);
    assert_eq!(s.ident, "W");
    assert_eq!(s.vis, "pub");
    assert_eq!(toks(&s.generics), toks("<T>"));
    assert_eq!(toks(&s.where_clause), toks("where T: Copy"));
    assert_eq!(toks(&s.text), toks("#[derive(Debug)] pub struct W<T> where T: Copy { pub a: T, b: u8, }"));
    match &s.fields {
        FieldsModel::Named(fs) => {
            assert_eq!(fs.len(), 2);
            assert_eq!(fs[0].ident, "a");
            assert_eq!(toks(&fs[0].text), toks("pub a: T"));
            assert_eq!(fs[1].ty, "u8");
        }
        _ => panic!("fields are not braced"),
    }
    assert!(parse_item_struct("fn f() {}").is_err());
}

#[test]
fn my_attribute_struct_from_source() {
    let out = my_attribute_struct_source("#[derive(Debug)] pub struct Car { pub no: String, }").unwrap();
    assert_eq!(
        toks(&out),
        toks(
            "#[derive(Debug)] pub struct Car { pub no: String, } \
             impl Car { fn drive(&self) { println!(\"Car no {}\", self.no); } }"
        )
    );
    assert!(matches!(my_attribute_struct_source("struct"), Err(SourceError::Syntax(_))));
}

#[test]
fn add_field_from_source() {
    let out = add_field_source("#[derive(Debug)] pub struct Toy { pub a: String, pub b: i32, pub c: bool, }").unwrap();
    assert_eq!(
        toks(&out),
        toks("#[derive(Debug)] pub struct Toy { pub a: String, pub b: i32, pub c: bool, pub d: String }")
    );
    assert!(matches!(add_field_source("pub struct Table;"), Err(SourceError::NotBraced)));
    assert!(matches!(add_field_source("pub struct P(u8);"), Err(SourceError::NotBraced)));
    assert!(matches!(add_field_source("pub enum E {}"), Err(SourceError::Syntax(_))));
}

#[test]
fn add_tuple_from_source() {
    let out = add_tuple_source("#[derive(Debug)] pub struct Table;").unwrap();
    assert_eq!(toks(&out), toks("#[derive(Debug)] pub struct Table(String);"));
    assert!(matches!(add_tuple_source("pub struct"), Err(SourceError::Syntax(_))));
}

#[test]
fn my_derive_from_source() {
    let out = my_derive_source("#[derive(MyDerive, Debug)] pub struct Person { pub name: String }").unwrap();
    assert_eq!(out, "impl Person { fn ok(&self) { println!(\"Hi {}, i'm ok!\", self.name); } }");
    assert!(matches!(my_derive_source("fn f() {}"), Err(SourceError::Syntax(_))));
}

#[test]
fn fields_are_read_by_how_they_open() {
    match parse_fields("(pub u8, String)").unwrap() {
        FieldsModel::Unnamed(fs) => {
            assert_eq!(fs.len(), 2);
            assert_eq!(fs[0].ident, "");
            assert_eq!(fs[1].ty, "String");
        }
        _ => panic!("not tuple fields"),
    }
    assert!(matches!(parse_fields("").unwrap(), FieldsModel::Unit));
    assert!(parse_fields("x").is_err());
    assert!(parse_fields("{ a }").is_err());
}

#[test]
fn derive_input_is_read() {
    let d = parse_derive_input("enum E { A, B(u8), C { x: i32 } }").unwrap();
    assert_eq!(d.ident, "E");
    match &d.data {
        DataModel::Enum(vs) => {
            assert_eq!(vs.len(), 3);
            assert!(matches!(vs[0].fields, FieldsModel::Unit));
            assert!(matches!(&vs[1].fields, FieldsModel::Unnamed(fs) if fs.len() == 1 && fs[0].ty == "u8"));
            assert!(matches!(&vs[2].fields, FieldsModel::Named(fs) if fs.len() == 1 && fs[0].ident == "x"));
        }
        _ => panic!("not an enum"),
    }
    assert!(matches!(parse_derive_input("struct S;").unwrap().data, DataModel::Struct));
    assert!(matches!(parse_derive_input("union U { a: u8 }").unwrap().data, DataModel::Union));
    assert!(parse_derive_input("fn f() {}").is_err());
}

#[test]
fn pieces_are_printed_by_proc_macro2s_own_printer() {
    let s = parse_item_struct("pub struct A { pub a: Vec<u8> }").unwrap();
    match &s.fields {
        FieldsModel::Named(fs) => {
            assert_eq!(fs[0].text, "pub a : Vec < u8 >");
            assert_eq!(fs[0].ty, "Vec < u8 >");
        }
        _ => panic!("fields are not braced"),
    }
    assert_eq!(s.text, "pub struct A { pub a : Vec < u8 > }");
}
