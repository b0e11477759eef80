use test_proc_macros::functions::{my_attribute_fn, my_attribute_fn_source};
use test_proc_macros::model::SourceError;
use test_proc_macros::model::FnModel;

fn toks(s: &str) -> String {
    s.parse::<proc_macro2::TokenStream>().unwrap().to_string()
}

fn roll() -> FnModel {
    FnModel {
        vis: String::new(),
        constness: String::new(),
        unsafety: String::new(),
        asyncness: String::new(),
        abi: String::new(),
        ident: "roll".to_string(),
        gen_params: String::new(),
        params: "&self".to_string(),
        output: "-> String".to_string(),
        where_clause: String::new(),
        block: "{ println!(\"roll and roll\"); \"monkey\".to_string() }".to_string(),
    }
}

#[test]
fn wraps_the_body_between_two_prints() {
    assert_eq!(
        toks(&my_attribute_fn(&roll())),
        toks(
            "fn roll<>(&self) -> String { println!(\"begin\"); \
             let r = || { println!(\"roll and roll\"); \"monkey\".to_string() }; \
             let r = r(); println!(\"after\"); r }"
        )
    );
}

#[test]
fn keeps_every_part_of_the_signature() {
    let f = FnModel {
        vis: "pub".to_string(),
        constness: "const".to_string(),
        unsafety: "unsafe".to_string(),
        asyncness: String::new(),
        abi: String::new(),
        ident: "f".to_string(),
        gen_params: "T: Copy".to_string(),
        params: "x: T".to_string(),
        output: "-> T".to_string(),
        where_clause: "where T: Default".to_string(),
        block: "{ x }".to_string(),
    };
    let out = my_attribute_fn(&f);
    assert_eq!(
        out,
        "pub const unsafe   fn f<T: Copy>(x: T) -> T where T: Default { println!(\"begin\"); let r = || { x }; let r = r(); println!(\"after\"); r }"
    );
}

#[test]
fn wraps_a_function_read_from_source() {
    let out = my_attribute_fn_source(
        "fn roll(&self) -> String { println!(\"roll and roll\"); \"monkey\".to_string() }",
    )
    .unwrap();
    assert_eq!(
        toks(&out),
        toks(
            "fn roll<>(&self) -> String { println!(\"begin\"); \
             let r = || { println!(\"roll and roll\"); \"monkey\".to_string() }; \
             let r = r(); println!(\"after\"); r }"
        )
    );
    assert!(matches!(my_attribute_fn_source("struct S;"), Err(SourceError::Syntax(_))));
}
