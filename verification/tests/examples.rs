use test_proc_macros::examples::{do_test, Animal, Car, Person, Table, Toy};

#[test]
fn attr_add_field_test() {
    let t = Toy {
        a: "a".to_string(),
        b: 1,
        c: false,
        d: "d".to_string(),
    };
    assert_eq!(t.build(), "build completed! d");

    println!("{:?}", t);
}

#[test]
fn attr_add_tuple_test() {
    let t = Table("se".to_string());
    assert_eq!(t.round(), "This is round table! se");
}

#[test]
fn test_attribute_fn() {
    let r = || {
        return Animal {
            t1: "dog".to_string(),
        };
    };
    let (lines, value) = r().roll();
    assert_eq!(lines, vec!["begin", "roll and roll", "after"]);
    assert_eq!(value, "monkey");
}

#[test]
fn test_attribute_struct() {
    let c = Car {
        no: "阿D 12345".to_string(),
    };
    assert_eq!(c.drive(), "Car no 阿D 12345");
}

#[test]
fn declare_test() {
    let map = do_test();
    assert_eq!(map.get(&"name".to_string()).map(|s| s.as_str()), Some("Sam"));
    assert_eq!(map.get(&"call".to_string()).map(|s| s.as_str()), Some("09"));
    assert_eq!(map.get(&"other".to_string()), None);
}

#[test]
fn test_derive() {
    let p = Person {
        name: "I".to_string(),
    };
    assert_eq!(p.ok(), "Hi I, i'm ok!");
    assert_eq!(p.jump(), "I jump high");
}
