//! The types that use the macros, as they stand after expansion. Their methods
//! return the lines that the expanded code prints, in place of printing them.
use vstd::prelude::*;
use vstd::string::*;
use crate::str_map::StrMap;

verus! {

/// A struct to which `#[add_field]` added the field `d`.
#[derive(Debug)]
pub struct Toy {
    pub a: String,
    pub b: i32,
    pub c: bool,
    pub d: String,
}

impl Toy {
    /// The line that `build` prints: `build completed! <d>`.
    pub fn build(&self) -> (res: String)
        ensures
            res@ == "build completed! "@ + self.d@,
    {
        let mut s = String::from_str("build completed! ");
        s.append(self.d.as_str());
        s
    }
}

/// A unit struct that `#[add_tuple]` made a tuple struct with one `String`.
#[derive(Debug)]
pub struct Table(pub String);

impl Table {
    /// The line that `round` prints: `This is round table! <0>`.
    pub fn round(&self) -> (res: String)
        ensures
            res@ == "This is round table! "@ + self.0@,
    {
        let mut s = String::from_str("This is round table! ");
        s.append(self.0.as_str());
        s
    }
}

/// A struct with a method wrapped by `#[my_attribute_fn]`.
#[derive(Debug)]
pub struct Animal {
    pub t1: String,
}

impl Animal {
    /// `roll`, wrapped: the lines printed (`begin`, the body's own line,
    /// `after`) and the value returned.
    pub fn roll(&self) -> (res: (Vec<String>, String))
        ensures
            res.0@.len() == 3,
            res.0@[0]@ == "begin"@,
            res.0@[1]@ == "roll and roll"@,
            res.0@[2]@ == "after"@,
            res.1@ == "monkey"@,
    {
        let mut lines: Vec<String> = Vec::new();
        lines.push(String::from_str("begin"));
        let r = {
            lines.push(String::from_str("roll and roll"));
            String::from_str("monkey")
        };
        lines.push(String::from_str("after"));
        (lines, r)
    }
}

/// A struct to which `#[my_attribute_struct]` added `drive`.
#[derive(Debug)]
pub struct Car {
    pub no: String,
}

impl Car {
    /// The line that `drive` prints: `Car no <no>`.
    pub fn drive(&self) -> (res: String)
        ensures
            res@ == "Car no "@ + self.no@,
    {
        let mut s = String::from_str("Car no ");
        s.append(self.no.as_str());
        s
    }
}

/// A struct to which `#[derive(MyDerive)]` added `ok`.
#[derive(Debug)]
pub struct Person {
    pub name: String,
}

impl Person {
    /// The line that the derived `ok` prints: `Hi <name>, i'm ok!`.
    pub fn ok(&self) -> (res: String)
        ensures
            res@ == "Hi "@ + self.name@ + ", i'm ok!"@,
    {
        let mut s = String::from_str("Hi ");
        s.append(self.name.as_str());
        s.append(", i'm ok!");
        s
    }

    /// The line that `jump` prints: `<name> jump high`.
    pub fn jump(&self) -> (res: String)
        ensures
            res@ == self.name@ + " jump high"@,
    {
        let mut s = self.name.clone();
        s.append(" jump high");
        s
    }
}

/// What `my_macro!(name = "Sam", call = "09")` runs: a map with `name` set to
/// `Sam` and `call` set to `09`.
pub fn do_test() -> (res: StrMap)
    ensures
        res@ == Map::<Seq<char>, Seq<char>>::empty().insert("name"@, "Sam"@).insert("call"@, "09"@),
{
    let mut map = StrMap::new();
    map.insert(String::from_str("name"), String::from_str("Sam"));
    map.insert(String::from_str("call"), String::from_str("09"));
    map
}

} // verus!
