//! The `ErrorMessage` derive: for every variant of an enum, an accessor that
//! borrows the variant's fields and (for a variant with fields) one that takes
//! them by value.
use vstd::prelude::*;
use vstd::string::*;
use crate::model::{
    DataModel, DataView, DeriveInputModel, FieldModel, FieldView, FieldsModel, FieldsView, SourceError,
    VariantModel, VariantView, fields_view, named_fields_named, strings_view, variants_view,
};
use crate::outside::{heck_snake_case, proc_macro2_string_literal, string_literal, to_snake_case};
use crate::reading::{parse_derive_input, syn_derive_input};
use crate::text::{decimal, decimal_text};

verus! {

/// The documentation of the borrowing accessor of `name::variant`.
pub open spec fn doc_ref_text(name: Seq<char>, variant: Seq<char>) -> Seq<char> {
    "Optionally returns references to the inner fields if this is a `"@ + name + "::"@ + variant
        + "`, otherwise `None`"@
}

/// The documentation of the consuming accessor of `name::variant`.
pub open spec fn doc_val_text(name: Seq<char>, variant: Seq<char>) -> Seq<char> {
    "Returns the inner fields if this is a `"@ + name + "::"@ + variant
        + "`, otherwise returns back the enum in the `Err` case of the result"@
}

/// A `#[doc = ...]` attribute holding `doc`.
pub open spec fn doc_attr_text(doc: Seq<char>) -> Seq<char> {
    "#[doc = "@ + proc_macro2_string_literal(doc) + "] "@
}

/// The accessor of a unit variant: `Some(())` on a match, `None` otherwise.
pub open spec fn unit_fields_text(
    name: Seq<char>,
    variant: Seq<char>,
    function_name: Seq<char>,
    doc: Seq<char>,
) -> Seq<char> {
    doc_attr_text(doc) + "pub fn "@ + function_name + "(&self) -> Option<()> { match self { "@
        + name + "::"@ + variant + " => { Some(()) } _ => None } } "@
}

/// The five pieces an accessor pair is built from: the borrowed and owned
/// return types, the pattern's bindings, and the borrowed and owned results.
#[derive(Debug)]
pub struct Shape {
    pub returns_ref: String,
    pub returns_val: String,
    pub matches: String,
    pub accesses_ref: String,
    pub accesses_val: String,
}

/// The view of a [`Shape`].
pub struct ShapeView {
    pub returns_ref: Seq<char>,
    pub returns_val: Seq<char>,
    pub matches: Seq<char>,
    pub accesses_ref: Seq<char>,
    pub accesses_val: Seq<char>,
}

impl View for Shape {
    type V = ShapeView;

    open spec fn view(&self) -> ShapeView {
        ShapeView {
            returns_ref: self.returns_ref@,
            returns_val: self.returns_val@,
            matches: self.matches@,
            accesses_ref: self.accesses_ref@,
            accesses_val: self.accesses_val@,
        }
    }
}

/// The name of a named field (empty for an unnamed one).
pub open spec fn field_name(f: FieldView) -> Seq<char> {
    f.ident
}

/// `& T0, & T1, ...` with a comma after each.
pub open spec fn ref_types_text(fs: Seq<FieldView>) -> Seq<char>
    decreases fs.len(),
{
    if fs.len() == 0 {
        Seq::empty()
    } else {
        ref_types_text(fs.drop_last()) + "& "@ + fs.last().ty + ", "@
    }
}

/// `T0, T1, ...` with a comma after each.
pub open spec fn types_text(fs: Seq<FieldView>) -> Seq<char>
    decreases fs.len(),
{
    if fs.len() == 0 {
        Seq::empty()
    } else {
        types_text(fs.drop_last()) + fs.last().ty + ", "@
    }
}

/// `match_0, match_1, ..., match_{n-1},`.
pub open spec fn match_names_text(n: nat) -> Seq<char>
    decreases n,
{
    if n == 0 {
        Seq::empty()
    } else {
        match_names_text((n - 1) as nat) + "match_"@ + decimal((n - 1) as nat) + ", "@
    }
}

/// `& match_0, & match_1, ..., & match_{n-1},`.
pub open spec fn ref_match_names_text(n: nat) -> Seq<char>
    decreases n,
{
    if n == 0 {
        Seq::empty()
    } else {
        ref_match_names_text((n - 1) as nat) + "& match_"@ + decimal((n - 1) as nat) + ", "@
    }
}

/// `a, b, ...`: the field names, with a comma after each.
pub open spec fn names_text(fs: Seq<FieldView>) -> Seq<char>
    decreases fs.len(),
{
    if fs.len() == 0 {
        Seq::empty()
    } else {
        names_text(fs.drop_last()) + field_name(fs.last()) + ", "@
    }
}

/// `& a, & b, ...`.
pub open spec fn ref_names_text(fs: Seq<FieldView>) -> Seq<char>
    decreases fs.len(),
{
    if fs.len() == 0 {
        Seq::empty()
    } else {
        ref_names_text(fs.drop_last()) + "& "@ + field_name(fs.last()) + ", "@
    }
}

/// The shape of a variant without fields: everything is `()`.
pub open spec fn empty_shape() -> ShapeView {
    ShapeView {
        returns_ref: "()"@,
        returns_val: "()"@,
        matches: Seq::empty(),
        accesses_ref: "()"@,
        accesses_val: "()"@,
    }
}

/// The shape of a tuple variant: a single field is bound as `inner`; several
/// fields are bound as `match_0`, `match_1`, ... and returned as a tuple.
pub open spec fn unnamed_shape(fs: Seq<FieldView>) -> ShapeView {
    if fs.len() == 1 {
        ShapeView {
            returns_ref: "& "@ + fs[0].ty,
            returns_val: fs[0].ty,
            matches: "inner"@,
            accesses_ref: "& inner"@,
            accesses_val: "inner"@,
        }
    } else if fs.len() == 0 {
        empty_shape()
    } else {
        ShapeView {
            returns_ref: "("@ + ref_types_text(fs) + ")"@,
            returns_val: "("@ + types_text(fs) + ")"@,
            matches: match_names_text(fs.len()),
            accesses_ref: "("@ + ref_match_names_text(fs.len()) + ")"@,
            accesses_val: "("@ + match_names_text(fs.len()) + ")"@,
        }
    }
}

/// The shape of a braced variant: fields are bound by their own names.
pub open spec fn named_shape(fs: Seq<FieldView>) -> ShapeView {
    if fs.len() == 1 {
        ShapeView {
            returns_ref: "& "@ + fs[0].ty,
            returns_val: fs[0].ty,
            matches: field_name(fs[0]),
            accesses_ref: "& "@ + field_name(fs[0]),
            accesses_val: field_name(fs[0]),
        }
    } else if fs.len() == 0 {
        empty_shape()
    } else {
        ShapeView {
            returns_ref: "("@ + ref_types_text(fs) + ")"@,
            returns_val: "("@ + types_text(fs) + ")"@,
            matches: names_text(fs),
            accesses_ref: "("@ + ref_names_text(fs) + ")"@,
            accesses_val: "("@ + names_text(fs) + ")"@,
        }
    }
}

/// The two accessors of a variant with fields, given the variant's pattern
/// (`(...)` or `{ ... }`) and what follows the `Ok` arm.
pub open spec fn accessor_pair_text(
    name: Seq<char>,
    variant: Seq<char>,
    ref_name: Seq<char>,
    doc_ref: Seq<char>,
    val_name: Seq<char>,
    doc_val: Seq<char>,
    sh: ShapeView,
    pat: Seq<char>,
    arm_sep: Seq<char>,
) -> Seq<char> {
    doc_attr_text(doc_ref) + "pub fn "@ + ref_name + "(&self) -> Option<"@ + sh.returns_ref
        + "> { match self { "@ + name + "::"@ + variant + pat + " => { Some("@ + sh.accesses_ref
        + ") } _ => None } } "@ + doc_attr_text(doc_val) + "pub fn "@ + val_name
        + "(self) -> ::core::result::Result<"@ + sh.returns_val + ", Self> { match self { "@
        + name + "::"@ + variant + pat + " => { Ok("@ + sh.accesses_val + ") }"@ + arm_sep
        + " _ => Err(self) } } "@
}

/// The accessors of a tuple variant.
pub open spec fn unnamed_fields_text(
    name: Seq<char>,
    variant: Seq<char>,
    ref_name: Seq<char>,
    doc_ref: Seq<char>,
    val_name: Seq<char>,
    doc_val: Seq<char>,
    fs: Seq<FieldView>,
) -> Seq<char> {
    let sh = unnamed_shape(fs);
    accessor_pair_text(name, variant, ref_name, doc_ref, val_name, doc_val, sh,
        "("@ + sh.matches + ")"@, ","@)
}

/// The accessors of a braced variant.
pub open spec fn named_fields_text(
    name: Seq<char>,
    variant: Seq<char>,
    ref_name: Seq<char>,
    doc_ref: Seq<char>,
    val_name: Seq<char>,
    doc_val: Seq<char>,
    fs: Seq<FieldView>,
) -> Seq<char> {
    let sh = named_shape(fs);
    accessor_pair_text(name, variant, ref_name, doc_ref, val_name, doc_val, sh,
        "{ "@ + sh.matches + " }"@, Seq::empty())
}

/// Every field of a braced variant has a (non-empty) name.
pub open spec fn variant_wf(v: VariantView) -> bool {
    named_fields_named(v.fields)
}

/// The code generated for one variant, given its accessors' names.
#[verifier::opaque]
pub open spec fn variant_text(name: Seq<char>, v: VariantView, ref_name: Seq<char>, val_name: Seq<char>) -> Seq<char> {
    match v.fields {
        FieldsView::Unit => unit_fields_text(name, v.ident, ref_name, doc_ref_text(name, v.ident)),
        FieldsView::Unnamed(fs) => unnamed_fields_text(name, v.ident, ref_name,
            doc_ref_text(name, v.ident), val_name, doc_val_text(name, v.ident), fs),
        FieldsView::Named(fs) => named_fields_text(name, v.ident, ref_name,
            doc_ref_text(name, v.ident), val_name, doc_val_text(name, v.ident), fs),
    }
}

/// The line printed while one variant is expanded.
pub open spec fn variant_log(name: Seq<char>, v: VariantView) -> Seq<char> {
    match v.fields {
        FieldsView::Unit => "Unit "@ + v.ident,
        FieldsView::Unnamed(_) => "Unnamed "@ + name,
        FieldsView::Named(_) => "Named "@ + name,
    }
}


/// All variants' code, for the first `n` variants, in order.
pub open spec fn variants_text(
    name: Seq<char>,
    vs: Seq<VariantView>,
    refs: Seq<Seq<char>>,
    vals: Seq<Seq<char>>,
    n: nat,
) -> Seq<char>
    decreases n,
{
    if n == 0 {
        Seq::empty()
    } else {
        variants_text(name, vs, refs, vals, (n - 1) as nat)
            + variant_text(name, vs[n - 1], refs[n - 1], vals[n - 1])
    }
}

/// The whole expansion: one inherent `impl` block holding every variant's code.
pub open spec fn impl_text(name: Seq<char>, vs: Seq<VariantView>, refs: Seq<Seq<char>>, vals: Seq<Seq<char>>) -> Seq<char> {
    "impl "@ + name + " { "@ + variants_text(name, vs, refs, vals, vs.len()) + "}"@
}

/// The lines printed during the expansion, one per variant.
pub open spec fn logs(name: Seq<char>, vs: Seq<VariantView>) -> Seq<Seq<char>> {
    Seq::new(vs.len(), |i: int| variant_log(name, vs[i]))
}

/// The name of the borrowing accessor of a variant: `as_<variant>` in snake case.
pub open spec fn ref_accessor_name(variant: Seq<char>) -> Seq<char> {
    heck_snake_case("as_"@ + variant)
}

/// The name of the consuming accessor of a variant: `into_<variant>` in snake case.
pub open spec fn val_accessor_name(variant: Seq<char>) -> Seq<char> {
    heck_snake_case("into_"@ + variant)
}

/// The code generated by the derive, and the lines it prints while it runs.
#[derive(Debug)]
pub struct ErrorMessageExpansion {
    pub code: String,
    pub log: Vec<String>,
}

fn append_doc_attr(out: &mut String, doc: &str)
    ensures
        final(out)@ == old(out)@ + doc_attr_text(doc@),
{
    let q = string_literal(doc);
    out.append("#[doc = ");
    out.append(q.as_str());
    out.append("] ");
}

/// The documentation of the borrowing accessor of `name::variant`.
pub fn doc_ref(name: &str, variant: &str) -> (res: String)
    ensures
        res@ == doc_ref_text(name@, variant@),
{
    let mut s = String::from_str("Optionally returns references to the inner fields if this is a `");
    s.append(name);
    s.append("::");
    s.append(variant);
    s.append("`, otherwise `None`");
    s
}

/// The documentation of the consuming accessor of `name::variant`.
pub fn doc_val(name: &str, variant: &str) -> (res: String)
    ensures
        res@ == doc_val_text(name@, variant@),
{
    let mut s = String::from_str("Returns the inner fields if this is a `");
    s.append(name);
    s.append("::");
    s.append(variant);
    s.append("`, otherwise returns back the enum in the `Err` case of the result");
    s
}

/// The accessor of the unit variant `name::variant_name`.
pub fn unit_fields_return(name: &str, variant_name: &str, function_name: &str, doc: &str) -> (res: String)
    ensures
        res@ == unit_fields_text(name@, variant_name@, function_name@, doc@),
{
    let mut s = String::new();
    append_doc_attr(&mut s, doc);
    s.append("pub fn ");
    s.append(function_name);
    s.append("(&self) -> Option<()> { match self { ");
    s.append(name);
    s.append("::");
    s.append(variant_name);
    s.append(" => { Some(()) } _ => None } } ");
    s
}

fn paren(s: &str) -> (res: String)
    ensures
        res@ == "("@ + s@ + ")"@,
{
    let mut r = String::from_str("(");
    r.append(s);
    r.append(")");
    r
}

fn prefixed(prefix: &str, s: &str) -> (res: String)
    ensures
        res@ == prefix@ + s@,
{
    let mut r = String::from_str(prefix);
    r.append(s);
    r
}

fn shape_of_nothing() -> (res: Shape)
    ensures
        res@ == empty_shape(),
{
    Shape {
        returns_ref: String::from_str("()"),
        returns_val: String::from_str("()"),
        matches: String::new(),
        accesses_ref: String::from_str("()"),
        accesses_val: String::from_str("()"),
    }
}

/// The shape of a tuple variant with the fields `fs`.
#[verifier::rlimit(40)]
pub fn unnamed_shape_of(fs: &Vec<FieldModel>) -> (res: Shape)
    ensures
        res@ == unnamed_shape(fields_view(fs@)),
{
    let ghost v = fields_view(fs@);
    let n = fs.len();
    if n == 1 {
        return Shape {
            returns_ref: prefixed("& ", fs[0].ty.as_str()),
            returns_val: fs[0].ty.clone(),
            matches: String::from_str("inner"),
            accesses_ref: String::from_str("& inner"),
            accesses_val: String::from_str("inner"),
        };
    }
    if n == 0 {
        return shape_of_nothing();
    }
    let mut rr = String::new();
    let mut rv = String::new();
    let mut m = String::new();
    let mut ar = String::new();
    let mut i: usize = 0;
    assert(v.take(0) =~= Seq::<FieldView>::empty());
    while i < n
        invariant
            v == fields_view(fs@),
            v.len() == n,
            n == fs@.len(),
            i <= n,
            rr@ == ref_types_text(v.take(i as int)),
            rv@ == types_text(v.take(i as int)),
            m@ == match_names_text(i as nat),
            ar@ == ref_match_names_text(i as nat),
        decreases n - i,
    {
        proof {
            assert(v.take(i + 1).drop_last() =~= v.take(i as int));
            assert(v.take(i + 1).last() == fs@[i as int]@);
        }
        let idx = decimal_text(i);
        rr.append("& ");
        rr.append(fs[i].ty.as_str());
        rr.append(", ");
        rv.append(fs[i].ty.as_str());
        rv.append(", ");
        m.append("match_");
        m.append(idx.as_str());
        m.append(", ");
        ar.append("& match_");
        ar.append(idx.as_str());
        ar.append(", ");
        i = i + 1;
    }
    assert(v.take(n as int) =~= v);
    let av = paren(m.as_str());
    Shape {
        returns_ref: paren(rr.as_str()),
        returns_val: paren(rv.as_str()),
        matches: m,
        accesses_ref: paren(ar.as_str()),
        accesses_val: av,
    }
}

fn name_of(f: &FieldModel) -> (res: &str)
    ensures
        res@ == field_name(f@),
{
    f.ident.as_str()
}

/// The shape of a braced variant with the fields `fs`.
#[verifier::rlimit(40)]
pub fn named_shape_of(fs: &Vec<FieldModel>) -> (res: Shape)
    ensures
        res@ == named_shape(fields_view(fs@)),
{
    let ghost v = fields_view(fs@);
    let n = fs.len();
    if n == 1 {
        let id = name_of(&fs[0]);
        return Shape {
            returns_ref: prefixed("& ", fs[0].ty.as_str()),
            returns_val: fs[0].ty.clone(),
            matches: String::from_str(id),
            accesses_ref: prefixed("& ", id),
            accesses_val: String::from_str(id),
        };
    }
    if n == 0 {
        return shape_of_nothing();
    }
    let mut rr = String::new();
    let mut rv = String::new();
    let mut m = String::new();
    let mut ar = String::new();
    let mut i: usize = 0;
    assert(v.take(0) =~= Seq::<FieldView>::empty());
    while i < n
        invariant
            v == fields_view(fs@),
            v.len() == n,
            n == fs@.len(),
            i <= n,
            rr@ == ref_types_text(v.take(i as int)),
            rv@ == types_text(v.take(i as int)),
            m@ == names_text(v.take(i as int)),
            ar@ == ref_names_text(v.take(i as int)),
        decreases n - i,
    {
        proof {
            assert(v.take(i + 1).drop_last() =~= v.take(i as int));
            assert(v.take(i + 1).last() == fs@[i as int]@);
        }
        let id = name_of(&fs[i]);
        rr.append("& ");
        rr.append(fs[i].ty.as_str());
        rr.append(", ");
        rv.append(fs[i].ty.as_str());
        rv.append(", ");
        m.append(id);
        m.append(", ");
        ar.append("& ");
        ar.append(id);
        ar.append(", ");
        i = i + 1;
    }
    assert(v.take(n as int) =~= v);
    let av = paren(m.as_str());
    Shape {
        returns_ref: paren(rr.as_str()),
        returns_val: paren(rv.as_str()),
        matches: m,
        accesses_ref: paren(ar.as_str()),
        accesses_val: av,
    }
}

#[verifier::rlimit(40)]
fn accessor_pair(
    name: &str,
    variant: &str,
    ref_name: &str,
    doc_ref: &str,
    val_name: &str,
    doc_val: &str,
    sh: &Shape,
    pat: &str,
    arm_sep: &str,
) -> (res: String)
    ensures
        res@ == accessor_pair_text(name@, variant@, ref_name@, doc_ref@, val_name@, doc_val@, sh@, pat@, arm_sep@),
{
    let mut s = String::new();
    append_doc_attr(&mut s, doc_ref);
    s.append("pub fn ");
    s.append(ref_name);
    s.append("(&self) -> Option<");
    s.append(sh.returns_ref.as_str());
    s.append("> { match self { ");
    s.append(name);
    s.append("::");
    s.append(variant);
    s.append(pat);
    s.append(" => { Some(");
    s.append(sh.accesses_ref.as_str());
    s.append(") } _ => None } } ");
    append_doc_attr(&mut s, doc_val);
    s.append("pub fn ");
    s.append(val_name);
    s.append("(self) -> ::core::result::Result<");
    s.append(sh.returns_val.as_str());
    s.append(", Self> { match self { ");
    s.append(name);
    s.append("::");
    s.append(variant);
    s.append(pat);
    s.append(" => { Ok(");
    s.append(sh.accesses_val.as_str());
    s.append(") }");
    s.append(arm_sep);
    s.append(" _ => Err(self) } } ");
    s
}

/// The two accessors of the tuple variant `name::variant_name` with the fields `fields`.
pub fn unnamed_fields_return(
    name: &str,
    variant_name: &str,
    function_name_ref: &str,
    doc_ref: &str,
    function_name_val: &str,
    doc_val: &str,
    fields: &Vec<FieldModel>,
) -> (res: String)
    ensures
        res@ == unnamed_fields_text(name@, variant_name@, function_name_ref@, doc_ref@,
            function_name_val@, doc_val@, fields_view(fields@)),
{
    let sh = unnamed_shape_of(fields);
    let pat = paren(sh.matches.as_str());
    accessor_pair(name, variant_name, function_name_ref, doc_ref, function_name_val, doc_val, &sh,
        pat.as_str(), ",")
}

/// The two accessors of the braced variant `name::variant_name` with the fields `fields`.
pub fn named_fields_return(
    name: &str,
    variant_name: &str,
    function_name_ref: &str,
    doc_ref: &str,
    function_name_val: &str,
    doc_val: &str,
    fields: &Vec<FieldModel>,
) -> (res: String)
    requires
        forall|j: int| 0 <= j < fields@.len() ==> (#[trigger] fields@[j]).ident@.len() > 0,
    ensures
        res@ == named_fields_text(name@, variant_name@, function_name_ref@, doc_ref@,
            function_name_val@, doc_val@, fields_view(fields@)),
{
    let sh = named_shape_of(fields);
    let mut pat = String::from_str("{ ");
    pat.append(sh.matches.as_str());
    pat.append(" }");
    proof { reveal_strlit(""); }
    accessor_pair(name, variant_name, function_name_ref, doc_ref, function_name_val, doc_val, &sh,
        pat.as_str(), "")
}

/// The code for one variant of the enum `name`, given its accessors' names, and
/// the line printed for it.
pub fn variant_accessors(name: &str, v: &VariantModel, ref_name: &str, val_name: &str) -> (res: (String, String))
    requires
        variant_wf(v@),
    ensures
        res.0@ == variant_text(name@, v@, ref_name@, val_name@),
        res.1@ == variant_log(name@, v@),
{
    reveal(variant_text);
    let dref = doc_ref(name, v.ident.as_str());
    match &v.fields {
        FieldsModel::Unit => {
            let log = prefixed("Unit ", v.ident.as_str());
            (unit_fields_return(name, v.ident.as_str(), ref_name, dref.as_str()), log)
        },
        FieldsModel::Unnamed(fs) => {
            let log = prefixed("Unnamed ", name);
            let dval = doc_val(name, v.ident.as_str());
            (unnamed_fields_return(name, v.ident.as_str(), ref_name, dref.as_str(), val_name,
                dval.as_str(), fs), log)
        },
        FieldsModel::Named(fs) => {
            let log = prefixed("Named ", name);
            let dval = doc_val(name, v.ident.as_str());
            assert forall|j: int| 0 <= j < fs@.len() implies (#[trigger] fs@[j]).ident@.len() > 0 by {
                assert(v@.fields->Named_0[j] == fs@[j]@);
            }
            (named_fields_return(name, v.ident.as_str(), ref_name, dref.as_str(), val_name,
                dval.as_str(), fs), log)
        },
    }
}

/// The expansion of the derive on the enum `name` with the variants `variants`,
/// given each variant's accessor names.
#[verifier::rlimit(40)]
pub fn expand_error_message(
    name: &str,
    variants: &Vec<VariantModel>,
    ref_names: &Vec<String>,
    val_names: &Vec<String>,
) -> (res: ErrorMessageExpansion)
    requires
        ref_names@.len() == variants@.len(),
        val_names@.len() == variants@.len(),
        forall|i: int| 0 <= i < variants@.len() ==> variant_wf(#[trigger] variants@[i]@),
    ensures
        res.code@ == impl_text(name@, variants_view(variants@), strings_view(ref_names@),
            strings_view(val_names@)),
        strings_view(res.log@) == logs(name@, variants_view(variants@)),
{
    let ghost vs = variants_view(variants@);
    let ghost refs = strings_view(ref_names@);
    let ghost vals = strings_view(val_names@);
    let mut body = String::new();
    let mut log: Vec<String> = Vec::new();
    let n = variants.len();
    let mut i: usize = 0;
    while i < n
        invariant
            vs == variants_view(variants@),
            refs == strings_view(ref_names@),
            vals == strings_view(val_names@),
            n == variants@.len(),
            ref_names@.len() == n,
            val_names@.len() == n,
            forall|k: int| 0 <= k < variants@.len() ==> variant_wf(#[trigger] variants@[k]@),
            i <= n,
            body@ == variants_text(name@, vs, refs, vals, i as nat),
            strings_view(log@) == logs(name@, vs).take(i as int),
        decreases n - i,
    {
        let (code, line) = variant_accessors(name, &variants[i], ref_names[i].as_str(), val_names[i].as_str());
        body.append(code.as_str());
        let ghost old_log = strings_view(log@);
        log.push(line);
        assert(strings_view(log@) =~= old_log.push(variant_log(name@, vs[i as int])));
        assert(logs(name@, vs).take(i + 1) =~= logs(name@, vs).take(i as int).push(variant_log(name@, vs[i as int])));
        i = i + 1;
    }
    assert(logs(name@, vs).take(n as int) =~= logs(name@, vs));
    let mut code = String::from_str("impl ");
    code.append(name);
    code.append(" { ");
    code.append(body.as_str());
    code.append("}");
    ErrorMessageExpansion { code, log }
}

/// The names of a variant's two accessors: `as_<variant>` and `into_<variant>`,
/// each put in snake case by `heck`.
pub fn accessor_names(variant: &str) -> (res: (String, String))
    ensures
        res.0@ == ref_accessor_name(variant@),
        res.1@ == val_accessor_name(variant@),
{
    let a = prefixed("as_", variant);
    let b = prefixed("into_", variant);
    (to_snake_case(a.as_str()), to_snake_case(b.as_str()))
}

/// `#[derive(ErrorMessage)]` on an enum: an inherent `impl` block with the
/// accessors of every variant, in order, and one printed line per variant.
/// (A struct or union is no input for it.)
pub fn error_message_derive(input: &DeriveInputModel) -> (res: ErrorMessageExpansion)
    requires
        input.data is Enum,
        forall|i: int| 0 <= i < input.data->Enum_0@.len() ==> variant_wf(#[trigger] input.data->Enum_0@[i]@),
    ensures
        ({
            let vs = variants_view(input.data->Enum_0@);
            &&& res.code@ == impl_text(input.ident@, vs,
                Seq::new(vs.len(), |i: int| ref_accessor_name(vs[i].ident)),
                Seq::new(vs.len(), |i: int| val_accessor_name(vs[i].ident)))
            &&& strings_view(res.log@) == logs(input.ident@, vs)
        }),
{
    let variants = match &input.data {
        DataModel::Enum(vs) => vs,
        _ => {
            proof { assert(false); }
            return ErrorMessageExpansion { code: String::new(), log: Vec::new() };
        },
    };
    let ghost vs = variants_view(variants@);
    let n = variants.len();
    let mut refs: Vec<String> = Vec::new();
    let mut vals: Vec<String> = Vec::new();
    let mut i: usize = 0;
    while i < n
        invariant
            vs == variants_view(variants@),
            n == variants@.len(),
            i <= n,
            refs@.len() == i,
            vals@.len() == i,
            forall|k: int| 0 <= k < i ==> (#[trigger] refs@[k])@ == ref_accessor_name(vs[k].ident),
            forall|k: int| 0 <= k < i ==> (#[trigger] vals@[k])@ == val_accessor_name(vs[k].ident),
        decreases n - i,
    {
        let (r, v) = accessor_names(variants[i].ident.as_str());
        refs.push(r);
        vals.push(v);
        i = i + 1;
    }
    assert(strings_view(refs@) =~= Seq::new(vs.len(), |i: int| ref_accessor_name(vs[i].ident)));
    assert(strings_view(vals@) =~= Seq::new(vs.len(), |i: int| val_accessor_name(vs[i].ident)));
    expand_error_message(input.ident.as_str(), variants, &refs, &vals)
}


/// The code for the variants `vs1 + vs2` is the code for `vs1` followed by the
/// code for `vs2`: each variant's accessors depend on that variant (and its
/// names) alone, and come in the variants' order.
#[verifier::rlimit(40)]
pub proof fn lemma_variants_text_concat(
    name: Seq<char>,
    vs1: Seq<VariantView>,
    refs1: Seq<Seq<char>>,
    vals1: Seq<Seq<char>>,
    vs2: Seq<VariantView>,
    refs2: Seq<Seq<char>>,
    vals2: Seq<Seq<char>>,
)
    requires
        refs1.len() == vs1.len(),
        vals1.len() == vs1.len(),
        refs2.len() == vs2.len(),
        vals2.len() == vs2.len(),
    ensures
        variants_text(name, vs1 + vs2, refs1 + refs2, vals1 + vals2, vs1.len() + vs2.len())
            == variants_text(name, vs1, refs1, vals1, vs1.len())
            + variants_text(name, vs2, refs2, vals2, vs2.len()),
    decreases vs2.len(),
{
    let vs = vs1 + vs2;
    let refs = refs1 + refs2;
    let vals = vals1 + vals2;
    lemma_variants_text_prefix(name, vs, refs, vals, vs1, refs1, vals1, vs1.len());
    if vs2.len() == 0 {
        assert(variants_text(name, vs1, refs1, vals1, vs1.len())
            + variants_text(name, vs2, refs2, vals2, 0) =~= variants_text(name, vs1, refs1, vals1, vs1.len()));
    } else {
        let n2 = (vs2.len() - 1) as nat;
        lemma_variants_text_concat(name, vs1, refs1, vals1, vs2.take(n2 as int),
            refs2.take(n2 as int), vals2.take(n2 as int));
        lemma_variants_text_prefix(name, vs2, refs2, vals2, vs2.take(n2 as int),
            refs2.take(n2 as int), vals2.take(n2 as int), n2);
        lemma_variants_text_prefix(name, vs, refs, vals, vs1 + vs2.take(n2 as int),
            refs1 + refs2.take(n2 as int), vals1 + vals2.take(n2 as int), vs1.len() + n2);
        assert(vs[(vs1.len() + n2) as int] == vs2[n2 as int]);
        assert(refs[(vs1.len() + n2) as int] == refs2[n2 as int]);
        assert(vals[(vs1.len() + n2) as int] == vals2[n2 as int]);
    }
}

/// The code for the first `n` variants reads only those variants and names.
proof fn lemma_variants_text_prefix(
    name: Seq<char>,
    vs: Seq<VariantView>,
    refs: Seq<Seq<char>>,
    vals: Seq<Seq<char>>,
    ws: Seq<VariantView>,
    refs_w: Seq<Seq<char>>,
    vals_w: Seq<Seq<char>>,
    n: nat,
)
    requires
        n <= ws.len(),
        n <= vs.len(),
        n <= refs.len(),
        n <= vals.len(),
        n <= refs_w.len(),
        n <= vals_w.len(),
        forall|i: int| 0 <= i < n ==> vs[i] == ws[i] && refs[i] == refs_w[i] && vals[i] == vals_w[i],
    ensures
        variants_text(name, vs, refs, vals, n) == variants_text(name, ws, refs_w, vals_w, n),
    decreases n,
{
    if n > 0 {
        lemma_variants_text_prefix(name, vs, refs, vals, ws, refs_w, vals_w, (n - 1) as nat);
        assert(vs[n - 1] == ws[n - 1]);
    }
}


/// The code for the variants `vs` of the enum `name`, with the accessor names
/// that `heck` gives them.
pub open spec fn derived_impl_text(name: Seq<char>, vs: Seq<VariantView>) -> Seq<char> {
    impl_text(name, vs,
        Seq::new(vs.len(), |i: int| ref_accessor_name(vs[i].ident)),
        Seq::new(vs.len(), |i: int| val_accessor_name(vs[i].ident)))
}

/// `#[derive(ErrorMessage)]` on the item written in `source`: the item is read
/// with `syn`; an enum is expanded as [`error_message_derive`] does, a struct or
/// union is refused with `NotAnEnum` and its name.
pub fn error_message_derive_source(source: &str) -> (res: Result<ErrorMessageExpansion, SourceError>)
    ensures
        match syn_derive_input(source@) {
            Some(d) => match d.data {
                DataView::Enum(vs) => res matches Ok(x)
                    && x.code@ == derived_impl_text(d.ident, vs)
                    && strings_view(x.log@) == logs(d.ident, vs),
                _ => res matches Err(SourceError::NotAnEnum(n)) && n@ == d.ident,
            },
            None => res matches Err(SourceError::Syntax(_)),
        },
{
    match parse_derive_input(source) {
        Ok(input) => {
            let is_enum = match &input.data {
                DataModel::Enum(_) => true,
                _ => false,
            };
            if !is_enum {
                return Err(SourceError::NotAnEnum(input.ident));
            }
            proof {
                let vs = input.data->Enum_0@;
                assert forall|i: int| 0 <= i < vs.len() implies variant_wf(#[trigger] vs[i]@) by {
                    assert(variants_view(vs)[i] == vs[i]@);
                }
            }
            Ok(error_message_derive(&input))
        },
        Err(msg) => Err(SourceError::Syntax(msg)),
    }
}


proof fn lemma_variant_text_ignores_attrs(name: Seq<char>, v1: VariantView, v2: VariantView, r: Seq<char>, w: Seq<char>)
    requires
        v1.ident == v2.ident,
        v1.fields == v2.fields,
    ensures
        variant_text(name, v1, r, w) == variant_text(name, v2, r, w),
        variant_log(name, v1) == variant_log(name, v2),
{
    reveal(variant_text);
}

proof fn lemma_variants_text_ignores_attrs(
    name: Seq<char>,
    vs1: Seq<VariantView>,
    vs2: Seq<VariantView>,
    refs: Seq<Seq<char>>,
    vals: Seq<Seq<char>>,
    n: nat,
)
    requires
        n <= vs1.len(),
        n <= vs2.len(),
        forall|i: int| 0 <= i < n ==> vs1[i].ident == vs2[i].ident && vs1[i].fields == vs2[i].fields,
    ensures
        variants_text(name, vs1, refs, vals, n) == variants_text(name, vs2, refs, vals, n),
    decreases n,
{
    if n > 0 {
        lemma_variants_text_ignores_attrs(name, vs1, vs2, refs, vals, (n - 1) as nat);
        lemma_variant_text_ignores_attrs(name, vs1[n - 1], vs2[n - 1], refs[n - 1], vals[n - 1]);
    }
}

/// The variants' attributes (such as `#[error_message(...)]`) never change the
/// derive's output: two enums whose variants differ only in their attributes
/// expand to the same code and print the same lines.
pub proof fn lemma_derive_ignores_variant_attributes(name: Seq<char>, vs1: Seq<VariantView>, vs2: Seq<VariantView>)
    requires
        vs1.len() == vs2.len(),
        forall|i: int| 0 <= i < vs1.len() ==> vs1[i].ident == vs2[i].ident && vs1[i].fields == vs2[i].fields,
    ensures
        derived_impl_text(name, vs1) == derived_impl_text(name, vs2),
        logs(name, vs1) == logs(name, vs2),
{
    let refs1 = Seq::new(vs1.len(), |i: int| ref_accessor_name(vs1[i].ident));
    let refs2 = Seq::new(vs2.len(), |i: int| ref_accessor_name(vs2[i].ident));
    let vals1 = Seq::new(vs1.len(), |i: int| val_accessor_name(vs1[i].ident));
    let vals2 = Seq::new(vs2.len(), |i: int| val_accessor_name(vs2[i].ident));
    assert(refs1 =~= refs2);
    assert(vals1 =~= vals2);
    lemma_variants_text_ignores_attrs(name, vs1, vs2, refs1, vals1, vs1.len());
    assert forall|i: int| 0 <= i < vs1.len() implies logs(name, vs1)[i] == logs(name, vs2)[i] by {
        lemma_variant_text_ignores_attrs(name, vs1[i], vs2[i], refs1[i], vals1[i]);
    }
    assert(logs(name, vs1) =~= logs(name, vs2));
}


/// Each part followed by `, `.
pub open spec fn comma_items(parts: Seq<Seq<char>>) -> Seq<Seq<char>> {
    Seq::new(parts.len(), |i: int| parts[i] + ", "@)
}

/// The parts written one after the other, each followed by `, `.
pub open spec fn comma_list(parts: Seq<Seq<char>>) -> Seq<char> {
    comma_items(parts).flatten()
}

/// The fields' types, in order.
pub open spec fn field_types(fs: Seq<FieldView>) -> Seq<Seq<char>> {
    Seq::new(fs.len(), |i: int| fs[i].ty)
}

/// The fields' names, in order.
pub open spec fn field_names(fs: Seq<FieldView>) -> Seq<Seq<char>> {
    Seq::new(fs.len(), |i: int| field_name(fs[i]))
}

/// The bindings `match_0`, ..., `match_{n-1}`.
pub open spec fn match_names(n: nat) -> Seq<Seq<char>> {
    Seq::new(n, |i: int| "match_"@ + decimal(i as nat))
}

/// Each part with `prefix` in front of it.
pub open spec fn prefixed_all(prefix: Seq<char>, parts: Seq<Seq<char>>) -> Seq<Seq<char>> {
    Seq::new(parts.len(), |i: int| prefix + parts[i])
}

proof fn lemma_comma_list_empty(parts: Seq<Seq<char>>)
    requires
        parts.len() == 0,
    ensures
        comma_list(parts) == Seq::<char>::empty(),
{
    assert(comma_items(parts) =~= Seq::<Seq<char>>::empty());
}

proof fn lemma_comma_list_push(parts: Seq<Seq<char>>, x: Seq<char>)
    ensures
        comma_list(parts.push(x)) == comma_list(parts) + (x + ", "@),
{
    assert(comma_items(parts.push(x)) =~= comma_items(parts).push(x + ", "@));
    comma_items(parts).lemma_flatten_push(x + ", "@);
}

/// `types_text` writes each field's own type, in order, each followed by `, `.
pub proof fn lemma_types_text_lists_types(fs: Seq<FieldView>)
    ensures
        types_text(fs) == comma_list(field_types(fs)),
        ref_types_text(fs) == comma_list(prefixed_all("& "@, field_types(fs))),
    decreases fs.len(),
{
    if fs.len() == 0 {
        lemma_comma_list_empty(field_types(fs));
        lemma_comma_list_empty(prefixed_all("& "@, field_types(fs)));
    } else {
        let init = fs.drop_last();
        lemma_types_text_lists_types(init);
        assert(field_types(fs) =~= field_types(init).push(fs.last().ty));
        assert(prefixed_all("& "@, field_types(fs))
            =~= prefixed_all("& "@, field_types(init)).push("& "@ + fs.last().ty));
        lemma_comma_list_push(field_types(init), fs.last().ty);
        lemma_comma_list_push(prefixed_all("& "@, field_types(init)), "& "@ + fs.last().ty);
        assert(types_text(fs) =~= comma_list(field_types(fs)));
        assert(ref_types_text(fs) =~= comma_list(prefixed_all("& "@, field_types(fs))));
    }
}

/// `names_text` writes each field's own name, in order, each followed by `, `.
pub proof fn lemma_names_text_lists_names(fs: Seq<FieldView>)
    ensures
        names_text(fs) == comma_list(field_names(fs)),
        ref_names_text(fs) == comma_list(prefixed_all("& "@, field_names(fs))),
    decreases fs.len(),
{
    if fs.len() == 0 {
        lemma_comma_list_empty(field_names(fs));
        lemma_comma_list_empty(prefixed_all("& "@, field_names(fs)));
    } else {
        let init = fs.drop_last();
        lemma_names_text_lists_names(init);
        assert(field_names(fs) =~= field_names(init).push(field_name(fs.last())));
        assert(prefixed_all("& "@, field_names(fs))
            =~= prefixed_all("& "@, field_names(init)).push("& "@ + field_name(fs.last())));
        lemma_comma_list_push(field_names(init), field_name(fs.last()));
        lemma_comma_list_push(prefixed_all("& "@, field_names(init)), "& "@ + field_name(fs.last()));
        assert(names_text(fs) =~= comma_list(field_names(fs)));
        assert(ref_names_text(fs) =~= comma_list(prefixed_all("& "@, field_names(fs))));
    }
}

/// `match_names_text(n)` writes `match_0`, ..., `match_{n-1}`, in order, each
/// followed by `, `.
pub proof fn lemma_match_names_text_lists_bindings(n: nat)
    ensures
        match_names_text(n) == comma_list(match_names(n)),
        ref_match_names_text(n) == comma_list(prefixed_all("& "@, match_names(n))),
    decreases n,
{
    if n == 0 {
        lemma_comma_list_empty(match_names(n));
        lemma_comma_list_empty(prefixed_all("& "@, match_names(n)));
    } else {
        let m = (n - 1) as nat;
        lemma_match_names_text_lists_bindings(m);
        let last = "match_"@ + decimal(m);
        assert(match_names(n) =~= match_names(m).push(last));
        assert(prefixed_all("& "@, match_names(n)) =~= prefixed_all("& "@, match_names(m)).push("& "@ + last));
        lemma_comma_list_push(match_names(m), last);
        lemma_comma_list_push(prefixed_all("& "@, match_names(m)), "& "@ + last);
        reveal_strlit("& match_");
        reveal_strlit("& ");
        reveal_strlit("match_");
        assert("& match_"@ + decimal(m) =~= "& "@ + last);
        assert(match_names_text(n) =~= comma_list(match_names(n)));
        assert(ref_match_names_text(n) =~= comma_list(prefixed_all("& "@, match_names(n))));
    }
}

/// The accessors of a tuple variant with several fields return, by value, the
/// tuple of the fields' own types in order (`(T0, T1, ..., )`), and by
/// reference the tuple of references to them; they bind the fields as
/// `match_0`, `match_1`, ... and return those bindings in the same order.
pub proof fn lemma_unnamed_shape_lists_fields(fs: Seq<FieldView>)
    requires
        fs.len() >= 2,
    ensures
        unnamed_shape(fs).returns_val == "("@ + comma_list(field_types(fs)) + ")"@,
        unnamed_shape(fs).returns_ref == "("@ + comma_list(prefixed_all("& "@, field_types(fs))) + ")"@,
        unnamed_shape(fs).matches == comma_list(match_names(fs.len())),
        unnamed_shape(fs).accesses_val == "("@ + comma_list(match_names(fs.len())) + ")"@,
        unnamed_shape(fs).accesses_ref
            == "("@ + comma_list(prefixed_all("& "@, match_names(fs.len()))) + ")"@,
{
    lemma_types_text_lists_types(fs);
    lemma_match_names_text_lists_bindings(fs.len());
}

/// The accessors of a braced variant with several fields return, by value, the
/// tuple of the fields' own types in order, and by reference the tuple of
/// references to them; they bind the fields by their own names and return
/// those in the same order.
pub proof fn lemma_named_shape_lists_fields(fs: Seq<FieldView>)
    requires
        fs.len() >= 2,
    ensures
        named_shape(fs).returns_val == "("@ + comma_list(field_types(fs)) + ")"@,
        named_shape(fs).returns_ref == "("@ + comma_list(prefixed_all("& "@, field_types(fs))) + ")"@,
        named_shape(fs).matches == comma_list(field_names(fs)),
        named_shape(fs).accesses_val == "("@ + comma_list(field_names(fs)) + ")"@,
        named_shape(fs).accesses_ref == "("@ + comma_list(prefixed_all("& "@, field_names(fs))) + ")"@,
{
    lemma_types_text_lists_types(fs);
    lemma_names_text_lists_names(fs);
}

} // verus!
