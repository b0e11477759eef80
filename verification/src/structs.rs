//! Struct items: their rendering as source text, the derive that adds an `ok`
//! method, the attribute that adds a `drive` method, and the two attributes that
//! add a field.
use vstd::prelude::*;
use vstd::string::*;
use crate::model::{
    DeriveInputModel, FieldModel, FieldView, FieldsModel, FieldsView, SourceError, StructModel,
    StructView, fields_view, strings_view,
};
use crate::reading::{parse_derive_input, parse_item_struct, syn_derive_input, syn_item_struct};

verus! {

/// The source text of one field, as written.
pub open spec fn field_text(f: FieldView) -> Seq<char> {
    f.text
}

/// The outer attributes, each followed by a space.
pub open spec fn attrs_text(attrs: Seq<Seq<char>>) -> Seq<char>
    decreases attrs.len(),
{
    if attrs.len() == 0 {
        Seq::empty()
    } else {
        attrs_text(attrs.drop_last()) + attrs.last() + " "@
    }
}

/// The fields separated by commas, without a trailing comma.
pub open spec fn fields_text(fs: Seq<FieldView>) -> Seq<char>
    decreases fs.len(),
{
    if fs.len() == 0 {
        Seq::empty()
    } else if fs.len() == 1 {
        field_text(fs[0])
    } else {
        fields_text(fs.drop_last()) + ", "@ + field_text(fs.last())
    }
}

/// The source text of a struct item printed from its parts: braced fields
/// follow the `where` clause, tuple fields precede it, and a tuple or unit
/// struct ends with `;`.
pub open spec fn struct_text(s: StructView) -> Seq<char> {
    attrs_text(s.attrs) + s.vis + " struct "@ + s.ident + " "@ + s.generics + match s.fields {
        FieldsView::Named(fs) => " "@ + s.where_clause + " { "@ + fields_text(fs) + " }"@,
        FieldsView::Unnamed(fs) => " ("@ + fields_text(fs) + ") "@ + s.where_clause + " ;"@,
        FieldsView::Unit => " "@ + s.where_clause + " ;"@,
    }
}

/// Renders one field.
pub fn render_field(f: &FieldModel) -> (res: String)
    ensures
        res@ == field_text(f@),
{
    f.text.clone()
}

/// Renders the outer attributes.
pub fn render_attrs(attrs: &Vec<String>) -> (res: String)
    ensures
        res@ == attrs_text(strings_view(attrs@)),
{
    let ghost v = strings_view(attrs@);
    let mut s = String::new();
    let mut i: usize = 0;
    assert(v.take(0) =~= Seq::<Seq<char>>::empty());
    while i < attrs.len()
        invariant
            v == strings_view(attrs@),
            v.len() == attrs@.len(),
            i <= attrs.len(),
            s@ == attrs_text(v.take(i as int)),
        decreases attrs.len() - i,
    {
        proof {
            assert(v.take(i + 1).drop_last() =~= v.take(i as int));
            assert(v.take(i + 1).last() == attrs@[i as int]@);
        }
        s.append(attrs[i].as_str());
        s.append(" ");
        i = i + 1;
    }
    assert(v.take(attrs.len() as int) =~= v);
    s
}

/// Renders a list of fields, separated by commas.
pub fn render_fields(fs: &Vec<FieldModel>) -> (res: String)
    ensures
        res@ == fields_text(fields_view(fs@)),
{
    let ghost v = fields_view(fs@);
    let mut s = String::new();
    let mut i: usize = 0;
    assert(v.take(0) =~= Seq::<FieldView>::empty());
    while i < fs.len()
        invariant
            v == fields_view(fs@),
            v.len() == fs@.len(),
            i <= fs.len(),
            s@ == fields_text(v.take(i as int)),
        decreases fs.len() - i,
    {
        let f = render_field(&fs[i]);
        proof {
            assert(v.take(i + 1).drop_last() =~= v.take(i as int));
            assert(v.take(i + 1).last() == fs@[i as int]@);
        }
        if i > 0 {
            s.append(", ");
        } else {
            assert(v.take(1)[0] == fs@[0]@);
            assert(s@ =~= Seq::<char>::empty());
        }
        s.append(f.as_str());
        i = i + 1;
    }
    assert(v.take(fs.len() as int) =~= v);
    s
}

/// Renders a struct item as source text.
pub fn render_struct(item: &StructModel) -> (res: String)
    ensures
        res@ == struct_text(item@),
{
    let mut s = render_attrs(&item.attrs);
    s.append(item.vis.as_str());
    s.append(" struct ");
    s.append(item.ident.as_str());
    s.append(" ");
    s.append(item.generics.as_str());
    match &item.fields {
        FieldsModel::Named(fs) => {
            let body = render_fields(fs);
            s.append(" ");
            s.append(item.where_clause.as_str());
            s.append(" { ");
            s.append(body.as_str());
            s.append(" }");
        },
        FieldsModel::Unnamed(fs) => {
            let body = render_fields(fs);
            s.append(" (");
            s.append(body.as_str());
            s.append(") ");
            s.append(item.where_clause.as_str());
            s.append(" ;");
        },
        FieldsModel::Unit => {
            s.append(" ");
            s.append(item.where_clause.as_str());
            s.append(" ;");
        },
    }
    s
}


/// The expansion of the `MyDerive` derive on an item named `name`: an inherent
/// `ok` method that greets the value's `name` field.
pub open spec fn ok_impl_text(name: Seq<char>) -> Seq<char> {
    "impl "@ + name + " { fn ok(&self) { println!(\"Hi {}, i'm ok!\", self.name); } }"@
}

/// `#[derive(MyDerive)]`: an `impl` block for the input's name with an `ok`
/// method; the input's body and generics play no part.
pub fn my_derive(input: &DeriveInputModel) -> (res: String)
    ensures
        res@ == ok_impl_text(input.ident@),
{
    let mut s = String::from_str("impl ");
    s.append(input.ident.as_str());
    s.append(" { fn ok(&self) { println!(\"Hi {}, i'm ok!\", self.name); } }");
    s
}

/// The expansion of `#[my_attribute_struct]`: the struct unchanged, then an
/// inherent `drive` method that prints the value's `no` field.
pub open spec fn drive_expansion_text(s: StructView) -> Seq<char> {
    s.text + " impl "@ + s.ident + " { fn drive(&self) { println!(\"Car no {}\", self.no); } }"@
}

/// `#[my_attribute_struct]`: the struct is kept as it is and followed by an
/// `impl` block with a `drive` method.
pub fn my_attribute_struct(item: &StructModel) -> (res: String)
    ensures
        res@ == drive_expansion_text(item@),
{
    let mut s = item.text.clone();
    s.append(" impl ");
    s.append(item.ident.as_str());
    s.append(" { fn drive(&self) { println!(\"Car no {}\", self.no); } }");
    s
}

/// The field that `#[add_field]` appends: `pub d: String`.
pub open spec fn added_named_field() -> FieldView {
    FieldView { text: "pub d: String"@, ident: "d"@, ty: "String"@ }
}

/// The field that `#[add_tuple]` appends: `String`.
pub open spec fn added_unnamed_field() -> FieldView {
    FieldView { text: "String"@, ident: Seq::empty(), ty: "String"@ }
}

/// The struct after `#[add_field]`: its named fields with `pub d: String`
/// appended (after a comma, and with none after it).
pub open spec fn with_added_field(s: StructView) -> StructView
    recommends
        s.fields is Named,
{
    with_fields(s, match s.fields {
        FieldsView::Named(fs) => FieldsView::Named(fs.push(added_named_field())),
        other => other,
    })
}

/// The struct `s` with the fields `fields`, its text printed from its parts.
pub open spec fn with_fields(s: StructView, fields: FieldsView) -> StructView {
    let t = StructView { fields, ..s };
    StructView { text: struct_text(t), ..t }
}

/// The struct after `#[add_tuple]`: a tuple struct gets a `String` field appended;
/// a braced or unit struct loses its fields and becomes a tuple struct with the
/// single field `String`.
pub open spec fn with_added_tuple_field(s: StructView) -> StructView {
    with_fields(s, match s.fields {
        FieldsView::Unnamed(fs) => FieldsView::Unnamed(fs.push(added_unnamed_field())),
        _ => FieldsView::Unnamed(seq![added_unnamed_field()]),
    })
}

fn new_named_field() -> (res: FieldModel)
    ensures
        res@ == added_named_field(),
{
    FieldModel {
        text: String::from_str("pub d: String"),
        ident: String::from_str("d"),
        ty: String::from_str("String"),
    }
}

fn new_unnamed_field() -> (res: FieldModel)
    ensures
        res@ == added_unnamed_field(),
{
    FieldModel {
        text: String::from_str("String"),
        ident: String::new(),
        ty: String::from_str("String"),
    }
}

/// Appends `pub d: String` to the fields of a braced struct; every other part
/// of the item is kept.
pub fn add_named_field(item: StructModel) -> (res: StructModel)
    requires
        item@.fields is Named,
    ensures
        res@ == with_added_field(item@),
        res@.attrs == item@.attrs,
        res@.vis == item@.vis,
        res@.ident == item@.ident,
        res@.generics == item@.generics,
        res@.where_clause == item@.where_clause,
{
    let StructModel { text: _, attrs, vis, ident, generics, where_clause, fields } = item;
    let new_fields = match fields {
        FieldsModel::Named(mut fs) => {
            let ghost old_fs = fs@;
            fs.push(new_named_field());
            assert(fields_view(fs@) =~= fields_view(old_fs).push(added_named_field()));
            FieldsModel::Named(fs)
        },
        other => other,
    };
    let mut res = StructModel { text: String::new(), attrs, vis, ident, generics, where_clause, fields: new_fields };
    res.text = render_struct(&res);
    res
}

/// Appends the field `String` to a tuple struct, or makes a braced or unit
/// struct a tuple struct with that single field; every other part is kept.
pub fn add_unnamed_field(item: StructModel) -> (res: StructModel)
    ensures
        res@ == with_added_tuple_field(item@),
        res@.attrs == item@.attrs,
        res@.vis == item@.vis,
        res@.ident == item@.ident,
        res@.generics == item@.generics,
        res@.where_clause == item@.where_clause,
{
    let StructModel { text: _, attrs, vis, ident, generics, where_clause, fields } = item;
    let new_fields = match fields {
        FieldsModel::Unnamed(mut fs) => {
            let ghost old_fs = fs@;
            fs.push(new_unnamed_field());
            assert(fields_view(fs@) =~= fields_view(old_fs).push(added_unnamed_field()));
            FieldsModel::Unnamed(fs)
        },
        _ => {
            let mut fs: Vec<FieldModel> = Vec::new();
            fs.push(new_unnamed_field());
            assert(fields_view(fs@) =~= seq![added_unnamed_field()]);
            FieldsModel::Unnamed(fs)
        },
    };
    let mut res = StructModel { text: String::new(), attrs, vis, ident, generics, where_clause, fields: new_fields };
    res.text = render_struct(&res);
    res
}

/// `#[add_field]`: the braced struct with `pub d: String` appended to its fields.
/// (A tuple or unit struct is no input for it.)
pub fn add_field(item: StructModel) -> (res: String)
    requires
        item@.fields is Named,
    ensures
        res@ == struct_text(with_added_field(item@)),
{
    let item = add_named_field(item);
    render_struct(&item)
}

/// `#[add_tuple]`: the struct with the tuple field `String` added (see
/// [`with_added_tuple_field`]).
pub fn add_tuple(item: StructModel) -> (res: String)
    ensures
        res@ == struct_text(with_added_tuple_field(item@)),
{
    let item = add_unnamed_field(item);
    render_struct(&item)
}


/// `#[add_tuple]` ignores the fields of a braced or unit struct: two such
/// structs that differ in nothing but their fields expand to the same text.
pub proof fn lemma_add_tuple_ignores_replaced_fields(s1: StructView, s2: StructView)
    requires
        !(s1.fields is Unnamed),
        !(s2.fields is Unnamed),
        s1.attrs == s2.attrs,
        s1.vis == s2.vis,
        s1.ident == s2.ident,
        s1.generics == s2.generics,
        s1.where_clause == s2.where_clause,
    ensures
        struct_text(with_added_tuple_field(s1)) == struct_text(with_added_tuple_field(s2)),
{
    assert(with_added_tuple_field(s1) == with_added_tuple_field(s2));
}

/// `#[add_field]` keeps every field the struct had, in order, and adds exactly
/// one after them.
pub proof fn lemma_add_field_keeps_fields(s: StructView)
    requires
        s.fields is Named,
    ensures
        ({
            let before = s.fields->Named_0;
            let after = with_added_field(s).fields->Named_0;
            &&& after.len() == before.len() + 1
            &&& after.take(before.len() as int) == before
            &&& after.last() == added_named_field()
        }),
{
    let before = s.fields->Named_0;
    assert(before.push(added_named_field()).take(before.len() as int) =~= before);
}


/// `#[add_field]` changes nothing but the fields: the attributes, visibility,
/// name, generic parameters and `where` clause are the input's, and the printed
/// struct is the input's header and `where` clause, then its fields, then
/// `pub d: String`.
pub proof fn lemma_add_field_keeps_item(s: StructView)
    requires
        s.fields is Named,
    ensures
        ({
            let r = with_added_field(s);
            let before = s.fields->Named_0;
            &&& r.attrs == s.attrs
            &&& r.vis == s.vis
            &&& r.ident == s.ident
            &&& r.generics == s.generics
            &&& r.where_clause == s.where_clause
            &&& r.fields == FieldsView::Named(before.push(added_named_field()))
            &&& struct_text(r) == attrs_text(s.attrs) + s.vis + " struct "@ + s.ident + " "@
                + s.generics + " "@ + s.where_clause + " { "@
                + (if before.len() == 0 { Seq::empty() } else { fields_text(before) + ", "@ })
                + "pub d: String"@ + " }"@
        }),
{
    let before = s.fields->Named_0;
    let after = before.push(added_named_field());
    assert(after.drop_last() =~= before);
    if before.len() == 0 {
        assert(fields_text(after) == added_named_field().text);
    } else {
        assert(fields_text(after) == fields_text(before) + ", "@ + "pub d: String"@);
    }
}

/// `#[add_tuple]` changes nothing but the fields: the attributes, visibility,
/// name, generic parameters and `where` clause are the input's, and the printed
/// struct is the input's header, the tuple fields (the old ones if it was a
/// tuple struct, then `String`), then its `where` clause.
pub proof fn lemma_add_tuple_keeps_item(s: StructView)
    ensures
        ({
            let r = with_added_tuple_field(s);
            let before = match s.fields {
                FieldsView::Unnamed(fs) => fs,
                _ => Seq::empty(),
            };
            &&& r.attrs == s.attrs
            &&& r.vis == s.vis
            &&& r.ident == s.ident
            &&& r.generics == s.generics
            &&& r.where_clause == s.where_clause
            &&& r.fields == FieldsView::Unnamed(before.push(added_unnamed_field()))
            &&& struct_text(r) == attrs_text(s.attrs) + s.vis + " struct "@ + s.ident + " "@
                + s.generics + " ("@
                + (if before.len() == 0 { Seq::empty() } else { fields_text(before) + ", "@ })
                + "String"@ + ") "@ + s.where_clause + " ;"@
        }),
{
    let before = match s.fields {
        FieldsView::Unnamed(fs) => fs,
        _ => Seq::empty(),
    };
    let after = before.push(added_unnamed_field());
    assert(after.drop_last() =~= before);
    if !(s.fields is Unnamed) {
        assert(after =~= seq![added_unnamed_field()]);
    }
    if before.len() == 0 {
        assert(fields_text(after) == added_unnamed_field().text);
    } else {
        assert(fields_text(after) == fields_text(before) + ", "@ + "String"@);
    }
}

/// `#[derive(MyDerive)]` on the item written in `source`: the item is read with
/// `syn`, then expanded as [`my_derive`] does.
pub fn my_derive_source(source: &str) -> (res: Result<String, SourceError>)
    ensures
        match syn_derive_input(source@) {
            Some(v) => res matches Ok(t) && t@ == ok_impl_text(v.ident),
            None => res matches Err(SourceError::Syntax(_)),
        },
{
    match parse_derive_input(source) {
        Ok(input) => Ok(my_derive(&input)),
        Err(msg) => Err(SourceError::Syntax(msg)),
    }
}

/// `#[my_attribute_struct]` on the item written in `source`: the struct is read
/// with `syn`, then expanded as [`my_attribute_struct`] does.
pub fn my_attribute_struct_source(source: &str) -> (res: Result<String, SourceError>)
    ensures
        match syn_item_struct(source@) {
            Some(v) => res matches Ok(t) && t@ == drive_expansion_text(v),
            None => res matches Err(SourceError::Syntax(_)),
        },
{
    match parse_item_struct(source) {
        Ok(item) => Ok(my_attribute_struct(&item)),
        Err(msg) => Err(SourceError::Syntax(msg)),
    }
}

/// `#[add_field]` on the item written in `source`: a braced struct gets
/// `pub d: String`; any other struct is refused with `NotBraced`.
pub fn add_field_source(source: &str) -> (res: Result<String, SourceError>)
    ensures
        match syn_item_struct(source@) {
            Some(v) => if v.fields is Named {
                res matches Ok(t) && t@ == struct_text(with_added_field(v))
            } else {
                res matches Err(SourceError::NotBraced)
            },
            None => res matches Err(SourceError::Syntax(_)),
        },
{
    match parse_item_struct(source) {
        Ok(item) => {
            let braced = match &item.fields {
                FieldsModel::Named(_) => true,
                _ => false,
            };
            if braced {
                Ok(add_field(item))
            } else {
                Err(SourceError::NotBraced)
            }
        },
        Err(msg) => Err(SourceError::Syntax(msg)),
    }
}

/// `#[add_tuple]` on the item written in `source`: the struct is read with
/// `syn`, then expanded as [`add_tuple`] does.
pub fn add_tuple_source(source: &str) -> (res: Result<String, SourceError>)
    ensures
        match syn_item_struct(source@) {
            Some(v) => res matches Ok(t) && t@ == struct_text(with_added_tuple_field(v)),
            None => res matches Err(SourceError::Syntax(_)),
        },
{
    match parse_item_struct(source) {
        Ok(item) => Ok(add_tuple(item)),
        Err(msg) => Err(SourceError::Syntax(msg)),
    }
}

} // verus!
