//! Reading the macros' inputs: struct items and derive inputs are read by `syn`
//! piece by piece, and their fields, which `syn` hands over as one piece of
//! text, are read as braced or tuple fields according to how that text opens.
use vstd::prelude::*;
use vstd::string::*;
use crate::model::{
    DataModel, DataParts, DataPartsView, DataView, DeriveInputModel, DeriveInputView, FieldsModel,
    FieldsView, StructModel, StructView, VariantModel, VariantParts, VariantPartsView, VariantView,
    fields_view, named_fields_named, strings_view, variants_view,
};
use crate::outside::{
    read_derive_input, read_fields_named, read_fields_unnamed, read_item_struct,
    syn_derive_input_parts, syn_fields_named, syn_fields_unnamed, syn_item_struct_parts,
};

verus! {

/// The fields written as `text`: braced fields when it opens with `{`, tuple
/// fields when it opens with `(`, no fields when it is empty.
pub open spec fn fields_of(text: Seq<char>) -> Option<FieldsView> {
    if text.len() == 0 {
        Some(FieldsView::Unit)
    } else if text[0] == '{' {
        match syn_fields_named(text) {
            Some(fs) => Some(FieldsView::Named(fs)),
            None => None,
        }
    } else if text[0] == '(' {
        match syn_fields_unnamed(text) {
            Some(fs) => Some(FieldsView::Unnamed(fs)),
            None => None,
        }
    } else {
        None
    }
}

/// Reads the fields written as `text`.
pub fn parse_fields(text: &str) -> (res: Result<FieldsModel, String>)
    ensures
        match fields_of(text@) {
            Some(f) => res matches Ok(m) && m@ == f,
            None => res is Err,
        },
        res matches Ok(m) ==> named_fields_named(m@),
{
    let n = text.unicode_len();
    if n == 0 {
        return Ok(FieldsModel::Unit);
    }
    let c = text.get_char(0);
    if c == '{' {
        match read_fields_named(text) {
            Ok(fs) => {
                let res = FieldsModel::Named(fs);
                assert(named_fields_named(res@)) by {
                    assert forall|j: int| 0 <= j < fields_view(fs@).len() implies (#[trigger] fields_view(fs@)[j]).ident.len() > 0 by {
                        assert(fs@[j].ident@.len() > 0);
                    }
                }
                Ok(res)
            },
            Err(e) => Err(e),
        }
    } else if c == '(' {
        match read_fields_unnamed(text) {
            Ok(fs) => Ok(FieldsModel::Unnamed(fs)),
            Err(e) => Err(e),
        }
    } else {
        Err(String::from_str("expected fields"))
    }
}

/// The struct item that `syn` reads from `source`, with its fields read.
pub open spec fn syn_item_struct(source: Seq<char>) -> Option<StructView> {
    match syn_item_struct_parts(source) {
        Some(p) => match fields_of(p.fields) {
            Some(f) => Some(StructView {
                text: p.text,
                attrs: p.attrs,
                vis: p.vis,
                ident: p.ident,
                generics: p.generics,
                where_clause: p.where_clause,
                fields: f,
            }),
            None => None,
        },
        None => None,
    }
}

/// Reads the struct item written in `source`.
pub fn parse_item_struct(source: &str) -> (res: Result<StructModel, String>)
    ensures
        match syn_item_struct(source@) {
            Some(v) => res matches Ok(m) && m@ == v,
            None => res is Err,
        },
{
    let p = match read_item_struct(source) {
        Ok(p) => p,
        Err(e) => {
            return Err(e);
        },
    };
    let fields = match parse_fields(p.fields.as_str()) {
        Ok(f) => f,
        Err(e) => {
            return Err(e);
        },
    };
    Ok(StructModel {
        text: p.text,
        attrs: p.attrs,
        vis: p.vis,
        ident: p.ident,
        generics: p.generics,
        where_clause: p.where_clause,
        fields,
    })
}

/// The variants `ps`, each with its fields read (`None` when some cannot be).
pub open spec fn variants_of(ps: Seq<VariantPartsView>) -> Option<Seq<VariantView>>
    decreases ps.len(),
{
    if ps.len() == 0 {
        Some(Seq::empty())
    } else {
        match (variants_of(ps.drop_last()), fields_of(ps.last().fields)) {
            (Some(vs), Some(f)) => Some(vs.push(VariantView { attrs: ps.last().attrs, ident: ps.last().ident, fields: f })),
            _ => None,
        }
    }
}

/// The derive input that `syn` reads from `source`, with its variants' fields read.
pub open spec fn syn_derive_input(source: Seq<char>) -> Option<DeriveInputView> {
    match syn_derive_input_parts(source) {
        Some(p) => match p.data {
            DataPartsView::Enum(ps) => match variants_of(ps) {
                Some(vs) => Some(DeriveInputView { ident: p.ident, data: DataView::Enum(vs) }),
                None => None,
            },
            DataPartsView::Struct => Some(DeriveInputView { ident: p.ident, data: DataView::Struct }),
            DataPartsView::Union => Some(DeriveInputView { ident: p.ident, data: DataView::Union }),
        },
        None => None,
    }
}

fn parse_variants(ps: &Vec<VariantParts>) -> (res: Result<Vec<VariantModel>, String>)
    ensures
        match variants_of(ps@.map_values(|v: VariantParts| v@)) {
            Some(vs) => res matches Ok(m) && variants_view(m@) == vs,
            None => res is Err,
        },
        res matches Ok(m) ==> forall|i: int| 0 <= i < m@.len() ==> named_fields_named(#[trigger] m@[i]@.fields),
{
    let ghost pv = ps@.map_values(|v: VariantParts| v@);
    let mut out: Vec<VariantModel> = Vec::new();
    let mut i: usize = 0;
    assert(pv.take(0) =~= Seq::<VariantPartsView>::empty());
    while i < ps.len()
        invariant
            pv == ps@.map_values(|v: VariantParts| v@),
            pv.len() == ps@.len(),
            i <= ps.len(),
            variants_of(pv.take(i as int)) == Some(variants_view(out@)),
            forall|k: int| 0 <= k < out@.len() ==> named_fields_named(#[trigger] out@[k]@.fields),
        decreases ps.len() - i,
    {
        proof {
            assert(pv.take(i + 1).drop_last() =~= pv.take(i as int));
            assert(pv.take(i + 1).last() == ps@[i as int]@);
        }
        let fields = match parse_fields(ps[i].fields.as_str()) {
            Ok(f) => f,
            Err(e) => {
                proof {
                    lemma_variants_of_prefix_none(pv, i as int + 1);
                }
                return Err(e);
            },
        };
        let ghost old_out = variants_view(out@);
        let attrs = clone_strings(&ps[i].attrs);
        out.push(VariantModel { attrs, ident: ps[i].ident.clone(), fields });
        assert(variants_view(out@) =~= old_out.push(VariantView { attrs: pv[i as int].attrs, ident: pv[i as int].ident, fields: fields@ }));
        i = i + 1;
    }
    assert(pv.take(ps.len() as int) =~= pv);
    Ok(out)
}

fn clone_strings(v: &Vec<String>) -> (res: Vec<String>)
    ensures
        strings_view(res@) == strings_view(v@),
{
    let mut out: Vec<String> = Vec::new();
    let mut i: usize = 0;
    while i < v.len()
        invariant
            i <= v.len(),
            out@.len() == i,
            forall|k: int| 0 <= k < i ==> (#[trigger] out@[k])@ == v@[k]@,
        decreases v.len() - i,
    {
        out.push(v[i].clone());
        i = i + 1;
    }
    assert(strings_view(out@) =~= strings_view(v@));
    out
}

/// When a prefix of the variants cannot be read, neither can all of them.
proof fn lemma_variants_of_prefix_none(ps: Seq<VariantPartsView>, n: int)
    requires
        0 <= n <= ps.len(),
        variants_of(ps.take(n)) is None,
    ensures
        variants_of(ps) is None,
    decreases ps.len() - n,
{
    if n < ps.len() {
        assert(ps.take(n + 1).drop_last() =~= ps.take(n));
        lemma_variants_of_prefix_none(ps, n + 1);
    } else {
        assert(ps.take(n) =~= ps);
    }
}

/// Reads the derive input written in `source`.
pub fn parse_derive_input(source: &str) -> (res: Result<DeriveInputModel, String>)
    ensures
        match syn_derive_input(source@) {
            Some(v) => res matches Ok(m) && m@ == v,
            None => res is Err,
        },
        res matches Ok(m) ==> (m@.data matches DataView::Enum(vs) ==> forall|i: int| 0 <= i < vs.len()
            ==> named_fields_named(#[trigger] vs[i].fields)),
{
    let p = match read_derive_input(source) {
        Ok(p) => p,
        Err(e) => {
            return Err(e);
        },
    };
    let data = match &p.data {
        DataParts::Enum(ps) => match parse_variants(ps) {
            Ok(vs) => {
                assert forall|i: int| 0 <= i < variants_view(vs@).len() implies named_fields_named(#[trigger] variants_view(vs@)[i].fields) by {
                    assert(named_fields_named(vs@[i]@.fields));
                }
                DataModel::Enum(vs)
            },
            Err(e) => {
                return Err(e);
            },
        },
        DataParts::Struct => DataModel::Struct,
        DataParts::Union => DataModel::Union,
    };
    Ok(DeriveInputModel { ident: p.ident, data })
}

} // verus!
