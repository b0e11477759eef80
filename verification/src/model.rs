//! Plain-value models of the syntax that the macros read: struct items, fields,
//! derive inputs, function items and input tokens. Every text field holds the
//! source text of the corresponding piece of syntax, as `syn` prints it.
use vstd::prelude::*;

verus! {

/// One field of a struct or of an enum variant.
#[derive(Debug)]
pub struct FieldModel {
    /// The whole field as written: attributes, visibility, `name:`, type and
    /// default value.
    pub text: String,
    /// The field's name (empty for a field of a tuple struct or variant).
    pub ident: String,
    /// The field's type.
    pub ty: String,
}

/// The mathematical view of a [`FieldModel`].
pub struct FieldView {
    pub text: Seq<char>,
    pub ident: Seq<char>,
    pub ty: Seq<char>,
}

impl View for FieldModel {
    type V = FieldView;

    open spec fn view(&self) -> FieldView {
        FieldView { text: self.text@, ident: self.ident@, ty: self.ty@ }
    }
}

/// The view of a list of fields.
pub open spec fn fields_view(fs: Seq<FieldModel>) -> Seq<FieldView> {
    fs.map_values(|f: FieldModel| f@)
}

/// The view of a list of strings.
pub open spec fn strings_view(v: Seq<String>) -> Seq<Seq<char>> {
    v.map_values(|s: String| s@)
}

/// The fields of a struct or of an enum variant.
#[derive(Debug)]
pub enum FieldsModel {
    /// `{ a: A, b: B }`
    Named(Vec<FieldModel>),
    /// `(A, B)`
    Unnamed(Vec<FieldModel>),
    /// no fields at all
    Unit,
}

/// The mathematical view of a [`FieldsModel`].
pub enum FieldsView {
    Named(Seq<FieldView>),
    Unnamed(Seq<FieldView>),
    Unit,
}

impl View for FieldsModel {
    type V = FieldsView;

    open spec fn view(&self) -> FieldsView {
        match self {
            FieldsModel::Named(fs) => FieldsView::Named(fields_view(fs@)),
            FieldsModel::Unnamed(fs) => FieldsView::Unnamed(fields_view(fs@)),
            FieldsModel::Unit => FieldsView::Unit,
        }
    }
}

/// Every field of a braced list has a (non-empty) name.
pub open spec fn named_fields_named(f: FieldsView) -> bool {
    f is Named ==> forall|j: int| 0 <= j < f->Named_0.len() ==> (#[trigger] f->Named_0[j]).ident.len() > 0
}

/// A struct item.
#[derive(Debug)]
pub struct StructModel {
    /// The whole item, as written.
    pub text: String,
    /// Each outer attribute, as written.
    pub attrs: Vec<String>,
    /// Visibility, as written.
    pub vis: String,
    /// The struct's name.
    pub ident: String,
    /// The generic parameters with their angle brackets (empty when there are none).
    pub generics: String,
    /// The `where` clause (empty when there is none).
    pub where_clause: String,
    /// The fields.
    pub fields: FieldsModel,
}

/// The mathematical view of a [`StructModel`].
pub struct StructView {
    pub text: Seq<char>,
    pub attrs: Seq<Seq<char>>,
    pub vis: Seq<char>,
    pub ident: Seq<char>,
    pub generics: Seq<char>,
    pub where_clause: Seq<char>,
    pub fields: FieldsView,
}

impl View for StructModel {
    type V = StructView;

    open spec fn view(&self) -> StructView {
        StructView {
            text: self.text@,
            attrs: strings_view(self.attrs@),
            vis: self.vis@,
            ident: self.ident@,
            generics: self.generics@,
            where_clause: self.where_clause@,
            fields: self.fields@,
        }
    }
}

/// One variant of an enum.
#[derive(Debug)]
pub struct VariantModel {
    /// The variant's outer attributes, as written.
    pub attrs: Vec<String>,
    /// The variant's name.
    pub ident: String,
    /// The variant's fields.
    pub fields: FieldsModel,
}

/// The mathematical view of a [`VariantModel`].
pub struct VariantView {
    pub attrs: Seq<Seq<char>>,
    pub ident: Seq<char>,
    pub fields: FieldsView,
}

impl View for VariantModel {
    type V = VariantView;

    open spec fn view(&self) -> VariantView {
        VariantView { attrs: strings_view(self.attrs@), ident: self.ident@, fields: self.fields@ }
    }
}

/// The view of a list of variants.
pub open spec fn variants_view(vs: Seq<VariantModel>) -> Seq<VariantView> {
    vs.map_values(|v: VariantModel| v@)
}

/// What a derive input holds.
#[derive(Debug)]
pub enum DataModel {
    /// An enum, with its variants.
    Enum(Vec<VariantModel>),
    /// A struct.
    Struct,
    /// A union.
    Union,
}

/// The mathematical view of a [`DataModel`].
pub enum DataView {
    Enum(Seq<VariantView>),
    Struct,
    Union,
}

impl View for DataModel {
    type V = DataView;

    open spec fn view(&self) -> DataView {
        match self {
            DataModel::Enum(vs) => DataView::Enum(variants_view(vs@)),
            DataModel::Struct => DataView::Struct,
            DataModel::Union => DataView::Union,
        }
    }
}

/// The item a derive macro is applied to.
#[derive(Debug)]
pub struct DeriveInputModel {
    /// The item's name.
    pub ident: String,
    /// Its body.
    pub data: DataModel,
}

/// The mathematical view of a [`DeriveInputModel`].
pub struct DeriveInputView {
    pub ident: Seq<char>,
    pub data: DataView,
}

impl View for DeriveInputModel {
    type V = DeriveInputView;

    open spec fn view(&self) -> DeriveInputView {
        DeriveInputView { ident: self.ident@, data: self.data@ }
    }
}

/// A function item, split into the parts of its signature.
#[derive(Debug)]
pub struct FnModel {
    pub vis: String,
    pub constness: String,
    pub unsafety: String,
    pub asyncness: String,
    pub abi: String,
    pub ident: String,
    /// The generic parameters, without angle brackets.
    pub gen_params: String,
    /// The parameters, without parentheses.
    pub params: String,
    /// The return type with its arrow (empty for `()`).
    pub output: String,
    pub where_clause: String,
    /// The body, with its braces.
    pub block: String,
}

/// The mathematical view of a [`FnModel`].
pub struct FnView {
    pub vis: Seq<char>,
    pub constness: Seq<char>,
    pub unsafety: Seq<char>,
    pub asyncness: Seq<char>,
    pub abi: Seq<char>,
    pub ident: Seq<char>,
    pub gen_params: Seq<char>,
    pub params: Seq<char>,
    pub output: Seq<char>,
    pub where_clause: Seq<char>,
    pub block: Seq<char>,
}

impl View for FnModel {
    type V = FnView;

    open spec fn view(&self) -> FnView {
        FnView {
            vis: self.vis@,
            constness: self.constness@,
            unsafety: self.unsafety@,
            asyncness: self.asyncness@,
            abi: self.abi@,
            ident: self.ident@,
            gen_params: self.gen_params@,
            params: self.params@,
            output: self.output@,
            where_clause: self.where_clause@,
            block: self.block@,
        }
    }
}

/// A struct item as `syn` reads it, its fields still as one piece of text.
#[derive(Debug)]
pub struct StructParts {
    pub text: String,
    pub attrs: Vec<String>,
    pub vis: String,
    pub ident: String,
    pub generics: String,
    pub where_clause: String,
    /// The fields with their braces or parentheses (empty for a unit struct).
    pub fields: String,
}

/// The mathematical view of a [`StructParts`].
pub struct StructPartsView {
    pub text: Seq<char>,
    pub attrs: Seq<Seq<char>>,
    pub vis: Seq<char>,
    pub ident: Seq<char>,
    pub generics: Seq<char>,
    pub where_clause: Seq<char>,
    pub fields: Seq<char>,
}

impl View for StructParts {
    type V = StructPartsView;

    open spec fn view(&self) -> StructPartsView {
        StructPartsView {
            text: self.text@,
            attrs: strings_view(self.attrs@),
            vis: self.vis@,
            ident: self.ident@,
            generics: self.generics@,
            where_clause: self.where_clause@,
            fields: self.fields@,
        }
    }
}

/// An enum variant as `syn` reads it, its fields still as one piece of text.
#[derive(Debug)]
pub struct VariantParts {
    pub attrs: Vec<String>,
    pub ident: String,
    /// The fields with their braces or parentheses (empty for a unit variant).
    pub fields: String,
}

/// The mathematical view of a [`VariantParts`].
pub struct VariantPartsView {
    pub attrs: Seq<Seq<char>>,
    pub ident: Seq<char>,
    pub fields: Seq<char>,
}

impl View for VariantParts {
    type V = VariantPartsView;

    open spec fn view(&self) -> VariantPartsView {
        VariantPartsView { attrs: strings_view(self.attrs@), ident: self.ident@, fields: self.fields@ }
    }
}

/// The body of a derive input as `syn` reads it.
#[derive(Debug)]
pub enum DataParts {
    Enum(Vec<VariantParts>),
    Struct,
    Union,
}

/// The mathematical view of a [`DataParts`].
pub enum DataPartsView {
    Enum(Seq<VariantPartsView>),
    Struct,
    Union,
}

impl View for DataParts {
    type V = DataPartsView;

    open spec fn view(&self) -> DataPartsView {
        match self {
            DataParts::Enum(vs) => DataPartsView::Enum(vs@.map_values(|v: VariantParts| v@)),
            DataParts::Struct => DataPartsView::Struct,
            DataParts::Union => DataPartsView::Union,
        }
    }
}

/// A derive input as `syn` reads it.
#[derive(Debug)]
pub struct DeriveParts {
    pub ident: String,
    pub data: DataParts,
}

/// The mathematical view of a [`DeriveParts`].
pub struct DerivePartsView {
    pub ident: Seq<char>,
    pub data: DataPartsView,
}

impl View for DeriveParts {
    type V = DerivePartsView;

    open spec fn view(&self) -> DerivePartsView {
        DerivePartsView { ident: self.ident@, data: self.data@ }
    }
}

/// One token tree at the top level of a macro's input.
#[derive(Debug)]
pub enum Token {
    /// An identifier or keyword, as written (raw identifiers keep their `r#`).
    Ident(String),
    /// A punctuation character.
    Punct(char),
    /// A literal, as written.
    Literal(String),
    /// A delimited group, as written.
    Group(String),
}

/// The view of a [`Token`].
pub enum TokenView {
    Ident(Seq<char>),
    Punct(char),
    Literal(Seq<char>),
    Group(Seq<char>),
}

impl View for Token {
    type V = TokenView;

    open spec fn view(&self) -> TokenView {
        match self {
            Token::Ident(s) => TokenView::Ident(s@),
            Token::Punct(c) => TokenView::Punct(*c),
            Token::Literal(s) => TokenView::Literal(s@),
            Token::Group(s) => TokenView::Group(s@),
        }
    }
}

/// The view of a token list.
pub open spec fn tokens_view(ts: Seq<Token>) -> Seq<TokenView> {
    ts.map_values(|t: Token| t@)
}

/// Why an expansion from source text was not made.
#[derive(Debug)]
pub enum SourceError {
    /// `syn` could not read the input; its message.
    Syntax(String),
    /// `my_macro!` refused its input: the message and the index of the
    /// offending top-level token (the number of tokens at the end of input).
    Input(String, usize),
    /// `#[add_field]` on a struct without braced fields.
    NotBraced,
    /// `#[derive(ErrorMessage)]` on a struct or union; its name.
    NotAnEnum(String),
}

} // verus!
