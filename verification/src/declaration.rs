//! The declaration of a configuration type, as plain data: the struct's
//! name, and for each field its name, the shape of its type and its
//! attributes.

use vstd::prelude::*;

verus! {

/// One item between the parentheses of a list attribute.
#[derive(Debug, PartialEq, Eq)]
pub enum NestedMeta {
    /// A bare word, such as `optional_cmd`.
    Word(String),
    /// Anything else, such as `short = "s"`, kept as its source text.
    Other(String),
}

/// Mathematical model of a [`NestedMeta`].
pub enum NestedMetaView {
    Word(Seq<char>),
    Other(Seq<char>),
}

impl View for NestedMeta {
    type V = NestedMetaView;

    open spec fn view(&self) -> NestedMetaView {
        match self {
            NestedMeta::Word(word) => NestedMetaView::Word(word@),
            NestedMeta::Other(text) => NestedMetaView::Other(text@),
        }
    }
}

/// The models of a sequence of items.
pub open spec fn metas_view(items: Seq<NestedMeta>) -> Seq<NestedMetaView> {
    items.map_values(|m: NestedMeta| m@)
}

/// An attribute of a field.
#[derive(Debug, PartialEq, Eq)]
pub struct Attribute {
    /// The attribute's path, such as `platformconfig` or `doc`.
    pub path: String,
    /// The items of the attribute if it has the form of a list, `path(...)`.
    pub nested: Option<Vec<NestedMeta>>,
}

/// Mathematical model of an [`Attribute`].
pub struct AttributeView {
    pub path: Seq<char>,
    pub nested: Option<Seq<NestedMetaView>>,
}

impl View for Attribute {
    type V = AttributeView;

    open spec fn view(&self) -> AttributeView {
        AttributeView {
            path: self.path@,
            nested: match self.nested {
                Some(items) => Some(metas_view(items@)),
                None => None,
            },
        }
    }
}

/// The models of a sequence of attributes.
pub open spec fn attributes_view(attributes: Seq<Attribute>) -> Seq<AttributeView> {
    attributes.map_values(|a: Attribute| a@)
}

/// The shape of a field's type, as far as a declaration is read.
#[derive(Debug, PartialEq, Eq)]
pub enum Type {
    /// A path such as `std::option::Option<u32>`, as the names of its segments.
    Path(Vec<String>),
    /// Any other type: a reference, a tuple, an array and so on.
    Other,
}

/// Mathematical model of a [`Type`].
pub enum TypeView {
    Path(Seq<Seq<char>>),
    Other,
}

/// The models of a sequence of texts.
pub open spec fn texts_view(texts: Seq<String>) -> Seq<Seq<char>> {
    texts.map_values(|t: String| t@)
}

impl View for Type {
    type V = TypeView;

    open spec fn view(&self) -> TypeView {
        match self {
            Type::Path(segments) => TypeView::Path(texts_view(segments@)),
            Type::Other => TypeView::Other,
        }
    }
}

/// One named field of a struct.
#[derive(Debug, PartialEq, Eq)]
pub struct Field {
    pub name: String,
    pub ty: Type,
    pub attrs: Vec<Attribute>,
}

/// Mathematical model of a [`Field`].
pub struct FieldView {
    pub name: Seq<char>,
    pub ty: TypeView,
    pub attrs: Seq<AttributeView>,
}

impl View for Field {
    type V = FieldView;

    open spec fn view(&self) -> FieldView {
        FieldView { name: self.name@, ty: self.ty@, attrs: attributes_view(self.attrs@) }
    }
}

/// The models of a sequence of fields.
pub open spec fn fields_view(fields: Seq<Field>) -> Seq<FieldView> {
    fields.map_values(|f: Field| f@)
}

/// What a type declaration consists of.
#[derive(Debug, PartialEq, Eq)]
pub enum Data {
    /// A struct with named fields.
    Struct(Vec<Field>),
    /// A tuple struct, a unit struct, an enum or a union.
    Other,
}

/// The declaration that a configuration type is derived from.
#[derive(Debug, PartialEq, Eq)]
pub struct DeriveInput {
    pub name: String,
    pub data: Data,
}

/// A type is optional when it is a path whose last segment is called `Option`.
pub open spec fn is_option_type(ty: TypeView) -> bool {
    ty matches TypeView::Path(segments) && segments.len() > 0 && segments.last() == "Option"@
}

/// Whether `text` reads exactly as `literal`.
pub fn reads_as(text: &String, literal: &str) -> (same: bool)
    ensures
        same == (text@ == literal@),
{
    let other = literal.to_owned();
    *text == other
}

/// Whether a field's type itself stands for "may be absent".
pub fn is_option(ty: &Type) -> (optional: bool)
    ensures
        optional == is_option_type(ty@),
{
    match ty {
        Type::Path(segments) => {
            let n = segments.len();
            if n == 0 {
                false
            } else {
                reads_as(&segments[n - 1], "Option")
            }
        },
        Type::Other => false,
    }
}

/// A copy of an item.
pub fn copy_meta(item: &NestedMeta) -> (copy: NestedMeta)
    ensures
        copy@ == item@,
{
    match item {
        NestedMeta::Word(word) => NestedMeta::Word(word.clone()),
        NestedMeta::Other(text) => NestedMeta::Other(text.clone()),
    }
}

/// A copy of a list of items.
pub fn copy_metas(items: &Vec<NestedMeta>) -> (copy: Vec<NestedMeta>)
    ensures
        metas_view(copy@) == metas_view(items@),
{
    let mut copy: Vec<NestedMeta> = Vec::new();
    let mut i: usize = 0;
    while i < items.len()
        invariant
            i <= items.len(),
            metas_view(copy@) == metas_view(items@).take(i as int),
        decreases items.len() - i,
    {
        let ghost before = copy@;
        let item = copy_meta(&items[i]);
        copy.push(item);
        proof {
            assert(metas_view(copy@) == metas_view(before).push(item@));
            assert(metas_view(items@).take(i + 1) == metas_view(items@).take(i as int).push(
                items[i as int]@,
            ));
        }
        i += 1;
    }
    proof {
        assert(metas_view(items@).take(i as int) == metas_view(items@));
    }
    copy
}

} // verus!
