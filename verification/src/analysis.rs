//! Reading a field's declaration: which annotations it carries, and what of
//! its attributes is meant for the command line parser.

use vstd::prelude::*;
use crate::declaration::attributes_view;
use crate::declaration::copy_meta;
use crate::declaration::copy_metas;
use crate::declaration::is_option;
use crate::declaration::is_option_type;
use crate::declaration::metas_view;
use crate::declaration::reads_as;
use crate::declaration::AttributeView;
use crate::declaration::Field;
use crate::declaration::FieldView;
use crate::declaration::NestedMeta;
use crate::declaration::NestedMetaView;
use crate::descriptor::FieldDescriptor;
use crate::descriptor::FieldDescriptorView;

verus! {

/// The models of a sequence of item lists.
pub open spec fn lists_view(lists: Seq<Vec<NestedMeta>>) -> Seq<Seq<NestedMetaView>> {
    lists.map_values(|l: Vec<NestedMeta>| metas_view(l@))
}

/// What the analysis of a field's declaration finds.
#[derive(Debug, PartialEq, Eq)]
pub struct FieldInfo {
    /// The field's descriptor: its name, its optionality and its annotations.
    pub descriptor: FieldDescriptor,
    /// The item lists to hand on to the command line parser as `structopt`
    /// attributes, one for each `platformconfig` attribute that holds
    /// anything besides this library's own words.
    pub structopt_attrs: Vec<Vec<NestedMeta>>,
}

/// Mathematical model of a [`FieldInfo`].
pub struct FieldInfoView {
    pub descriptor: FieldDescriptorView,
    pub structopt_attrs: Seq<Seq<NestedMetaView>>,
}

impl View for FieldInfo {
    type V = FieldInfoView;

    open spec fn view(&self) -> FieldInfoView {
        FieldInfoView {
            descriptor: self.descriptor@,
            structopt_attrs: lists_view(self.structopt_attrs@),
        }
    }
}

impl FieldInfoView {
    /// The field's own type is optional.
    pub open spec fn is_optional(self) -> bool {
        self.descriptor.is_value_optional
    }

    /// The command line need not give the field: its type is optional or its
    /// declaration carries the waiver.
    pub open spec fn is_optional_cmd(self) -> bool {
        self.descriptor.is_value_optional || self.descriptor.waiver
    }

    /// The command line may give the field.
    pub open spec fn is_cmd_arg(self) -> bool {
        !self.descriptor.forbid_cli
    }
}

/// A field of the struct that describes the command line to its parser.
#[derive(Debug, PartialEq, Eq)]
pub struct StructoptField {
    pub name: String,
    /// The command line insists on the argument.
    pub required: bool,
    /// The field's type is the declared type wrapped in `Option`; otherwise it
    /// is the declared type itself.
    pub wrapped: bool,
    /// The item lists of the field's `structopt` attributes.
    pub attrs: Vec<Vec<NestedMeta>>,
}

/// Mathematical model of a [`StructoptField`].
pub struct StructoptFieldView {
    pub name: Seq<char>,
    pub required: bool,
    pub wrapped: bool,
    pub attrs: Seq<Seq<NestedMetaView>>,
}

impl View for StructoptField {
    type V = StructoptFieldView;

    open spec fn view(&self) -> StructoptFieldView {
        StructoptFieldView {
            name: self.name@,
            required: self.required,
            wrapped: self.wrapped,
            attrs: lists_view(self.attrs@),
        }
    }
}

/// The field that stands for `info` on the command line, if the command line
/// may give it at all. It is mandatory unless the command line need not give
/// it, and wrapped in `Option` where only the waiver makes it optional.
pub open spec fn structopt_field_of(info: FieldInfoView) -> Option<StructoptFieldView> {
    if !info.is_cmd_arg() {
        None
    } else {
        Some(
            StructoptFieldView {
                name: info.descriptor.name,
                required: !info.is_optional_cmd(),
                wrapped: info.is_optional_cmd() && !info.is_optional(),
                attrs: info.structopt_attrs,
            },
        )
    }
}

/// The two words that are this library's own annotations.
pub open spec fn is_own_word(item: NestedMetaView) -> bool {
    item == NestedMetaView::Word("optional_cmd"@) || item == NestedMetaView::Word("no_cmd"@)
}

/// The items of a list that are not this library's own words, in their order.
pub open spec fn passthrough(items: Seq<NestedMetaView>) -> Seq<NestedMetaView>
    decreases items.len(),
{
    if items.len() == 0 {
        Seq::empty()
    } else if is_own_word(items.last()) {
        passthrough(items.drop_last())
    } else {
        passthrough(items.drop_last()).push(items.last())
    }
}

/// An attribute is read when its path is `platformconfig` and it is a list.
pub open spec fn is_own(attribute: AttributeView) -> bool {
    attribute.path == "platformconfig"@ && attribute.nested is Some
}

/// The attribute is read and holds the bare word `word`.
pub open spec fn attribute_declares(attribute: AttributeView, word: Seq<char>) -> bool {
    is_own(attribute) && attribute.nested->0.contains(NestedMetaView::Word(word))
}

/// One of the attributes is read and holds the bare word `word`.
pub open spec fn declared(attributes: Seq<AttributeView>, word: Seq<char>) -> bool {
    exists|i: int|
        0 <= i < attributes.len() && attribute_declares(#[trigger] attributes[i], word)
}

/// What the attributes hand on to the command line parser: for each read
/// attribute that holds more than this library's own words, the other items.
pub open spec fn forwarded(attributes: Seq<AttributeView>) -> Seq<Seq<NestedMetaView>>
    decreases attributes.len(),
{
    if attributes.len() == 0 {
        Seq::empty()
    } else if is_own(attributes.last()) && passthrough(attributes.last().nested->0).len() > 0 {
        forwarded(attributes.drop_last()).push(passthrough(attributes.last().nested->0))
    } else {
        forwarded(attributes.drop_last())
    }
}

/// What the analysis of a field finds.
pub open spec fn analysis(field: FieldView) -> FieldInfoView {
    FieldInfoView {
        descriptor: FieldDescriptorView {
            name: field.name,
            is_value_optional: is_option_type(field.ty),
            waiver: declared(field.attrs, "optional_cmd"@),
            forbid_cli: declared(field.attrs, "no_cmd"@),
        },
        structopt_attrs: forwarded(field.attrs),
    }
}

proof fn lemma_contains_step(items: Seq<NestedMetaView>, j: int, item: NestedMetaView)
    requires
        0 <= j < items.len(),
    ensures
        items.take(j + 1).contains(item) <==> items.take(j).contains(item) || items[j] == item,
{
    let longer = items.take(j + 1);
    let shorter = items.take(j);
    if longer.contains(item) {
        let k = choose|k: int| 0 <= k < longer.len() && longer[k] == item;
        if k < j {
            assert(shorter[k] == item);
        }
    }
    if shorter.contains(item) {
        let k = choose|k: int| 0 <= k < shorter.len() && shorter[k] == item;
        assert(longer[k] == item);
    }
    if items[j] == item {
        assert(longer[j] == item);
    }
}

proof fn lemma_declared_step(attributes: Seq<AttributeView>, i: int, word: Seq<char>)
    requires
        0 <= i < attributes.len(),
    ensures
        declared(attributes.take(i + 1), word) <==> declared(attributes.take(i), word)
            || attribute_declares(attributes[i], word),
{
    let longer = attributes.take(i + 1);
    let shorter = attributes.take(i);
    if declared(longer, word) {
        let k = choose|k: int| 0 <= k < longer.len() && attribute_declares(#[trigger] longer[k], word);
        if k < i {
            assert(shorter[k] == longer[k]);
        }
    }
    if declared(shorter, word) {
        let k = choose|k: int|
            0 <= k < shorter.len() && attribute_declares(#[trigger] shorter[k], word);
        assert(longer[k] == shorter[k]);
    }
    if attribute_declares(attributes[i], word) {
        assert(longer[i] == attributes[i]);
    }
}

/// A copy of a sequence of item lists.
pub fn copy_lists(lists: &Vec<Vec<NestedMeta>>) -> (copy: Vec<Vec<NestedMeta>>)
    ensures
        lists_view(copy@) == lists_view(lists@),
{
    let mut copy: Vec<Vec<NestedMeta>> = Vec::new();
    let mut i: usize = 0;
    while i < lists.len()
        invariant
            i <= lists.len(),
            lists_view(copy@) == lists_view(lists@).take(i as int),
        decreases lists.len() - i,
    {
        let ghost before = copy@;
        let list = copy_metas(&lists[i]);
        copy.push(list);
        proof {
            assert(lists_view(copy@) == lists_view(before).push(metas_view(list@)));
            assert(lists_view(lists@).take(i + 1) == lists_view(lists@).take(i as int).push(
                metas_view(lists[i as int]@),
            ));
        }
        i += 1;
    }
    proof {
        assert(lists_view(lists@).take(i as int) == lists_view(lists@));
    }
    copy
}

impl FieldInfo {
    /// What is known of a field before its attributes are read: its name, and
    /// nothing else; the command line may and must give it.
    pub fn new(field: &Field) -> (info: Self)
        ensures
            info@ == (FieldInfoView {
                descriptor: FieldDescriptorView {
                    name: field@.name,
                    is_value_optional: false,
                    waiver: false,
                    forbid_cli: false,
                },
                structopt_attrs: Seq::empty(),
            }),
    {
        let info = FieldInfo {
            descriptor: FieldDescriptor::new(field.name.clone(), false),
            structopt_attrs: Vec::new(),
        };
        assert(lists_view(info.structopt_attrs@) == Seq::<Seq<NestedMetaView>>::empty());
        info
    }

    /// Whether the field's own type is optional.
    pub fn is_optional(&self) -> (b: bool)
        ensures
            b == self@.is_optional(),
    {
        self.descriptor.is_value_optional
    }

    /// Whether the command line need not give the field.
    pub fn is_optional_cmd(&self) -> (b: bool)
        ensures
            b == self@.is_optional_cmd(),
    {
        self.descriptor.is_value_optional || self.descriptor.waiver
    }

    /// Whether the command line may give the field.
    pub fn is_cmd_arg(&self) -> (b: bool)
        ensures
            b == self@.is_cmd_arg(),
    {
        !self.descriptor.forbid_cli
    }

    /// Whether anything is handed on to the command line parser.
    pub fn has_structopt_attrs(&self) -> (b: bool)
        ensures
            b == (self@.structopt_attrs.len() > 0),
    {
        self.structopt_attrs.len() > 0
    }

    /// The field that stands for this one on the command line, if any.
    pub fn structopt_field(&self) -> (field: Option<StructoptField>)
        ensures
            match field {
                Some(f) => structopt_field_of(self@) == Some(f@),
                None => structopt_field_of(self@) is None,
            },
    {
        if !self.is_cmd_arg() {
            return None;
        }
        let optional_cmd = self.is_optional_cmd();
        Some(
            StructoptField {
                name: self.descriptor.name.clone(),
                required: !optional_cmd,
                wrapped: optional_cmd && !self.is_optional(),
                attrs: copy_lists(&self.structopt_attrs),
            },
        )
    }
}

/// Reads a field's declaration. Only list attributes under the path
/// `platformconfig` count. In them, the word `optional_cmd` is the waiver and
/// the word `no_cmd` forbids the command line; everything else is handed on.
pub fn analyze_field(field: &Field) -> (info: FieldInfo)
    ensures
        info@ == analysis(field@),
{
    let ghost attributes = attributes_view(field.attrs@);
    let mut waiver = false;
    let mut forbid_cli = false;
    let mut structopt_attrs: Vec<Vec<NestedMeta>> = Vec::new();
    assert(lists_view(structopt_attrs@) == Seq::<Seq<NestedMetaView>>::empty());
    let mut i: usize = 0;
    while i < field.attrs.len()
        invariant
            i <= field.attrs.len(),
            attributes == attributes_view(field.attrs@),
            waiver == declared(attributes.take(i as int), "optional_cmd"@),
            forbid_cli == declared(attributes.take(i as int), "no_cmd"@),
            lists_view(structopt_attrs@) == forwarded(attributes.take(i as int)),
        decreases field.attrs.len() - i,
    {
        let attr = &field.attrs[i];
        proof {
            lemma_declared_step(attributes, i as int, "optional_cmd"@);
            lemma_declared_step(attributes, i as int, "no_cmd"@);
            assert(attributes.take(i + 1).drop_last() == attributes.take(i as int));
            assert(attributes.take(i + 1).last() == attr@);
        }
        if reads_as(&attr.path, "platformconfig") {
            match &attr.nested {
                Some(list) => {
                    let ghost items = metas_view(list@);
                    let ghost waiver_before = waiver;
                    let ghost forbid_before = forbid_cli;
                    let mut structopt_nesteds: Vec<NestedMeta> = Vec::new();
                    assert(metas_view(structopt_nesteds@) == Seq::<NestedMetaView>::empty());
                    let mut j: usize = 0;
                    while j < list.len()
                        invariant
                            j <= list.len(),
                            items == metas_view(list@),
                            waiver == (waiver_before || items.take(j as int).contains(
                                NestedMetaView::Word("optional_cmd"@),
                            )),
                            forbid_cli == (forbid_before || items.take(j as int).contains(
                                NestedMetaView::Word("no_cmd"@),
                            )),
                            metas_view(structopt_nesteds@) == passthrough(items.take(j as int)),
                        decreases list.len() - j,
                    {
                        let nested = &list[j];
                        let ghost kept = structopt_nesteds@;
                        proof {
                            lemma_contains_step(
                                items,
                                j as int,
                                NestedMetaView::Word("optional_cmd"@),
                            );
                            lemma_contains_step(items, j as int, NestedMetaView::Word("no_cmd"@));
                            reveal_strlit("optional_cmd");
                            reveal_strlit("no_cmd");
                            assert("optional_cmd"@.len() != "no_cmd"@.len());
                            assert(items.take(j + 1).drop_last() == items.take(j as int));
                            assert(items.take(j + 1).last() == nested@);
                        }
                        let is_platformconfig_nested = match nested {
                            NestedMeta::Word(word) => {
                                if reads_as(word, "optional_cmd") {
                                    waiver = true;
                                    true
                                } else if reads_as(word, "no_cmd") {
                                    forbid_cli = true;
                                    true
                                } else {
                                    false
                                }
                            },
                            NestedMeta::Other(_) => false,
                        };
                        if !is_platformconfig_nested {
                            let item = copy_meta(nested);
                            structopt_nesteds.push(item);
                            proof {
                                assert(metas_view(structopt_nesteds@) == metas_view(kept).push(
                                    item@,
                                ));
                            }
                        }
                        j += 1;
                    }
                    proof {
                        assert(items.take(j as int) == items);
                    }
                    if structopt_nesteds.len() > 0 {
                        let ghost lists = structopt_attrs@;
                        structopt_attrs.push(structopt_nesteds);
                        proof {
                            assert(lists_view(structopt_attrs@) == lists_view(lists).push(
                                metas_view(structopt_nesteds@),
                            ));
                        }
                    }
                },
                None => {},
            }
        }
        i += 1;
    }
    proof {
        assert(attributes.take(i as int) == attributes);
    }
    FieldInfo {
        descriptor: FieldDescriptor {
            name: field.name.clone(),
            is_value_optional: is_option(&field.ty),
            waiver,
            forbid_cli,
        },
        structopt_attrs,
    }
}

} // verus!
