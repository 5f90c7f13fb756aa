//! The static declaration of a configuration field.

use vstd::prelude::*;

verus! {

/// What a configuration type declares about one of its fields.
///
/// `waiver` and `forbid_cli` are the two annotations a declaration may carry:
/// the first tolerates the field's absence from the command line, the second
/// keeps the field off the command line altogether. A declaration that carries
/// both is illegal; [`crate::policy::classify`] rejects it.
#[derive(Debug, PartialEq, Eq)]
pub struct FieldDescriptor {
    /// The field's name, unique within its configuration type.
    pub name: String,
    /// Whether the field's own type already stands for "may be absent".
    pub is_value_optional: bool,
    /// The `optional_cmd` annotation.
    pub waiver: bool,
    /// The `no_cmd` annotation.
    pub forbid_cli: bool,
}

/// Mathematical model of a [`FieldDescriptor`].
pub struct FieldDescriptorView {
    pub name: Seq<char>,
    pub is_value_optional: bool,
    pub waiver: bool,
    pub forbid_cli: bool,
}

impl View for FieldDescriptor {
    type V = FieldDescriptorView;

    open spec fn view(&self) -> FieldDescriptorView {
        FieldDescriptorView {
            name: self.name@,
            is_value_optional: self.is_value_optional,
            waiver: self.waiver,
            forbid_cli: self.forbid_cli,
        }
    }
}

impl FieldDescriptorView {
    /// A field may be given on the command line unless its declaration forbids it.
    pub open spec fn allow_cli(self) -> bool {
        !self.forbid_cli
    }
}

impl FieldDescriptor {
    /// A field without annotations: eligible for the command line, no waiver.
    pub fn new(name: String, is_value_optional: bool) -> (d: Self)
        ensures
            d@ == (FieldDescriptorView {
                name: name@,
                is_value_optional,
                waiver: false,
                forbid_cli: false,
            }),
    {
        FieldDescriptor { name, is_value_optional, waiver: false, forbid_cli: false }
    }

    /// The same declaration with the `optional_cmd` annotation added.
    pub fn optional_cmd(self) -> (d: Self)
        ensures
            d@ == (FieldDescriptorView { waiver: true, ..self@ }),
    {
        FieldDescriptor { waiver: true, ..self }
    }

    /// The same declaration with the `no_cmd` annotation added.
    pub fn no_cmd(self) -> (d: Self)
        ensures
            d@ == (FieldDescriptorView { forbid_cli: true, ..self@ }),
    {
        FieldDescriptor { forbid_cli: true, ..self }
    }

    /// Whether the field may be given on the command line.
    pub fn allow_cli(&self) -> (b: bool)
        ensures
            b == self@.allow_cli(),
    {
        !self.forbid_cli
    }
}

} // verus!
