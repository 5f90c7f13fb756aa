//! The schema of a configuration type: its fields in declaration order, each
//! with the policy derived from its declaration.

use vstd::prelude::*;
use crate::descriptor::FieldDescriptor;
use crate::descriptor::FieldDescriptorView;
use crate::policy::classify;
use crate::policy::conflicting;
use crate::policy::policy_of;
use crate::policy::ClassificationError;
use crate::policy::FieldPolicy;
use crate::source::is_plain_key;
use crate::source::plain_key;

verus! {

/// One field of a schema.
#[derive(Debug, PartialEq, Eq)]
pub struct SchemaField {
    pub name: String,
    pub policy: FieldPolicy,
}

/// Mathematical model of a [`SchemaField`].
pub struct SchemaFieldView {
    pub name: Seq<char>,
    pub policy: FieldPolicy,
}

impl View for SchemaField {
    type V = SchemaFieldView;

    open spec fn view(&self) -> SchemaFieldView {
        SchemaFieldView { name: self.name@, policy: self.policy }
    }
}

/// Why a declaration cannot join a schema. Any of these is a defect of the
/// configuration type itself, so nothing is resolved against such a schema.
#[derive(Debug, PartialEq, Eq)]
pub enum SchemaError {
    /// The field's name is not a plain key of the merged source.
    InvalidFieldName(String),
    /// The field forbids command line input and carries the waiver.
    ConflictingAnnotations(String),
    /// The schema already has a field of that name.
    DuplicateField(String),
}

/// Mathematical model of a [`SchemaError`].
pub enum SchemaErrorView {
    InvalidFieldName(Seq<char>),
    ConflictingAnnotations(Seq<char>),
    DuplicateField(Seq<char>),
}

impl View for SchemaError {
    type V = SchemaErrorView;

    open spec fn view(&self) -> SchemaErrorView {
        match self {
            SchemaError::InvalidFieldName(name) => SchemaErrorView::InvalidFieldName(name@),
            SchemaError::ConflictingAnnotations(name) => SchemaErrorView::ConflictingAnnotations(
                name@,
            ),
            SchemaError::DuplicateField(name) => SchemaErrorView::DuplicateField(name@),
        }
    }
}

/// The models of a sequence of schema fields.
pub open spec fn fields_view(fields: Seq<SchemaField>) -> Seq<SchemaFieldView> {
    fields.map_values(|f: SchemaField| f@)
}

/// Whether the schema has a field called `name`.
pub open spec fn declares(schema: Seq<SchemaFieldView>, name: Seq<char>) -> bool {
    exists|i: int| 0 <= i < schema.len() && (#[trigger] schema[i]).name == name
}

/// A schema is valid when every name is a plain key and no name occurs twice.
pub open spec fn valid_schema(schema: Seq<SchemaFieldView>) -> bool {
    &&& forall|i: int| 0 <= i < schema.len() ==> is_plain_key((#[trigger] schema[i]).name)
    &&& forall|i: int, j: int|
        0 <= i < j < schema.len() ==> (#[trigger] schema[i]).name != (#[trigger] schema[j]).name
}

/// What registering `d` with `schema` comes to: the field that joins the
/// schema, or the first defect found, the name being checked first, then the
/// annotations, then the schema.
pub open spec fn registration(schema: Seq<SchemaFieldView>, d: FieldDescriptorView) -> Result<
    SchemaFieldView,
    SchemaErrorView,
> {
    if !is_plain_key(d.name) {
        Err(SchemaErrorView::InvalidFieldName(d.name))
    } else if conflicting(d) {
        Err(SchemaErrorView::ConflictingAnnotations(d.name))
    } else if declares(schema, d.name) {
        Err(SchemaErrorView::DuplicateField(d.name))
    } else {
        Ok(SchemaFieldView { name: d.name, policy: policy_of(d) })
    }
}

/// The fields of a configuration type with their policies, in declaration
/// order. Every schema is valid in the sense of [`valid_schema`].
#[derive(Debug, PartialEq, Eq)]
pub struct Schema {
    fields: Vec<SchemaField>,
}

impl View for Schema {
    type V = Seq<SchemaFieldView>;

    closed spec fn view(&self) -> Seq<SchemaFieldView> {
        fields_view(self.fields@)
    }
}

impl Schema {
    #[verifier::type_invariant]
    closed spec fn well_formed(self) -> bool {
        valid_schema(fields_view(self.fields@))
    }

    /// The schema without fields.
    pub fn new() -> (schema: Self)
        ensures
            schema@ == Seq::<SchemaFieldView>::empty(),
    {
        Schema { fields: Vec::new() }
    }

    /// Every schema is valid; this brings the fact to a caller's proof.
    pub fn validity(&self)
        ensures
            valid_schema(self@),
    {
        proof {
            use_type_invariant(self);
        }
    }

    /// The number of fields.
    pub fn len(&self) -> (n: usize)
        ensures
            n == self@.len(),
    {
        self.fields.len()
    }

    /// The field at position `i` of the declaration order.
    pub fn field(&self, i: usize) -> (f: Option<&SchemaField>)
        ensures
            match f {
                Some(f) => i < self@.len() && f@ == self@[i as int],
                None => i >= self@.len(),
            },
    {
        if i < self.fields.len() {
            Some(&self.fields[i])
        } else {
            None
        }
    }

    /// The position of the field called `name`.
    pub fn position_of(&self, name: &String) -> (at: Option<usize>)
        ensures
            match at {
                Some(i) => i < self@.len() && self@[i as int].name == name@,
                None => !declares(self@, name@),
            },
    {
        let mut i: usize = 0;
        while i < self.fields.len()
            invariant
                i <= self.fields.len(),
                forall|j: int| 0 <= j < i ==> (#[trigger] fields_view(self.fields@)[j]).name != name@,
            decreases self.fields.len() - i,
        {
            if self.fields[i].name == *name {
                return Some(i);
            }
            i += 1;
        }
        None
    }

    /// The policy of the field called `name`.
    pub fn policy_of(&self, name: &String) -> (policy: Option<FieldPolicy>)
        ensures
            match policy {
                Some(p) => exists|i: int|
                    0 <= i < self@.len() && (#[trigger] self@[i]).name == name@ && self@[i].policy
                        == p,
                None => !declares(self@, name@),
            },
    {
        match self.position_of(name) {
            Some(i) => Some(self.fields[i].policy),
            None => None,
        }
    }

    /// Classifies `descriptor` and appends the field to the schema. On any
    /// defect the schema stays as it was.
    pub fn register(&mut self, descriptor: &FieldDescriptor) -> (r: Result<(), SchemaError>)
        ensures
            match r {
                Ok(()) => registration(old(self)@, descriptor@) matches Ok(field) && final(self)@
                    == old(self)@.push(field),
                Err(e) => registration(old(self)@, descriptor@) == Err::<
                    SchemaFieldView,
                    SchemaErrorView,
                >(e@) && final(self)@ == old(self)@,
            },
    {
        proof {
            use_type_invariant(&*self);
        }
        if !plain_key(&descriptor.name) {
            return Err(SchemaError::InvalidFieldName(descriptor.name.clone()));
        }
        let policy = match classify(descriptor) {
            Ok(policy) => policy,
            Err(ClassificationError::ConflictingAnnotations(name)) => {
                return Err(SchemaError::ConflictingAnnotations(name));
            },
        };
        if self.position_of(&descriptor.name).is_some() {
            return Err(SchemaError::DuplicateField(descriptor.name.clone()));
        }
        let ghost before = self.fields@;
        let field = SchemaField { name: descriptor.name.clone(), policy };
        let mut fields: Vec<SchemaField> = Vec::new();
        std::mem::swap(&mut fields, &mut self.fields);
        fields.push(field);
        proof {
            assert(fields_view(fields@) == fields_view(before).push(field@));
        }
        self.fields = fields;
        Ok(())
    }
}

} // verus!
