//! From the declaration of a configuration type to what is derived from it:
//! the schema that the resolution engine follows, and the struct that
//! describes the command line to its parser.

use vstd::prelude::*;
use vstd::string::StringExecFns;
use crate::analysis::analysis;
use crate::analysis::analyze_field;
use crate::analysis::structopt_field_of;
use crate::analysis::FieldInfo;
use crate::analysis::FieldInfoView;
use crate::analysis::StructoptField;
use crate::analysis::StructoptFieldView;
use crate::declaration::fields_view;
use crate::declaration::Data;
use crate::declaration::DeriveInput;
use crate::declaration::Field;
use crate::declaration::FieldView;
use crate::descriptor::FieldDescriptorView;
use crate::schema::registration;
use crate::schema::Schema;
use crate::schema::SchemaError;
use crate::schema::SchemaErrorView;
use crate::schema::SchemaFieldView;

verus! {

/// The models of a sequence of analysed fields.
pub open spec fn infos_view(infos: Seq<FieldInfo>) -> Seq<FieldInfoView> {
    infos.map_values(|i: FieldInfo| i@)
}

/// The models of a sequence of command line fields.
pub open spec fn structopt_fields_view(fields: Seq<StructoptField>) -> Seq<StructoptFieldView> {
    fields.map_values(|f: StructoptField| f@)
}

/// The struct that describes the command line to its parser.
#[derive(Debug, PartialEq, Eq)]
pub struct StructoptStruct {
    pub name: String,
    pub fields: Vec<StructoptField>,
}

/// Mathematical model of a [`StructoptStruct`].
pub struct StructoptStructView {
    pub name: Seq<char>,
    pub fields: Seq<StructoptFieldView>,
}

impl View for StructoptStruct {
    type V = StructoptStructView;

    open spec fn view(&self) -> StructoptStructView {
        StructoptStructView { name: self.name@, fields: structopt_fields_view(self.fields@) }
    }
}

/// Everything that is derived from the declaration of a configuration type.
#[derive(Debug, PartialEq, Eq)]
pub struct Derivation {
    pub schema: Schema,
    pub structopt: StructoptStruct,
}

/// The analysis of every field.
pub open spec fn analyses(fields: Seq<FieldView>) -> Seq<FieldInfoView> {
    fields.map_values(|f: FieldView| analysis(f))
}

/// The descriptors of analysed fields.
pub open spec fn descriptors_of(infos: Seq<FieldInfoView>) -> Seq<FieldDescriptorView> {
    infos.map_values(|i: FieldInfoView| i.descriptor)
}

/// The command line fields of analysed fields: one for each field that the
/// command line may give, in declaration order.
pub open spec fn structopt_fields_of(infos: Seq<FieldInfoView>) -> Seq<StructoptFieldView>
    decreases infos.len(),
{
    if infos.len() == 0 {
        Seq::empty()
    } else {
        match structopt_field_of(infos.last()) {
            Some(field) => structopt_fields_of(infos.drop_last()).push(field),
            None => structopt_fields_of(infos.drop_last()),
        }
    }
}

/// The name of the command line struct of the type called `name`.
pub open spec fn structopt_struct_name(name: Seq<char>) -> Seq<char> {
    "PlatformConfig"@ + name + "StructOpt"@
}

/// The schema that descriptors register to, one after the other, or the
/// first defect met on the way.
pub open spec fn schema_of(descriptors: Seq<FieldDescriptorView>) -> Result<
    Seq<SchemaFieldView>,
    SchemaErrorView,
>
    decreases descriptors.len(),
{
    if descriptors.len() == 0 {
        Ok(Seq::empty())
    } else {
        match schema_of(descriptors.drop_last()) {
            Err(defect) => Err(defect),
            Ok(schema) => match registration(schema, descriptors.last()) {
                Ok(field) => Ok(schema.push(field)),
                Err(defect) => Err(defect),
            },
        }
    }
}

proof fn lemma_defect_stays(descriptors: Seq<FieldDescriptorView>, n: int)
    requires
        0 <= n <= descriptors.len(),
        schema_of(descriptors.take(n)) is Err,
    ensures
        schema_of(descriptors) == schema_of(descriptors.take(n)),
    decreases descriptors.len() - n,
{
    if n == descriptors.len() {
        assert(descriptors.take(n) == descriptors);
    } else {
        assert(descriptors.take(n + 1).drop_last() == descriptors.take(n));
        lemma_defect_stays(descriptors, n + 1);
    }
}

/// Describes the command line of the type called `name` to its parser.
pub fn gen_structopt_struct(name: &String, field_infos: &Vec<FieldInfo>) -> (described:
    StructoptStruct)
    ensures
        described@ == (StructoptStructView {
            name: structopt_struct_name(name@),
            fields: structopt_fields_of(infos_view(field_infos@)),
        }),
{
    let ghost infos = infos_view(field_infos@);
    let mut fields: Vec<StructoptField> = Vec::new();
    assert(structopt_fields_view(fields@) == Seq::<StructoptFieldView>::empty());
    let mut i: usize = 0;
    while i < field_infos.len()
        invariant
            i <= field_infos.len(),
            infos == infos_view(field_infos@),
            structopt_fields_view(fields@) == structopt_fields_of(infos.take(i as int)),
        decreases field_infos.len() - i,
    {
        let ghost before = fields@;
        proof {
            assert(infos.take(i + 1).drop_last() == infos.take(i as int));
            assert(infos.take(i + 1).last() == field_infos[i as int]@);
        }
        match field_infos[i].structopt_field() {
            Some(field) => {
                fields.push(field);
                proof {
                    assert(structopt_fields_view(fields@) == structopt_fields_view(before).push(
                        field@,
                    ));
                }
            },
            None => {},
        }
        i += 1;
    }
    proof {
        assert(infos.take(i as int) == infos);
    }
    let struct_name = String::from_str("PlatformConfig").concat(name.as_str()).concat("StructOpt");
    StructoptStruct { name: struct_name, fields }
}

/// Derives the schema of analysed fields: every descriptor is classified and
/// registered in declaration order, and the first defect ends the derivation.
pub fn impl_platformconfig_trait(field_infos: &Vec<FieldInfo>) -> (r: Result<Schema, SchemaError>)
    ensures
        match r {
            Ok(schema) => schema_of(descriptors_of(infos_view(field_infos@))) == Ok::<
                Seq<SchemaFieldView>,
                SchemaErrorView,
            >(schema@),
            Err(defect) => schema_of(descriptors_of(infos_view(field_infos@))) == Err::<
                Seq<SchemaFieldView>,
                SchemaErrorView,
            >(defect@),
        },
{
    let ghost descriptors = descriptors_of(infos_view(field_infos@));
    let mut schema = Schema::new();
    let mut i: usize = 0;
    while i < field_infos.len()
        invariant
            i <= field_infos.len(),
            descriptors == descriptors_of(infos_view(field_infos@)),
            schema_of(descriptors.take(i as int)) == Ok::<Seq<SchemaFieldView>, SchemaErrorView>(
                schema@,
            ),
        decreases field_infos.len() - i,
    {
        proof {
            assert(descriptors.take(i + 1).drop_last() == descriptors.take(i as int));
            assert(descriptors.take(i + 1).last() == field_infos[i as int].descriptor@);
        }
        match schema.register(&field_infos[i].descriptor) {
            Ok(()) => {},
            Err(defect) => {
                proof {
                    lemma_defect_stays(descriptors, i + 1);
                }
                return Err(defect);
            },
        }
        i += 1;
    }
    proof {
        assert(descriptors.take(i as int) == descriptors);
    }
    Ok(schema)
}

/// Derives everything from the named fields of the struct called `name`.
pub fn impl_platformconfig_for_struct(name: &String, fields: &Vec<Field>) -> (r: Result<
    Derivation,
    SchemaError,
>)
    ensures
        match r {
            Ok(derived) => schema_of(descriptors_of(analyses(fields_view(fields@)))) == Ok::<
                Seq<SchemaFieldView>,
                SchemaErrorView,
            >(derived.schema@) && derived.structopt@ == (StructoptStructView {
                name: structopt_struct_name(name@),
                fields: structopt_fields_of(analyses(fields_view(fields@))),
            }),
            Err(defect) => schema_of(descriptors_of(analyses(fields_view(fields@)))) == Err::<
                Seq<SchemaFieldView>,
                SchemaErrorView,
            >(defect@),
        },
{
    let ghost expected = analyses(fields_view(fields@));
    let mut field_infos: Vec<FieldInfo> = Vec::new();
    let mut i: usize = 0;
    while i < fields.len()
        invariant
            i <= fields.len(),
            expected == analyses(fields_view(fields@)),
            infos_view(field_infos@) == expected.take(i as int),
        decreases fields.len() - i,
    {
        let ghost before = field_infos@;
        let info = analyze_field(&fields[i]);
        field_infos.push(info);
        proof {
            assert(infos_view(field_infos@) == infos_view(before).push(info@));
            assert(expected.take(i + 1) == expected.take(i as int).push(expected[i as int]));
        }
        i += 1;
    }
    proof {
        assert(expected.take(i as int) == expected);
    }
    let schema = match impl_platformconfig_trait(&field_infos) {
        Ok(schema) => schema,
        Err(defect) => {
            return Err(defect);
        },
    };
    let structopt = gen_structopt_struct(name, &field_infos);
    Ok(Derivation { schema, structopt })
}

/// The fields of a declaration, where it is a struct with named fields.
pub open spec fn named_fields(input: DeriveInput) -> Seq<FieldView> {
    match input.data {
        Data::Struct(fields) => fields_view(fields@),
        Data::Other => Seq::empty(),
    }
}

/// Derives the schema and the command line struct of a configuration type
/// from its declaration, which must be a struct with named fields.
pub fn platformconfig(input: &DeriveInput) -> (r: Result<Derivation, SchemaError>)
    requires
        input.data is Struct,
    ensures
        match r {
            Ok(derived) => schema_of(descriptors_of(analyses(named_fields(*input)))) == Ok::<
                Seq<SchemaFieldView>,
                SchemaErrorView,
            >(derived.schema@) && derived.structopt@ == (StructoptStructView {
                name: structopt_struct_name(input.name@),
                fields: structopt_fields_of(analyses(named_fields(*input))),
            }),
            Err(defect) => schema_of(descriptors_of(analyses(named_fields(*input)))) == Err::<
                Seq<SchemaFieldView>,
                SchemaErrorView,
            >(defect@),
        },
{
    match &input.data {
        Data::Struct(fields) => impl_platformconfig_for_struct(&input.name, fields),
        Data::Other => unreached(),
    }
}

} // verus!
