//! What holds of classification, surface and resolution taken together.

use vstd::prelude::*;
use crate::analysis::structopt_field_of;
use crate::analysis::FieldInfoView;
use crate::analysis::StructoptFieldView;
use crate::derive::descriptors_of;
use crate::derive::schema_of;
use crate::derive::structopt_fields_of;
use crate::policy::policy_of;
use crate::policy::FieldPolicy;
use crate::resolve::failures;
use crate::resolve::field_outcome;
use crate::resolve::outcomes;
use crate::resolve::resolution;
use crate::resolve::result_view;
use crate::resolve::AggregatedResolutionError;
use crate::resolve::ResolutionContext;
use crate::resolve::ResolvedConfiguration;
use crate::resolve::successes;
use crate::resolve::FieldOutcomeView;
use crate::resolve::ResolutionErrorView;
use crate::resolve::ResolvedFieldView;
use crate::schema::registration;
use crate::schema::valid_schema;
use crate::schema::Schema;
use crate::schema::SchemaFieldView;
use crate::source::properties;
use crate::source::Properties;
use crate::source::SourceLookupView;
use crate::surface::argument_of;
use crate::surface::surface_of;
use crate::surface::SurfaceArgumentView;

verus! {

/// The name of the field that an outcome is about.
pub open spec fn outcome_name(outcome: FieldOutcomeView) -> Seq<char> {
    match outcome {
        Ok(field) => field.name,
        Err(error) => error.field(),
    }
}

/// How many of the errors are about the field `name`.
pub open spec fn entries_for(errors: Seq<ResolutionErrorView>, name: Seq<char>) -> nat
    decreases errors.len(),
{
    if errors.len() == 0 {
        0
    } else if errors.last().field() == name {
        entries_for(errors.drop_last(), name) + 1
    } else {
        entries_for(errors.drop_last(), name)
    }
}

proof fn lemma_entries_push(errors: Seq<ResolutionErrorView>, error: ResolutionErrorView, name: Seq<char>)
    ensures
        entries_for(errors.push(error), name) == entries_for(errors, name) + (if error.field()
            == name {
            1nat
        } else {
            0nat
        }),
{
    assert(errors.push(error).drop_last() == errors);
}

proof fn lemma_no_entry(outs: Seq<FieldOutcomeView>, name: Seq<char>)
    requires
        forall|j: int| 0 <= j < outs.len() && (#[trigger] outs[j]) is Err ==> outcome_name(outs[j]) != name,
    ensures
        entries_for(failures(outs), name) == 0,
    decreases outs.len(),
{
    if outs.len() > 0 {
        let rest = outs.drop_last();
        assert forall|j: int| 0 <= j < rest.len() && (#[trigger] rest[j]) is Err implies outcome_name(
            rest[j],
        ) != name by {
            assert(rest[j] == outs[j]);
        }
        lemma_no_entry(rest, name);
        match outs.last() {
            Err(error) => {
                assert(outs[outs.len() - 1] is Err);
                lemma_entries_push(failures(rest), error, name);
            },
            Ok(_) => {},
        }
    }
}

proof fn lemma_one_entry(outs: Seq<FieldOutcomeView>, i: int, name: Seq<char>)
    requires
        0 <= i < outs.len(),
        outs[i] is Err,
        outcome_name(outs[i]) == name,
        forall|j: int| 0 <= j < outs.len() && j != i ==> outcome_name(#[trigger] outs[j]) != name,
    ensures
        entries_for(failures(outs), name) == 1,
        failures(outs).contains(outs[i]->Err_0),
    decreases outs.len(),
{
    let rest = outs.drop_last();
    let k = outs.len() - 1;
    if i == k {
        assert forall|j: int| 0 <= j < rest.len() && (#[trigger] rest[j]) is Err implies outcome_name(
            rest[j],
        ) != name by {
            assert(rest[j] == outs[j]);
        }
        lemma_no_entry(rest, name);
        let error = outs[i]->Err_0;
        lemma_entries_push(failures(rest), error, name);
        assert(failures(outs) == failures(rest).push(error));
        assert(failures(outs)[failures(rest).len() as int] == error);
    } else {
        assert(rest[i] == outs[i]);
        assert forall|j: int| 0 <= j < rest.len() && j != i implies outcome_name(
            #[trigger] rest[j],
        ) != name by {
            assert(rest[j] == outs[j]);
        }
        lemma_one_entry(rest, i, name);
        let e = outs[i]->Err_0;
        let p = choose|p: int| 0 <= p < failures(rest).len() && failures(rest)[p] == e;
        match outs.last() {
            Err(error) => {
                assert(outcome_name(outs[k]) != name);
                lemma_entries_push(failures(rest), error, name);
                assert(failures(outs)[p] == e);
            },
            Ok(_) => {},
        }
    }
}

proof fn lemma_all_resolved(outs: Seq<FieldOutcomeView>)
    ensures
        failures(outs).len() + successes(outs).len() == outs.len(),
        failures(outs).len() == 0 ==> forall|i: int|
            0 <= i < outs.len() ==> (#[trigger] outs[i]) == Ok::<
                ResolvedFieldView,
                ResolutionErrorView,
            >(successes(outs)[i]),
    decreases outs.len(),
{
    if outs.len() > 0 {
        let rest = outs.drop_last();
        lemma_all_resolved(rest);
        if failures(outs).len() == 0 {
            assert forall|i: int| 0 <= i < outs.len() implies (#[trigger] outs[i]) == Ok::<
                ResolvedFieldView,
                ResolutionErrorView,
            >(successes(outs)[i]) by {
                if i < rest.len() {
                    assert(rest[i] == outs[i]);
                }
            }
        }
    }
}

proof fn lemma_outcome_names(
    schema: Seq<SchemaFieldView>,
    cli: Map<Seq<char>, Seq<char>>,
    source: Properties,
)
    ensures
        outcomes(schema, cli, source).len() == schema.len(),
        forall|j: int|
            0 <= j < schema.len() ==> outcome_name(#[trigger] outcomes(schema, cli, source)[j])
                == schema[j].name,
{
}

/// A source-only field is decided without the command line: whatever the
/// command line holds for it, the outcome is the same.
pub proof fn law_source_only_ignores_cli(
    policy: FieldPolicy,
    name: Seq<char>,
    supplied: Option<Seq<char>>,
    other: Option<Seq<char>>,
    found: SourceLookupView,
)
    requires
        policy.is_source_only(),
    ensures
        field_outcome(policy, name, supplied, found) == field_outcome(policy, name, other, found),
{
}

/// The surface never shows a source-only field: every argument of the surface
/// stands for a field of the schema that the command line may supply, and is
/// mandatory exactly where that field's policy says so.
pub proof fn law_surface_hides_source_only(schema: Seq<SchemaFieldView>, k: int)
    requires
        0 <= k < surface_of(schema).len(),
    ensures
        exists|i: int|
            0 <= i < schema.len() && !(#[trigger] schema[i]).policy.is_source_only() && surface_of(
                schema,
            )[k] == argument_of(schema[i]),
    decreases schema.len(),
{
    let rest = schema.drop_last();
    let last = schema.len() - 1;
    if !schema.last().policy.is_source_only() && k == surface_of(rest).len() {
        assert(surface_of(schema)[k] == argument_of(schema[last]));
    } else {
        law_surface_hides_source_only(rest, k);
        let i = choose|i: int|
            0 <= i < rest.len() && !(#[trigger] rest[i]).policy.is_source_only() && surface_of(
                rest,
            )[k] == argument_of(rest[i]);
        assert(schema[i] == rest[i]);
    }
}

/// In a valid schema no argument of the surface bears the name of a
/// source-only field.
pub proof fn law_source_only_not_on_surface(schema: Seq<SchemaFieldView>, i: int, k: int)
    requires
        valid_schema(schema),
        0 <= i < schema.len(),
        schema[i].policy.is_source_only(),
        0 <= k < surface_of(schema).len(),
    ensures
        surface_of(schema)[k].name != schema[i].name,
{
    law_surface_hides_source_only(schema, k);
}

/// A mandatory field that the command line may supply, and that neither the
/// command line nor the source has, is reported missing: the decision for the
/// field is that error and no default value.
pub proof fn law_missing_everywhere_is_an_error(policy: FieldPolicy, name: Seq<char>)
    requires
        policy == FieldPolicy::CliRequiredFallbackRequired || policy
            == FieldPolicy::CliOptionalOrFallback,
    ensures
        field_outcome(policy, name, None, SourceLookupView::NotFound) == Err::<
            ResolvedFieldView,
            ResolutionErrorView,
        >(ResolutionErrorView::MissingRequiredField(name)),
{
}

/// A mandatory field of a valid schema that the command line may supply, and
/// that neither the command line nor the source has, makes the pass fail with
/// exactly one error about that field, which reports it missing.
pub proof fn law_missing_field_reported_once(
    schema: Seq<SchemaFieldView>,
    cli: Map<Seq<char>, Seq<char>>,
    source: Properties,
    i: int,
)
    requires
        valid_schema(schema),
        0 <= i < schema.len(),
        schema[i].policy == FieldPolicy::CliRequiredFallbackRequired || schema[i].policy
            == FieldPolicy::CliOptionalOrFallback,
        !cli.dom().contains(schema[i].name),
        !source.dom().contains(schema[i].name),
    ensures
        resolution(schema, cli, source) matches Err(errors) && entries_for(errors, schema[i].name)
            == 1 && errors.contains(ResolutionErrorView::MissingRequiredField(schema[i].name)),
{
    let outs = outcomes(schema, cli, source);
    lemma_outcome_names(schema, cli, source);
    assert(outs[i] == Err::<ResolvedFieldView, ResolutionErrorView>(
        ResolutionErrorView::MissingRequiredField(schema[i].name),
    ));
    assert forall|j: int| 0 <= j < outs.len() && j != i implies outcome_name(#[trigger] outs[j])
        != schema[i].name by {
        if j < i {
            assert(schema[j].name != schema[i].name);
        } else {
            assert(schema[i].name != schema[j].name);
        }
    }
    lemma_one_entry(outs, i, schema[i].name);
}

/// An optional field that the command line may supply, and that neither the
/// command line nor the source has, is absent, and that is no error.
pub proof fn law_absent_optional_is_absent(name: Seq<char>)
    ensures
        field_outcome(
            FieldPolicy::CliOptionalValueOptional,
            name,
            None,
            SourceLookupView::NotFound,
        ) == Ok::<ResolvedFieldView, ResolutionErrorView>(ResolvedFieldView { name, value: None }),
{
}

/// An optional field of a valid schema that the command line may supply, and
/// that neither the command line nor the source has, contributes no error to
/// the pass; where the pass succeeds, the field's final value is absent.
pub proof fn law_absent_optional_reports_nothing(
    schema: Seq<SchemaFieldView>,
    cli: Map<Seq<char>, Seq<char>>,
    source: Properties,
    i: int,
)
    requires
        valid_schema(schema),
        0 <= i < schema.len(),
        schema[i].policy == FieldPolicy::CliOptionalValueOptional,
        !cli.dom().contains(schema[i].name),
        !source.dom().contains(schema[i].name),
    ensures
        match resolution(schema, cli, source) {
            Ok(fields) => fields.len() == schema.len() && fields[i] == (ResolvedFieldView {
                name: schema[i].name,
                value: None,
            }),
            Err(errors) => entries_for(errors, schema[i].name) == 0,
        },
{
    let outs = outcomes(schema, cli, source);
    lemma_outcome_names(schema, cli, source);
    assert(outs[i] is Ok);
    assert forall|j: int| 0 <= j < outs.len() && (#[trigger] outs[j]) is Err implies outcome_name(
        outs[j],
    ) != schema[i].name by {
        if j < i {
            assert(schema[j].name != schema[i].name);
        } else if j > i {
            assert(schema[i].name != schema[j].name);
        }
    }
    lemma_no_entry(outs, schema[i].name);
    lemma_all_resolved(outs);
}

/// A pass that succeeds yields one final value per field of the schema, in
/// declaration order, each being the decision for that field; a pass that
/// fails yields at least one error and no more errors than fields.
pub proof fn law_all_or_nothing(
    schema: Seq<SchemaFieldView>,
    cli: Map<Seq<char>, Seq<char>>,
    source: Properties,
)
    ensures
        match resolution(schema, cli, source) {
            Ok(fields) => fields.len() == schema.len() && forall|i: int|
                0 <= i < schema.len() ==> #[trigger] outcomes(schema, cli, source)[i] == Ok::<
                    ResolvedFieldView,
                    ResolutionErrorView,
                >(fields[i]),
            Err(errors) => 0 < errors.len() <= schema.len(),
        },
{
    lemma_all_resolved(outcomes(schema, cli, source));
}

/// The errors of a pass keep the declaration order of their fields: of two
/// failing fields, the error of the earlier one stands before the error of
/// the later one.
pub proof fn law_errors_in_declaration_order(outs: Seq<FieldOutcomeView>, i: int, j: int)
    requires
        0 <= i < j < outs.len(),
        outs[i] is Err,
        outs[j] is Err,
    ensures
        exists|p: int, q: int|
            0 <= p < q < failures(outs).len() && #[trigger] failures(outs)[p] == outs[i]->Err_0
                && #[trigger] failures(outs)[q] == outs[j]->Err_0,
    decreases outs.len(),
{
    let rest = outs.drop_last();
    let k = outs.len() - 1;
    if j == k {
        lemma_failure_present(rest, i);
        let p = choose|p: int| 0 <= p < failures(rest).len() && failures(rest)[p] == rest[i]->Err_0;
        let q = failures(rest).len() as int;
        assert(failures(outs) == failures(rest).push(outs[j]->Err_0));
        assert(failures(outs)[p] == outs[i]->Err_0);
        assert(failures(outs)[q] == outs[j]->Err_0);
    } else {
        assert(rest[i] == outs[i] && rest[j] == outs[j]);
        law_errors_in_declaration_order(rest, i, j);
        let (p, q) = choose|p: int, q: int|
            0 <= p < q < failures(rest).len() && #[trigger] failures(rest)[p] == rest[i]->Err_0
                && #[trigger] failures(rest)[q] == rest[j]->Err_0;
        assert(failures(outs)[p] == outs[i]->Err_0);
        assert(failures(outs)[q] == outs[j]->Err_0);
    }
}

proof fn lemma_failure_present(outs: Seq<FieldOutcomeView>, i: int)
    requires
        0 <= i < outs.len(),
        outs[i] is Err,
    ensures
        exists|p: int| 0 <= p < failures(outs).len() && failures(outs)[p] == outs[i]->Err_0,
    decreases outs.len(),
{
    let rest = outs.drop_last();
    let k = outs.len() - 1;
    if i == k {
        assert(failures(outs)[failures(rest).len() as int] == outs[i]->Err_0);
    } else {
        assert(rest[i] == outs[i]);
        lemma_failure_present(rest, i);
        let p = choose|p: int| 0 <= p < failures(rest).len() && failures(rest)[p] == rest[i]->Err_0;
        assert(failures(outs)[p] == outs[i]->Err_0);
    }
}

/// Resolution is a function of what it reads: two passes over the same
/// schema and the same context return the same configuration, or the same
/// errors in the same order.
pub proof fn law_resolution_is_idempotent(
    schema: Schema,
    context: ResolutionContext,
    first: Result<ResolvedConfiguration, AggregatedResolutionError>,
    second: Result<ResolvedConfiguration, AggregatedResolutionError>,
)
    requires
        result_view(first) == resolution(schema@, context.cli@, properties(context.source)),
        result_view(second) == resolution(schema@, context.cli@, properties(context.source)),
    ensures
        result_view(first) == result_view(second),
{
}

/// The command line struct follows the policy: a field stands on it exactly
/// when its policy is not source-only, it is mandatory there exactly when the
/// policy makes the command line mandatory, and it is wrapped in `Option`
/// exactly when only the waiver lets the command line stay silent.
pub proof fn law_structopt_field_follows_policy(info: FieldInfoView)
    ensures
        structopt_field_of(info) is Some <==> !policy_of(info.descriptor).is_source_only(),
        structopt_field_of(info) matches Some(field) ==> {
            &&& field.name == info.descriptor.name
            &&& field.required == policy_of(info.descriptor).mandatory_on_cli()
            &&& field.wrapped == (policy_of(info.descriptor) == FieldPolicy::CliOptionalOrFallback)
        },
{
}

/// The arguments that the fields of a command line struct stand for.
pub open spec fn arguments_of(fields: Seq<StructoptFieldView>) -> Seq<SurfaceArgumentView> {
    fields.map_values(
        |f: StructoptFieldView| SurfaceArgumentView { name: f.name, required: f.required },
    )
}

/// Where a schema is derived from analysed fields, the command line struct
/// derived from the same fields shows exactly the surface of that schema.
pub proof fn law_command_line_struct_is_the_surface(infos: Seq<FieldInfoView>)
    requires
        schema_of(descriptors_of(infos)) is Ok,
    ensures
        arguments_of(structopt_fields_of(infos)) == surface_of(
            schema_of(descriptors_of(infos))->Ok_0,
        ),
    decreases infos.len(),
{
    let descriptors = descriptors_of(infos);
    if infos.len() > 0 {
        let rest = infos.drop_last();
        assert(descriptors.drop_last() == descriptors_of(rest));
        assert(descriptors.last() == infos.last().descriptor);
        law_command_line_struct_is_the_surface(rest);
        law_structopt_field_follows_policy(infos.last());
        let before = schema_of(descriptors_of(rest))->Ok_0;
        let field = registration(before, descriptors.last())->Ok_0;
        let schema = schema_of(descriptors)->Ok_0;
        assert(schema == before.push(field));
        assert(schema.drop_last() == before);
        match structopt_field_of(infos.last()) {
            Some(shown) => {
                assert(arguments_of(structopt_fields_of(rest).push(shown)) == arguments_of(
                    structopt_fields_of(rest),
                ).push(argument_of(field)));
            },
            None => {},
        }
    } else {
        assert(arguments_of(structopt_fields_of(infos)) == Seq::<SurfaceArgumentView>::empty());
    }
}

/// Where the command line may supply a field and does, its value is the
/// field's final value, whatever the source holds.
pub proof fn law_cli_wins(
    policy: FieldPolicy,
    name: Seq<char>,
    supplied: Seq<char>,
    found: SourceLookupView,
)
    requires
        !policy.is_source_only(),
    ensures
        field_outcome(policy, name, Some(supplied), found) == Ok::<
            ResolvedFieldView,
            ResolutionErrorView,
        >(ResolvedFieldView { name, value: Some(supplied) }),
{
}

} // verus!
