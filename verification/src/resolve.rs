//! The resolution engine: from each field's policy, what the command line
//! supplied and what the merged source holds, to the final configuration or
//! to the complete list of what is wrong.

use vstd::prelude::*;
use config::Config;
use crate::cli::cli_value;
use crate::cli::CliValues;
use crate::policy::FieldPolicy;
use crate::schema::valid_schema;
use crate::schema::Schema;
use crate::schema::SchemaFieldView;
use crate::source::lookup_in;
use crate::source::is_plain_key;
use crate::source::properties;
use crate::source::source_get;
use crate::source::Properties;
use crate::source::SourceLookup;
use crate::source::SourceLookupView;

verus! {

/// Why one field has no final value.
#[derive(Debug, PartialEq, Eq)]
pub enum ResolutionError {
    /// Neither the command line nor the merged source supplies the mandatory
    /// field of this name.
    MissingRequiredField(String),
    /// The merged source has the field of this name but yields no value for
    /// it; the second text is the source's own account of the failure.
    SourceLookupError(String, String),
}

/// Mathematical model of a [`ResolutionError`].
pub enum ResolutionErrorView {
    MissingRequiredField(Seq<char>),
    SourceLookupError(Seq<char>, Seq<char>),
}

impl View for ResolutionError {
    type V = ResolutionErrorView;

    open spec fn view(&self) -> ResolutionErrorView {
        match self {
            ResolutionError::MissingRequiredField(name) => ResolutionErrorView::MissingRequiredField(
                name@,
            ),
            ResolutionError::SourceLookupError(name, cause) => ResolutionErrorView::SourceLookupError(
                name@,
                cause@,
            ),
        }
    }
}

impl ResolutionErrorView {
    /// The name of the field that the error is about.
    pub open spec fn field(self) -> Seq<char> {
        match self {
            ResolutionErrorView::MissingRequiredField(name) => name,
            ResolutionErrorView::SourceLookupError(name, _) => name,
        }
    }
}

impl ResolutionError {
    /// The name of the field that the error is about.
    pub fn field(&self) -> (name: &String)
        ensures
            name@ == self@.field(),
    {
        match self {
            ResolutionError::MissingRequiredField(name) => name,
            ResolutionError::SourceLookupError(name, _) => name,
        }
    }
}

/// The final value of one field; `None` is an absent optional value.
#[derive(Debug, PartialEq, Eq)]
pub struct ResolvedField {
    pub name: String,
    pub value: Option<String>,
}

/// Mathematical model of a [`ResolvedField`].
pub struct ResolvedFieldView {
    pub name: Seq<char>,
    pub value: Option<Seq<char>>,
}

/// The model of an optional text.
pub open spec fn text_view(text: Option<String>) -> Option<Seq<char>> {
    match text {
        Some(t) => Some(t@),
        None => None,
    }
}

impl View for ResolvedField {
    type V = ResolvedFieldView;

    open spec fn view(&self) -> ResolvedFieldView {
        ResolvedFieldView { name: self.name@, value: text_view(self.value) }
    }
}

/// What resolving one field comes to.
pub type FieldOutcome = Result<ResolvedField, ResolutionError>;

/// Mathematical model of a [`FieldOutcome`].
pub type FieldOutcomeView = Result<ResolvedFieldView, ResolutionErrorView>;

/// The model of one outcome.
pub open spec fn outcome_view(outcome: FieldOutcome) -> FieldOutcomeView {
    match outcome {
        Ok(field) => Ok(field@),
        Err(error) => Err(error@),
    }
}

/// The models of a sequence of outcomes.
pub open spec fn outcomes_view(outcomes: Seq<FieldOutcome>) -> Seq<FieldOutcomeView> {
    outcomes.map_values(|o: FieldOutcome| outcome_view(o))
}

/// The models of a sequence of resolved fields.
pub open spec fn resolved_view(fields: Seq<ResolvedField>) -> Seq<ResolvedFieldView> {
    fields.map_values(|f: ResolvedField| f@)
}

/// The models of a sequence of errors.
pub open spec fn errors_view(errors: Seq<ResolutionError>) -> Seq<ResolutionErrorView> {
    errors.map_values(|e: ResolutionError| e@)
}

/// What the merged source alone decides for a field: a value it has is
/// taken; a property it lacks leaves an optional field absent and a mandatory
/// one missing; a property it cannot read is an error of its own kind, never
/// mistaken for absence.
pub open spec fn source_outcome(
    policy: FieldPolicy,
    name: Seq<char>,
    found: SourceLookupView,
) -> FieldOutcomeView {
    match found {
        SourceLookupView::Found(value) => Ok(ResolvedFieldView { name, value: Some(value) }),
        SourceLookupView::NotFound => if policy.tolerates_absence() {
            Ok(ResolvedFieldView { name, value: None })
        } else {
            Err(ResolutionErrorView::MissingRequiredField(name))
        },
        SourceLookupView::Failed(cause) => Err(ResolutionErrorView::SourceLookupError(name, cause)),
    }
}

/// The decision for one field. A value from the command line wins wherever
/// the policy lets the command line speak; otherwise the merged source decides.
pub open spec fn field_outcome(
    policy: FieldPolicy,
    name: Seq<char>,
    supplied: Option<Seq<char>>,
    found: SourceLookupView,
) -> FieldOutcomeView {
    if !policy.is_source_only() && supplied is Some {
        Ok(ResolvedFieldView { name, value: supplied })
    } else {
        source_outcome(policy, name, found)
    }
}

/// The outcome of every field of a schema, in declaration order.
pub open spec fn outcomes(
    schema: Seq<SchemaFieldView>,
    cli: Map<Seq<char>, Seq<char>>,
    source: Properties,
) -> Seq<FieldOutcomeView> {
    Seq::new(
        schema.len(),
        |i: int|
            field_outcome(
                schema[i].policy,
                schema[i].name,
                cli_value(cli, schema[i].name),
                lookup_in(source, schema[i].name),
            ),
    )
}

/// The errors among the outcomes, in their order.
pub open spec fn failures(outcomes: Seq<FieldOutcomeView>) -> Seq<ResolutionErrorView>
    decreases outcomes.len(),
{
    if outcomes.len() == 0 {
        Seq::empty()
    } else {
        match outcomes.last() {
            Err(error) => failures(outcomes.drop_last()).push(error),
            Ok(_) => failures(outcomes.drop_last()),
        }
    }
}

/// The resolved fields among the outcomes, in their order.
pub open spec fn successes(outcomes: Seq<FieldOutcomeView>) -> Seq<ResolvedFieldView>
    decreases outcomes.len(),
{
    if outcomes.len() == 0 {
        Seq::empty()
    } else {
        match outcomes.last() {
            Ok(field) => successes(outcomes.drop_last()).push(field),
            Err(_) => successes(outcomes.drop_last()),
        }
    }
}

/// All or nothing: the configuration if no field failed, else every failure.
pub open spec fn assembled(outcomes: Seq<FieldOutcomeView>) -> Result<
    Seq<ResolvedFieldView>,
    Seq<ResolutionErrorView>,
> {
    if failures(outcomes).len() == 0 {
        Ok(successes(outcomes))
    } else {
        Err(failures(outcomes))
    }
}

/// What a resolution pass yields for a schema, a command line and a source.
pub open spec fn resolution(
    schema: Seq<SchemaFieldView>,
    cli: Map<Seq<char>, Seq<char>>,
    source: Properties,
) -> Result<Seq<ResolvedFieldView>, Seq<ResolutionErrorView>> {
    assembled(outcomes(schema, cli, source))
}

/// The fully resolved configuration: one final value per field of the schema,
/// in declaration order. It cannot be changed once produced.
#[derive(Debug, PartialEq, Eq)]
pub struct ResolvedConfiguration {
    fields: Vec<ResolvedField>,
}

impl View for ResolvedConfiguration {
    type V = Seq<ResolvedFieldView>;

    closed spec fn view(&self) -> Seq<ResolvedFieldView> {
        resolved_view(self.fields@)
    }
}

impl ResolvedConfiguration {
    /// The number of fields.
    pub fn len(&self) -> (n: usize)
        ensures
            n == self@.len(),
    {
        self.fields.len()
    }

    /// The field at position `i` of the declaration order.
    pub fn field(&self, i: usize) -> (f: Option<&ResolvedField>)
        ensures
            match f {
                Some(f) => i < self@.len() && f@ == self@[i as int],
                None => i >= self@.len(),
            },
    {
        if i < self.fields.len() {
            Some(&self.fields[i])
        } else {
            None
        }
    }

    /// The first field called `name`.
    pub fn get(&self, name: &String) -> (f: Option<&ResolvedField>)
        ensures
            match f {
                Some(f) => exists|i: int|
                    0 <= i < self@.len() && f@ == #[trigger] self@[i] && f@.name == name@ && forall|
                        j: int,
                    |
                        0 <= j < i ==> (#[trigger] self@[j]).name != name@,
                None => forall|i: int| 0 <= i < self@.len() ==> (#[trigger] self@[i]).name != name@,
            },
    {
        let mut i: usize = 0;
        while i < self.fields.len()
            invariant
                i <= self.fields.len(),
                forall|j: int| 0 <= j < i ==> (#[trigger] resolved_view(self.fields@)[j]).name != name@,
            decreases self.fields.len() - i,
        {
            if self.fields[i].name == *name {
                assert(self@[i as int] == self.fields[i as int]@);
                return Some(&self.fields[i]);
            }
            i += 1;
        }
        None
    }
}

/// Every failure of one resolution pass, in declaration order of the fields.
/// There is always at least one.
#[derive(Debug, PartialEq, Eq)]
pub struct AggregatedResolutionError {
    errors: Vec<ResolutionError>,
}

impl View for AggregatedResolutionError {
    type V = Seq<ResolutionErrorView>;

    closed spec fn view(&self) -> Seq<ResolutionErrorView> {
        errors_view(self.errors@)
    }
}

impl AggregatedResolutionError {
    #[verifier::type_invariant]
    closed spec fn well_formed(self) -> bool {
        self.errors@.len() > 0
    }

    /// The number of failures, never zero.
    pub fn len(&self) -> (n: usize)
        ensures
            n == self@.len(),
            n > 0,
    {
        proof {
            use_type_invariant(self);
        }
        self.errors.len()
    }

    /// The failure at position `i`.
    pub fn error(&self, i: usize) -> (e: Option<&ResolutionError>)
        ensures
            match e {
                Some(e) => i < self@.len() && e@ == self@[i as int],
                None => i >= self@.len(),
            },
    {
        if i < self.errors.len() {
            Some(&self.errors[i])
        } else {
            None
        }
    }
}

/// The model of what a pass returns.
pub open spec fn result_view(r: Result<ResolvedConfiguration, AggregatedResolutionError>) -> Result<
    Seq<ResolvedFieldView>,
    Seq<ResolutionErrorView>,
> {
    match r {
        Ok(configuration) => Ok(configuration@),
        Err(errors) => Err(errors@),
    }
}

/// Settles a field for which the merged source was consulted.
pub fn settle(policy: FieldPolicy, name: &String, found: SourceLookup) -> (outcome: FieldOutcome)
    ensures
        outcome_view(outcome) == source_outcome(policy, name@, found@),
{
    match found {
        SourceLookup::Found(value) => Ok(ResolvedField { name: name.clone(), value: Some(value) }),
        SourceLookup::NotFound => if policy.absence_tolerated() {
            Ok(ResolvedField { name: name.clone(), value: None })
        } else {
            Err(ResolutionError::MissingRequiredField(name.clone()))
        },
        SourceLookup::Failed(cause) => Err(ResolutionError::SourceLookupError(name.clone(), cause)),
    }
}

/// Resolves one field. The command line is checked once, and only where the
/// policy lets it speak; the source is consulted once, and only where the
/// command line did not decide.
fn resolve_field(policy: FieldPolicy, name: &String, cli: &CliValues, source: &Config) -> (outcome:
    FieldOutcome)
    requires
        is_plain_key(name@),
    ensures
        outcome_view(outcome) == field_outcome(
            policy,
            name@,
            cli_value(cli@, name@),
            lookup_in(properties(*source), name@),
        ),
{
    let supplied = if policy.source_only() {
        None
    } else {
        cli.value_of(name)
    };
    match supplied {
        Some(value) => Ok(ResolvedField { name: name.clone(), value: Some(value.clone()) }),
        None => settle(policy, name, source_get(source, name)),
    }
}

/// Gathers the outcomes of a pass: the configuration if every field has its
/// value, else all the failures, in the order of the outcomes.
pub fn assemble(outcomes: Vec<FieldOutcome>) -> (r: Result<
    ResolvedConfiguration,
    AggregatedResolutionError,
>)
    ensures
        result_view(r) == assembled(outcomes_view(outcomes@)),
{
    let ghost all = outcomes_view(outcomes@);
    let ghost given = outcomes@;
    let mut fields: Vec<ResolvedField> = Vec::new();
    let mut errors: Vec<ResolutionError> = Vec::new();
    for outcome in it: outcomes
        invariant
            it.seq() == given,
            all == outcomes_view(given),
            resolved_view(fields@) == successes(all.take(it.index() as int)),
            errors_view(errors@) == failures(all.take(it.index() as int)),
    {
        proof {
            let k = it.index() as int;
            assert(all.take(k + 1).drop_last() == all.take(k));
            assert(all.take(k + 1).last() == outcome_view(outcome));
        }
        let ghost fields_before = fields@;
        let ghost errors_before = errors@;
        match outcome {
            Ok(field) => {
                fields.push(field);
                assert(resolved_view(fields@) == resolved_view(fields_before).push(field@));
            },
            Err(error) => {
                errors.push(error);
                assert(errors_view(errors@) == errors_view(errors_before).push(error@));
            },
        }
    }
    proof {
        assert(all.take(given.len() as int) == all);
    }
    if errors.len() == 0 {
        Ok(ResolvedConfiguration { fields })
    } else {
        Err(AggregatedResolutionError { errors })
    }
}

/// What one resolution pass reads: the values that the command line supplied
/// and the merged source. The engine changes neither.
pub struct ResolutionContext {
    pub cli: CliValues,
    pub source: Config,
}

/// Resolves every field of `schema` against `context`. No field is skipped
/// because another one failed: the result is either the configuration with
/// the final value of every field, or every failure, both in declaration order.
pub fn resolve(schema: &Schema, context: &ResolutionContext) -> (r: Result<
    ResolvedConfiguration,
    AggregatedResolutionError,
>)
    ensures
        result_view(r) == resolution(schema@, context.cli@, properties(context.source)),
{
    schema.validity();
    let ghost expected = outcomes(schema@, context.cli@, properties(context.source));
    let mut gathered: Vec<FieldOutcome> = Vec::new();
    let mut i: usize = 0;
    while i < schema.len()
        invariant
            i <= schema@.len(),
            valid_schema(schema@),
            expected == outcomes(schema@, context.cli@, properties(context.source)),
            outcomes_view(gathered@) == expected.take(i as int),
        decreases schema@.len() - i,
    {
        let ghost before = gathered@;
        match schema.field(i) {
            Some(field) => {
                let outcome = resolve_field(field.policy, &field.name, &context.cli, &context.source);
                gathered.push(outcome);
                proof {
                    assert(outcomes_view(gathered@) == outcomes_view(before).push(
                        outcome_view(outcome),
                    ));
                    assert(expected.take(i + 1) == expected.take(i as int).push(expected[i as int]));
                }
            },
            None => {},
        }
        i += 1;
    }
    proof {
        assert(expected.take(i as int) == expected);
    }
    assemble(gathered)
}

} // verus!
