//! The command line surface: which fields the command line offers, and
//! whether it insists on them.

use vstd::prelude::*;
use crate::schema::Schema;
use crate::schema::SchemaFieldView;

verus! {

/// One argument that the command line offers.
#[derive(Debug, PartialEq, Eq)]
pub struct SurfaceArgument {
    /// The name of the field that the argument supplies.
    pub name: String,
    /// Whether the command line insists on the argument.
    pub required: bool,
}

/// Mathematical model of a [`SurfaceArgument`].
pub struct SurfaceArgumentView {
    pub name: Seq<char>,
    pub required: bool,
}

impl View for SurfaceArgument {
    type V = SurfaceArgumentView;

    open spec fn view(&self) -> SurfaceArgumentView {
        SurfaceArgumentView { name: self.name@, required: self.required }
    }
}

/// The models of a sequence of arguments.
pub open spec fn arguments_view(arguments: Seq<SurfaceArgument>) -> Seq<SurfaceArgumentView> {
    arguments.map_values(|a: SurfaceArgument| a@)
}

/// The argument that stands for a field which the command line may supply.
pub open spec fn argument_of(field: SchemaFieldView) -> SurfaceArgumentView {
    SurfaceArgumentView { name: field.name, required: field.policy.mandatory_on_cli() }
}

/// The surface of a schema: one argument for each field that is not
/// source-only, in declaration order; mandatory exactly where the policy
/// makes the command line argument mandatory.
pub open spec fn surface_of(schema: Seq<SchemaFieldView>) -> Seq<SurfaceArgumentView>
    decreases schema.len(),
{
    if schema.len() == 0 {
        Seq::empty()
    } else if schema.last().policy.is_source_only() {
        surface_of(schema.drop_last())
    } else {
        surface_of(schema.drop_last()).push(argument_of(schema.last()))
    }
}

/// Builds the command line surface of `schema`.
pub fn surface(schema: &Schema) -> (arguments: Vec<SurfaceArgument>)
    ensures
        arguments_view(arguments@) == surface_of(schema@),
{
    let mut arguments: Vec<SurfaceArgument> = Vec::new();
    let mut i: usize = 0;
    while i < schema.len()
        invariant
            i <= schema@.len(),
            arguments_view(arguments@) == surface_of(schema@.take(i as int)),
        decreases schema@.len() - i,
    {
        let ghost before = arguments@;
        proof {
            assert(schema@.take(i + 1).drop_last() == schema@.take(i as int));
        }
        match schema.field(i) {
            Some(field) => {
                if !field.policy.source_only() {
                    let argument = SurfaceArgument {
                        name: field.name.clone(),
                        required: field.policy.cli_mandatory(),
                    };
                    arguments.push(argument);
                    proof {
                        assert(arguments_view(arguments@) == arguments_view(before).push(
                            argument@,
                        ));
                    }
                }
            },
            None => {},
        }
        i += 1;
    }
    proof {
        assert(schema@.take(i as int) == schema@);
    }
    arguments
}

} // verus!
