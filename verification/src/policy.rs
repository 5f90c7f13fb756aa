//! The policy classifier: from a field's declaration to its canonical policy.

use vstd::prelude::*;
use crate::descriptor::FieldDescriptor;
use crate::descriptor::FieldDescriptorView;

verus! {

/// How a field may be supplied, as derived from its declaration.
#[derive(Clone, Copy, Debug, PartialEq, Eq, Structural)]
pub enum FieldPolicy {
    /// Eligible for the command line, mandatory value, no waiver: the command
    /// line argument is mandatory unless the merged source has the value.
    CliRequiredFallbackRequired,
    /// Eligible for the command line, mandatory value, with waiver: the
    /// command line may stay silent, and then the merged source must answer.
    CliOptionalOrFallback,
    /// Eligible for the command line, optional value: both providers may stay
    /// silent, and then the field is absent.
    CliOptionalValueOptional,
    /// Kept off the command line, mandatory value.
    SourceOnlyRequired,
    /// Kept off the command line, optional value.
    SourceOnlyOptional,
}

impl FieldPolicy {
    /// The command line is never consulted for the field.
    pub open spec fn is_source_only(self) -> bool {
        self == FieldPolicy::SourceOnlyRequired || self == FieldPolicy::SourceOnlyOptional
    }

    /// The field's final value may be absent.
    pub open spec fn tolerates_absence(self) -> bool {
        self == FieldPolicy::CliOptionalValueOptional || self == FieldPolicy::SourceOnlyOptional
    }

    /// The command line surface shows the field as a mandatory argument.
    pub open spec fn mandatory_on_cli(self) -> bool {
        self == FieldPolicy::CliRequiredFallbackRequired
    }

    /// Whether the command line is never consulted for a field of this policy.
    pub fn source_only(self) -> (b: bool)
        ensures
            b == self.is_source_only(),
    {
        match self {
            FieldPolicy::SourceOnlyRequired | FieldPolicy::SourceOnlyOptional => true,
            _ => false,
        }
    }

    /// Whether a field of this policy may end up without a value.
    pub fn absence_tolerated(self) -> (b: bool)
        ensures
            b == self.tolerates_absence(),
    {
        match self {
            FieldPolicy::CliOptionalValueOptional | FieldPolicy::SourceOnlyOptional => true,
            _ => false,
        }
    }

    /// Whether the command line surface shows a field of this policy as mandatory.
    pub fn cli_mandatory(self) -> (b: bool)
        ensures
            b == self.mandatory_on_cli(),
    {
        match self {
            FieldPolicy::CliRequiredFallbackRequired => true,
            _ => false,
        }
    }
}

/// Why a declaration has no policy.
#[derive(Debug, PartialEq, Eq)]
pub enum ClassificationError {
    /// The named field forbids command line input and yet carries the waiver,
    /// which only makes sense for a field the command line may supply.
    ConflictingAnnotations(String),
}

/// A declaration is illegal when it forbids the command line and waives it at once.
pub open spec fn conflicting(d: FieldDescriptorView) -> bool {
    d.forbid_cli && d.waiver
}

/// The decision table, in priority order: `forbid_cli` first, then the
/// optionality of the value, then the waiver.
pub open spec fn policy_of(d: FieldDescriptorView) -> FieldPolicy {
    if d.forbid_cli {
        if d.is_value_optional {
            FieldPolicy::SourceOnlyOptional
        } else {
            FieldPolicy::SourceOnlyRequired
        }
    } else if d.is_value_optional {
        FieldPolicy::CliOptionalValueOptional
    } else if d.waiver {
        FieldPolicy::CliOptionalOrFallback
    } else {
        FieldPolicy::CliRequiredFallbackRequired
    }
}

/// Derives the policy of one field. The decision depends on the field's own
/// declaration only, and fails exactly for a conflicting declaration.
pub fn classify(descriptor: &FieldDescriptor) -> (r: Result<FieldPolicy, ClassificationError>)
    ensures
        r is Ok <==> !conflicting(descriptor@),
        r matches Ok(p) ==> p == policy_of(descriptor@),
        r matches Err(ClassificationError::ConflictingAnnotations(field)) ==> field@
            == descriptor@.name,
{
    if descriptor.forbid_cli {
        if descriptor.waiver {
            Err(ClassificationError::ConflictingAnnotations(descriptor.name.clone()))
        } else if descriptor.is_value_optional {
            Ok(FieldPolicy::SourceOnlyOptional)
        } else {
            Ok(FieldPolicy::SourceOnlyRequired)
        }
    } else if descriptor.is_value_optional {
        Ok(FieldPolicy::CliOptionalValueOptional)
    } else if descriptor.waiver {
        Ok(FieldPolicy::CliOptionalOrFallback)
    } else {
        Ok(FieldPolicy::CliRequiredFallbackRequired)
    }
}

} // verus!
