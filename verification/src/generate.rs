//! The entry point: from the declaration of one type to the generated
//! unit, or to the error that ends generation.

use crate::declaration::{DeclarationBody, DeclarationBodyView, TypeDeclaration, TypeDeclarationView};
use crate::error::{GenerationError, GenerationErrorView};
use crate::plan::{plan_fields, plan_result};
use crate::synth::{synthesize, unit_of, GeneratedUnit, GeneratedUnitView};
use vstd::prelude::*;

verus! {

/// Whether the declared type is a record with named fields: the only shape
/// for which code is generated.
pub open spec fn is_named_record(decl: TypeDeclarationView) -> bool {
    decl.body is NamedRecord
}

/// What generation gives for a declaration.
///
/// A type that is no record with named fields is rejected before any field
/// is looked at. Else the fields are planned, and the plan is rendered on
/// the declared name and generic parameters.
pub open spec fn generation_result(decl: TypeDeclarationView) -> Result<
    GeneratedUnitView,
    GenerationErrorView,
> {
    match decl.body {
        DeclarationBodyView::NamedRecord(fields) => match plan_result(fields) {
            Ok(plan) => Ok(unit_of(decl.name, decl.generic_parameters, plan)),
            Err(e) => Err(e),
        },
        _ => Err(GenerationErrorView::UnsupportedTypeShape),
    }
}

/// An outcome of generation, by the views of what it holds.
pub open spec fn outcome_view(outcome: Result<GeneratedUnit, GenerationError>) -> Result<
    GeneratedUnitView,
    GenerationErrorView,
> {
    match outcome {
        Ok(unit) => Ok(unit@),
        Err(e) => Err(e@),
    }
}

/// Generates the constructor and the setters for one declared type, which
/// it only reads.
///
/// The result depends on nothing but the declaration. On an error nothing
/// is generated.
pub fn generate(decl: &TypeDeclaration) -> (generated: Result<GeneratedUnit, GenerationError>)
    ensures
        outcome_view(generated) == generation_result(decl@),
{
    match &decl.body {
        DeclarationBody::NamedRecord(fields) => {
            match plan_fields(fields) {
                Ok(plan) => Ok(synthesize(decl.name.as_str(), &decl.generic_parameters, &plan)),
                Err(e) => Err(e),
            }
        },
        _ => Err(GenerationError::UnsupportedTypeShape),
    }
}

} // verus!
