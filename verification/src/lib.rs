//! Builder generation for record types.
//!
//! Given the declaration of a record type whose fields carry generation
//! directives, this library plans and renders companion code: a constructor
//! that takes the fields marked as required and defaults the others, and
//! consuming setters for the fields marked as settable.
//!
//! The work is done in three stages, each a module of its own:
//! [`classify`] inspects the shape of a declared type, [`plan`] sorts the
//! fields into the three generation plans, and [`synth`] renders the plans
//! as text. [`generate`](generate::generate) runs them in turn. What holds
//! of every plan and of every generation is proved in [`laws`].

pub mod classify;
pub mod declaration;
pub mod error;
pub mod generate;
pub mod laws;
pub mod plan;
pub mod synth;
pub mod text;

pub use classify::{optional_payload, ShapeMismatch};
pub use declaration::{
    Annotation, DeclarationBody, DirectiveKind, FieldDeclaration, GenericArgument, PathArguments,
    PathSegment, SelfQualifier, TypeDeclaration, TypeExpr, TypePath,
};
pub use error::GenerationError;
pub use generate::generate;
pub use plan::{plan_fields, ConstructorParam, DefaultedField, GenerationPlan, SetterSpec};
pub use synth::{synthesize, GeneratedUnit};
