//! The type-shape classifier: whether a declared type is an optional
//! container, and what it contains.
//!
//! An optional container is a generic wrapper with exactly one type
//! parameter, written as a path of one segment: `Option<String>`. The
//! classifier looks at the shape alone, not at the segment's name.

use crate::declaration::{
    GenericArgument, GenericArgumentView, PathArguments, PathArgumentsView, TypeExpr,
    TypeExprView,
};
use vstd::prelude::*;

verus! {

/// Why a declared type is no optional container.
#[derive(Clone, Copy, Debug, PartialEq, Eq, Structural)]
pub enum ShapeMismatch {
    /// The type is not named by a path: a tuple, an array, a reference, a
    /// function type.
    NotNamedPath,
    /// The path has a self-qualifier, as in `<T as Iterator>::Item`.
    QualifiedPath,
    /// The path does not have exactly one segment.
    NotSingleSegment,
    /// The segment does not carry exactly one argument between angle
    /// brackets, or that argument is not a type.
    NotSingleTypeArgument,
}

/// The payload of an optional container, or why the type is none.
pub open spec fn payload_of(t: TypeExprView) -> Result<Seq<char>, ShapeMismatch> {
    match t {
        TypeExprView::Other(_) => Err(ShapeMismatch::NotNamedPath),
        TypeExprView::Path(p) => if p.qualifier is Some {
            Err(ShapeMismatch::QualifiedPath)
        } else if p.segments.len() != 1 {
            Err(ShapeMismatch::NotSingleSegment)
        } else {
            match p.segments[0].arguments {
                PathArgumentsView::AngleBracketed(args) => if args.len() == 1 {
                    match args[0] {
                        GenericArgumentView::Type(inner) => Ok(inner),
                        _ => Err(ShapeMismatch::NotSingleTypeArgument),
                    }
                } else {
                    Err(ShapeMismatch::NotSingleTypeArgument)
                },
                _ => Err(ShapeMismatch::NotSingleTypeArgument),
            }
        },
    }
}

/// Whether the type is an optional container: a path without qualifier, of
/// one segment, whose arguments are one type between angle brackets.
pub open spec fn is_optional_container(t: TypeExprView) -> bool {
    &&& t matches TypeExprView::Path(p)
    &&& p.qualifier is None
    &&& p.segments.len() == 1
    &&& p.segments[0].arguments matches PathArgumentsView::AngleBracketed(args)
    &&& args.len() == 1
    &&& args[0] is Type
}

/// Classifies a declared type: hands back the payload type of an optional
/// container, as written, or the reason why the type is none. The type is
/// only read.
pub fn optional_payload(ty: &TypeExpr) -> (found: Result<String, ShapeMismatch>)
    ensures
        found is Ok <==> is_optional_container(ty@),
        match found {
            Ok(inner) => payload_of(ty@) == Ok::<Seq<char>, ShapeMismatch>(inner@),
            Err(why) => payload_of(ty@) == Err::<Seq<char>, ShapeMismatch>(why),
        },
{
    match ty {
        TypeExpr::Other(_) => Err(ShapeMismatch::NotNamedPath),
        TypeExpr::Path(p) => {
            if p.qualifier.is_some() {
                return Err(ShapeMismatch::QualifiedPath);
            }
            if p.segments.len() != 1 {
                return Err(ShapeMismatch::NotSingleSegment);
            }
            match &p.segments[0].arguments {
                PathArguments::AngleBracketed(args) => {
                    if args.len() != 1 {
                        return Err(ShapeMismatch::NotSingleTypeArgument);
                    }
                    match &args[0] {
                        GenericArgument::Type(inner) => Ok(inner.clone()),
                        _ => Err(ShapeMismatch::NotSingleTypeArgument),
                    }
                },
                _ => Err(ShapeMismatch::NotSingleTypeArgument),
            }
        },
    }
}

} // verus!
