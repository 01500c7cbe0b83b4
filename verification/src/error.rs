//! Why generation fails. Every failure is final: nothing is generated for
//! the declaration.

use crate::classify::ShapeMismatch;
use vstd::prelude::*;
use vstd::string::*;

verus! {

/// A failure of generation.
#[derive(Clone, Debug, PartialEq, Eq)]
pub enum GenerationError {
    /// The declared type is not a record with named fields.
    UnsupportedTypeShape,
    /// A field carries the optional-setter directive, and its declared type
    /// is no optional container.
    InvalidOptionalSetterTarget {
        /// The name of the field.
        field: String,
        /// What the declared type lacks.
        reason: ShapeMismatch,
    },
}

/// What a [`GenerationError`] holds, as a mathematical value.
pub enum GenerationErrorView {
    UnsupportedTypeShape,
    InvalidOptionalSetterTarget { field: Seq<char>, reason: ShapeMismatch },
}

impl View for GenerationError {
    type V = GenerationErrorView;

    open spec fn view(&self) -> GenerationErrorView {
        match self {
            GenerationError::UnsupportedTypeShape => GenerationErrorView::UnsupportedTypeShape,
            GenerationError::InvalidOptionalSetterTarget { field, reason } => {
                GenerationErrorView::InvalidOptionalSetterTarget { field: field@, reason: *reason }
            },
        }
    }
}

/// What a shape mismatch says to the author of the declaration.
pub open spec fn mismatch_text(why: ShapeMismatch) -> Seq<char> {
    match why {
        ShapeMismatch::NotNamedPath => "its type is not a named type"@,
        ShapeMismatch::QualifiedPath => "its type is a qualified path"@,
        ShapeMismatch::NotSingleSegment => "its type is a path of several segments"@,
        ShapeMismatch::NotSingleTypeArgument => "its type does not take exactly one type argument"@,
    }
}

/// What an error says to the author of the declaration. It names the field
/// and the directive at fault.
pub open spec fn error_text(e: GenerationErrorView) -> Seq<char> {
    match e {
        GenerationErrorView::UnsupportedTypeShape => "can only operate on structs with named fields"@,
        GenerationErrorView::InvalidOptionalSetterTarget { field, reason } => "`set_some` on field `"@
            + field + "` requires an `Option<T>`: "@ + mismatch_text(reason),
    }
}

impl ShapeMismatch {
    /// The mismatch in words.
    pub fn message(&self) -> (out: String)
        ensures
            out@ == mismatch_text(*self),
    {
        match self {
            ShapeMismatch::NotNamedPath => "its type is not a named type".to_owned(),
            ShapeMismatch::QualifiedPath => "its type is a qualified path".to_owned(),
            ShapeMismatch::NotSingleSegment => "its type is a path of several segments".to_owned(),
            ShapeMismatch::NotSingleTypeArgument => {
                "its type does not take exactly one type argument".to_owned()
            },
        }
    }
}

impl GenerationError {
    /// The error in words, for the author of the declaration.
    pub fn message(&self) -> (out: String)
        ensures
            out@ == error_text(self@),
    {
        match self {
            GenerationError::UnsupportedTypeShape => {
                "can only operate on structs with named fields".to_owned()
            },
            GenerationError::InvalidOptionalSetterTarget { field, reason } => {
                let mut out = "`set_some` on field `".to_owned();
                out.append(field.as_str());
                out.append("` requires an `Option<T>`: ");
                let why = reason.message();
                out.append(why.as_str());
                out
            },
        }
    }
}

} // verus!
