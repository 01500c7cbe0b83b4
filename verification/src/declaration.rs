//! The declaration of a record type, as the generator reads it.
//!
//! Identifiers and the parts of a type that the generator never looks into
//! are kept as text. Each type has a view that holds the same data over
//! `Seq<char>`; the contracts of the library are stated over these views.

use crate::text::texts;
use vstd::prelude::*;

verus! {

/// A generation behaviour that an annotation selects for its field.
#[derive(Clone, Copy, Debug, PartialEq, Eq, Structural)]
pub enum DirectiveKind {
    /// The field is a parameter of the constructor.
    Required,
    /// The field gets a setter that takes the field's declared type.
    DirectSetter,
    /// The field gets a setter that takes the payload of the field's
    /// optional container and wraps it.
    OptionalSetter,
}

/// An annotation on a field, in the form it was written.
#[derive(Clone, Debug, PartialEq, Eq)]
pub enum Annotation {
    /// A bare name, as in `#[set]`.
    Marker(String),
    /// A name with arguments or a value, as in `#[doc = ".."]`; only the
    /// name is kept.
    Compound(String),
}

/// What an [`Annotation`] holds, as a mathematical value.
pub enum AnnotationView {
    Marker(Seq<char>),
    Compound(Seq<char>),
}

impl View for Annotation {
    type V = AnnotationView;

    open spec fn view(&self) -> AnnotationView {
        match self {
            Annotation::Marker(name) => AnnotationView::Marker(name@),
            Annotation::Compound(name) => AnnotationView::Compound(name@),
        }
    }
}

/// One argument between the angle brackets of a path segment, as written.
#[derive(Clone, Debug, PartialEq, Eq)]
pub enum GenericArgument {
    /// A type, as in `Option<String>`.
    Type(String),
    /// A lifetime, as in `Cow<'a>`.
    Lifetime(String),
    /// A constant expression, as in `Matrix<3>`.
    Const(String),
    /// A binding or a bound of an associated item, as in
    /// `Iterator<Item = u8>`.
    Binding(String),
}

/// What a [`GenericArgument`] holds, as a mathematical value.
pub enum GenericArgumentView {
    Type(Seq<char>),
    Lifetime(Seq<char>),
    Const(Seq<char>),
    Binding(Seq<char>),
}

impl View for GenericArgument {
    type V = GenericArgumentView;

    open spec fn view(&self) -> GenericArgumentView {
        match self {
            GenericArgument::Type(t) => GenericArgumentView::Type(t@),
            GenericArgument::Lifetime(t) => GenericArgumentView::Lifetime(t@),
            GenericArgument::Const(t) => GenericArgumentView::Const(t@),
            GenericArgument::Binding(t) => GenericArgumentView::Binding(t@),
        }
    }
}

/// What follows the name in a path segment.
#[derive(Clone, Debug, PartialEq, Eq)]
pub enum PathArguments {
    /// Nothing, as in `String`.
    Absent,
    /// Arguments between angle brackets, as in `Option<String>`.
    AngleBracketed(Vec<GenericArgument>),
    /// The parenthesised form of the function traits, as in
    /// `Fn(u8) -> u8`, kept as written from the opening parenthesis on.
    Parenthesized(String),
}

/// What a [`PathArguments`] holds, as a mathematical value.
pub enum PathArgumentsView {
    Absent,
    AngleBracketed(Seq<GenericArgumentView>),
    Parenthesized(Seq<char>),
}

impl View for PathArguments {
    type V = PathArgumentsView;

    open spec fn view(&self) -> PathArgumentsView {
        match self {
            PathArguments::Absent => PathArgumentsView::Absent,
            PathArguments::AngleBracketed(args) => PathArgumentsView::AngleBracketed(
                args@.map_values(|a: GenericArgument| a@),
            ),
            PathArguments::Parenthesized(t) => PathArgumentsView::Parenthesized(t@),
        }
    }
}

/// One segment of a path: a name and its arguments.
#[derive(Clone, Debug, PartialEq, Eq)]
pub struct PathSegment {
    pub name: String,
    pub arguments: PathArguments,
}

/// What a [`PathSegment`] holds, as a mathematical value.
pub struct PathSegmentView {
    pub name: Seq<char>,
    pub arguments: PathArgumentsView,
}

impl View for PathSegment {
    type V = PathSegmentView;

    open spec fn view(&self) -> PathSegmentView {
        PathSegmentView { name: self.name@, arguments: self.arguments@ }
    }
}

/// The self-qualifier of a path, as in `<T as Iterator>` of
/// `<T as Iterator>::Item`.
#[derive(Clone, Debug, PartialEq, Eq)]
pub struct SelfQualifier {
    /// The type between `<` and `as`, as written.
    pub self_type: String,
    /// How many of the path's leading segments name the trait inside the
    /// qualifier: 1 in `<T as Iterator>::Item`, 0 in `<T>::Item`.
    pub position: usize,
}

/// What a [`SelfQualifier`] holds, as a mathematical value.
pub struct SelfQualifierView {
    pub self_type: Seq<char>,
    pub position: nat,
}

impl View for SelfQualifier {
    type V = SelfQualifierView;

    open spec fn view(&self) -> SelfQualifierView {
        SelfQualifierView { self_type: self.self_type@, position: self.position as nat }
    }
}

/// A type named by a path, as in `std::option::Option<String>`.
#[derive(Clone, Debug, PartialEq, Eq)]
pub struct TypePath {
    /// The self-qualifier, where the path has one.
    pub qualifier: Option<SelfQualifier>,
    /// Whether the path starts with `::`. In a qualified path this is the
    /// `::` before the trait, or, where no trait is named, the one behind
    /// the qualifier.
    pub global: bool,
    /// All segments of the path in order, those of the trait inside a
    /// qualifier first.
    pub segments: Vec<PathSegment>,
}

/// What a [`TypePath`] holds, as a mathematical value.
pub struct TypePathView {
    pub qualifier: Option<SelfQualifierView>,
    pub global: bool,
    pub segments: Seq<PathSegmentView>,
}

impl View for TypePath {
    type V = TypePathView;

    open spec fn view(&self) -> TypePathView {
        TypePathView {
            qualifier: match self.qualifier {
                Some(q) => Some(q@),
                None => None,
            },
            global: self.global,
            segments: self.segments@.map_values(|s: PathSegment| s@),
        }
    }
}

/// The declared type of a field, as deep as the generator looks.
#[derive(Clone, Debug, PartialEq, Eq)]
pub enum TypeExpr {
    /// A type named by a path.
    Path(TypePath),
    /// Any other type (a tuple, an array, a reference, a function type and
    /// so on), as written.
    Other(String),
}

/// What a [`TypeExpr`] holds, as a mathematical value.
pub enum TypeExprView {
    Path(TypePathView),
    Other(Seq<char>),
}

impl View for TypeExpr {
    type V = TypeExprView;

    open spec fn view(&self) -> TypeExprView {
        match self {
            TypeExpr::Path(p) => TypeExprView::Path(p@),
            TypeExpr::Other(t) => TypeExprView::Other(t@),
        }
    }
}

/// One named field of a record.
#[derive(Clone, Debug, PartialEq, Eq)]
pub struct FieldDeclaration {
    pub name: String,
    pub declared_type: TypeExpr,
    /// The annotations on the field, in source order.
    pub annotations: Vec<Annotation>,
}

/// What a [`FieldDeclaration`] holds, as a mathematical value.
pub struct FieldDeclarationView {
    pub name: Seq<char>,
    pub declared_type: TypeExprView,
    pub annotations: Seq<AnnotationView>,
}

impl View for FieldDeclaration {
    type V = FieldDeclarationView;

    open spec fn view(&self) -> FieldDeclarationView {
        FieldDeclarationView {
            name: self.name@,
            declared_type: self.declared_type@,
            annotations: self.annotations@.map_values(|a: Annotation| a@),
        }
    }
}

/// The views of the fields, in order.
pub open spec fn field_views(fields: Seq<FieldDeclaration>) -> Seq<FieldDeclarationView> {
    fields.map_values(|f: FieldDeclaration| f@)
}

/// What stands behind the name of a declared type.
#[derive(Clone, Debug, PartialEq, Eq)]
pub enum DeclarationBody {
    /// A record with named fields, in source order.
    NamedRecord(Vec<FieldDeclaration>),
    /// A record whose fields have positions and no names.
    TupleRecord,
    /// A record without a field list.
    UnitRecord,
    /// A type with variants.
    TaggedUnion,
    /// A type whose fields share their storage.
    UntaggedUnion,
}

/// What a [`DeclarationBody`] holds, as a mathematical value.
pub enum DeclarationBodyView {
    NamedRecord(Seq<FieldDeclarationView>),
    TupleRecord,
    UnitRecord,
    TaggedUnion,
    UntaggedUnion,
}

impl View for DeclarationBody {
    type V = DeclarationBodyView;

    open spec fn view(&self) -> DeclarationBodyView {
        match self {
            DeclarationBody::NamedRecord(fields) => DeclarationBodyView::NamedRecord(
                field_views(fields@),
            ),
            DeclarationBody::TupleRecord => DeclarationBodyView::TupleRecord,
            DeclarationBody::UnitRecord => DeclarationBodyView::UnitRecord,
            DeclarationBody::TaggedUnion => DeclarationBodyView::TaggedUnion,
            DeclarationBody::UntaggedUnion => DeclarationBodyView::UntaggedUnion,
        }
    }
}

/// The declaration of one type: the generator's input.
#[derive(Clone, Debug, PartialEq, Eq)]
pub struct TypeDeclaration {
    pub name: String,
    /// The declarations of the generic parameters, each as written, in
    /// order. The generator hands them on unchanged.
    pub generic_parameters: Vec<String>,
    pub body: DeclarationBody,
}

/// What a [`TypeDeclaration`] holds, as a mathematical value.
pub struct TypeDeclarationView {
    pub name: Seq<char>,
    pub generic_parameters: Seq<Seq<char>>,
    pub body: DeclarationBodyView,
}

impl View for TypeDeclaration {
    type V = TypeDeclarationView;

    open spec fn view(&self) -> TypeDeclarationView {
        TypeDeclarationView {
            name: self.name@,
            generic_parameters: texts(self.generic_parameters@),
            body: self.body@,
        }
    }
}

/// The directive that an annotation stands for, if it stands for one.
/// Only the three bare names `new`, `set` and `set_some` do.
pub open spec fn directive_of(a: AnnotationView) -> Option<DirectiveKind> {
    match a {
        AnnotationView::Marker(name) => if name == "new"@ {
            Some(DirectiveKind::Required)
        } else if name == "set"@ {
            Some(DirectiveKind::DirectSetter)
        } else if name == "set_some"@ {
            Some(DirectiveKind::OptionalSetter)
        } else {
            None
        },
        AnnotationView::Compound(_) => None,
    }
}

/// Whether one of the annotations stands for the directive.
pub open spec fn carries(annotations: Seq<AnnotationView>, kind: DirectiveKind) -> bool {
    exists|k: int|
        0 <= k < annotations.len() && #[trigger] directive_of(annotations[k]) == Some(kind)
}

impl Annotation {
    /// The directive that this annotation stands for. An annotation that
    /// stands for none is not an error: the generator passes over it.
    pub fn directive(&self) -> (kind: Option<DirectiveKind>)
        ensures
            kind == directive_of(self@),
    {
        match self {
            Annotation::Marker(name) => {
                if *name == "new".to_owned() {
                    Some(DirectiveKind::Required)
                } else if *name == "set".to_owned() {
                    Some(DirectiveKind::DirectSetter)
                } else if *name == "set_some".to_owned() {
                    Some(DirectiveKind::OptionalSetter)
                } else {
                    None
                }
            },
            Annotation::Compound(_) => None,
        }
    }
}

impl FieldDeclaration {
    /// Whether the field carries the directive.
    pub fn carries(&self, kind: DirectiveKind) -> (found: bool)
        ensures
            found == carries(self@.annotations, kind),
    {
        let mut k: usize = 0;
        while k < self.annotations.len()
            invariant
                k <= self.annotations.len(),
                forall|j: int|
                    0 <= j < k ==> #[trigger] directive_of(self@.annotations[j]) != Some(kind),
            decreases self.annotations.len() - k,
        {
            let found = self.annotations[k].directive();
            match found {
                Some(d) => {
                    if d == kind {
                        assert(directive_of(self@.annotations[k as int]) == Some(kind));
                        return true;
                    }
                },
                None => {},
            }
            k += 1;
        }
        false
    }
}

} // verus!
