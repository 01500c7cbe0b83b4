use build_new::text::{concat_text, join_text};
use build_new::{
    optional_payload, Annotation, DirectiveKind, FieldDeclaration, GenericArgument, PathArguments,
    PathSegment, SelfQualifier, ShapeMismatch, TypeExpr, TypePath,
};

fn owned(s: &str) -> String {
    s.to_string()
}

fn segment(name: &str, arguments: PathArguments) -> PathSegment {
    PathSegment { name: owned(name), arguments }
}

fn path(segments: Vec<PathSegment>) -> TypeExpr {
    TypeExpr::Path(TypePath { qualifier: None, global: false, segments })
}

#[test]
fn directive_names() {
    assert_eq!(Annotation::Marker(owned("new")).directive(), Some(DirectiveKind::Required));
    assert_eq!(Annotation::Marker(owned("set")).directive(), Some(DirectiveKind::DirectSetter));
    assert_eq!(
        Annotation::Marker(owned("set_some")).directive(),
        Some(DirectiveKind::OptionalSetter)
    );
    assert_eq!(Annotation::Marker(owned("default")).directive(), None);
    assert_eq!(Annotation::Marker(owned("NEW")).directive(), None);
    assert_eq!(Annotation::Marker(owned(" new")).directive(), None);
    assert_eq!(Annotation::Marker(owned("a :: new")).directive(), None);
    assert_eq!(Annotation::Marker(owned("")).directive(), None);
    assert_eq!(Annotation::Compound(owned("new")).directive(), None);
    assert_eq!(Annotation::Compound(owned("set_some")).directive(), None);
}

#[test]
fn carried_directives() {
    let field = FieldDeclaration {
        name: owned("a"),
        declared_type: TypeExpr::Other(owned("()")),
        annotations: vec![
            Annotation::Marker(owned("doc")),
            Annotation::Compound(owned("set")),
            Annotation::Marker(owned("set_some")),
            Annotation::Marker(owned("new")),
        ],
    };
    assert!(field.carries(DirectiveKind::Required));
    assert!(field.carries(DirectiveKind::OptionalSetter));
    assert!(!field.carries(DirectiveKind::DirectSetter));
    let bare = FieldDeclaration {
        name: owned("b"),
        declared_type: TypeExpr::Other(owned("()")),
        annotations: vec![],
    };
    assert!(!bare.carries(DirectiveKind::Required));
    assert!(!bare.carries(DirectiveKind::DirectSetter));
    assert!(!bare.carries(DirectiveKind::OptionalSetter));
}

#[test]
fn payload_of_an_optional_container() {
    let ty = path(vec![segment(
        "Option",
        PathArguments::AngleBracketed(vec![GenericArgument::Type(owned("Vec<(u8, u8)>"))]),
    )]);
    assert_eq!(optional_payload(&ty), Ok(owned("Vec<(u8, u8)>")));
}

#[test]
fn payload_of_a_global_container() {
    let ty = TypeExpr::Path(TypePath {
        qualifier: None,
        global: true,
        segments: vec![segment(
            "Option",
            PathArguments::AngleBracketed(vec![GenericArgument::Type(owned("u8"))]),
        )],
    });
    assert_eq!(optional_payload(&ty), Ok(owned("u8")));
    assert_eq!(ty.text(), "::Option<u8>");
}

#[test]
fn no_payload_in_other_shapes() {
    assert_eq!(
        optional_payload(&TypeExpr::Other(owned("fn(u8) -> u8"))),
        Err(ShapeMismatch::NotNamedPath)
    );
    assert_eq!(
        optional_payload(&path(vec![segment("u8", PathArguments::Absent)])),
        Err(ShapeMismatch::NotSingleTypeArgument)
    );
    assert_eq!(
        optional_payload(&path(vec![
            segment("a", PathArguments::Absent),
            segment(
                "B",
                PathArguments::AngleBracketed(vec![GenericArgument::Type(owned("u8"))])
            ),
        ])),
        Err(ShapeMismatch::NotSingleSegment)
    );
    let qualified = TypeExpr::Path(TypePath {
        qualifier: Some(SelfQualifier { self_type: owned("T"), position: 1 }),
        global: false,
        segments: vec![
            segment("Tr", PathArguments::Absent),
            segment(
                "Maybe",
                PathArguments::AngleBracketed(vec![GenericArgument::Type(owned("u8"))]),
            ),
        ],
    });
    assert_eq!(optional_payload(&qualified), Err(ShapeMismatch::QualifiedPath));
}

#[test]
fn joined_text() {
    assert_eq!(join_text(&vec![], ", "), "");
    assert_eq!(join_text(&vec![owned("a")], ", "), "a");
    assert_eq!(join_text(&vec![owned("a"), owned("b"), owned("c")], ", "), "a, b, c");
    assert_eq!(join_text(&vec![owned(""), owned("")], "::"), "::");
    assert_eq!(join_text(&vec![owned("a"), owned("b")], ""), "ab");
}

#[test]
fn concatenated_text() {
    assert_eq!(concat_text(&vec![]), "");
    assert_eq!(concat_text(&vec![owned("a\n"), owned(""), owned("b\n")]), "a\nb\n");
}

#[test]
fn text_of_a_bare_type() {
    assert_eq!(path(vec![segment("String", PathArguments::Absent)]).text(), "String");
    assert_eq!(TypeExpr::Other(owned("&'a [u8]")).text(), "&'a [u8]");
}

#[test]
fn text_of_generic_arguments() {
    let ty = path(vec![segment(
        "Map",
        PathArguments::AngleBracketed(vec![
            GenericArgument::Lifetime(owned("'a")),
            GenericArgument::Type(owned("String")),
            GenericArgument::Const(owned("4")),
            GenericArgument::Binding(owned("Out = u8")),
        ]),
    )]);
    assert_eq!(ty.text(), "Map<'a, String, 4, Out = u8>");
    let empty = path(vec![segment("Map", PathArguments::AngleBracketed(vec![]))]);
    assert_eq!(empty.text(), "Map<>");
}

#[test]
fn text_of_a_long_path() {
    let ty = TypeExpr::Path(TypePath {
        qualifier: None,
        global: true,
        segments: vec![
            segment("std", PathArguments::Absent),
            segment("option", PathArguments::Absent),
            segment(
                "Option",
                PathArguments::AngleBracketed(vec![GenericArgument::Type(owned("u8"))]),
            ),
        ],
    });
    assert_eq!(ty.text(), "::std::option::Option<u8>");
}

fn qualified(self_type: &str, position: usize, global: bool, names: &[&str]) -> TypeExpr {
    TypeExpr::Path(TypePath {
        qualifier: Some(SelfQualifier { self_type: owned(self_type), position }),
        global,
        segments: names.iter().map(|n| segment(n, PathArguments::Absent)).collect(),
    })
}

#[test]
fn text_of_a_qualified_path() {
    assert_eq!(qualified("T", 1, false, &["Iterator", "Item"]).text(), "<T as Iterator>::Item");
    assert_eq!(
        qualified("Vec<u8>", 2, false, &["a", "B", "C", "D"]).text(),
        "<Vec<u8> as a::B>::C::D"
    );
    assert_eq!(qualified("T", 2, true, &["a", "B", "C"]).text(), "<T as ::a::B>::C");
}

#[test]
fn text_of_a_path_qualified_without_a_trait() {
    assert_eq!(qualified("T", 0, true, &["Item"]).text(), "<T>::Item");
    assert_eq!(qualified("T", 0, true, &["a", "B"]).text(), "<T>::a::B");
    assert_eq!(qualified("T", 0, false, &["Item"]).text(), "<T>Item");
    assert_eq!(qualified("T", 0, false, &[]).text(), "<T>");
}

#[test]
fn text_of_a_qualifier_that_takes_all_segments() {
    assert_eq!(qualified("T", 2, false, &["a", "B"]).text(), "<T as a::B>");
    assert_eq!(qualified("T", 7, false, &["a", "B"]).text(), "<T as a::B>");
    assert_eq!(qualified("T", 7, true, &["a"]).text(), "<T as ::a>");
}

#[test]
fn text_of_parenthesised_arguments() {
    let ty = path(vec![segment("Fn", PathArguments::Parenthesized(owned("(u8) -> bool")))]);
    assert_eq!(ty.text(), "Fn(u8) -> bool");
}

#[test]
fn text_of_the_parts() {
    assert_eq!(GenericArgument::Lifetime(owned("'a")).text(), "'a");
    assert_eq!(PathArguments::Absent.text(), "");
    assert_eq!(
        PathArguments::AngleBracketed(vec![GenericArgument::Type(owned("u8"))]).text(),
        "<u8>"
    );
    assert_eq!(segment("Vec", PathArguments::Absent).text(), "Vec");
    assert_eq!(ShapeMismatch::NotNamedPath.message(), "its type is not a named type");
}
