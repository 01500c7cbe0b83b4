use build_new::{
    generate, Annotation, DeclarationBody, FieldDeclaration, GenericArgument, PathArguments,
    PathSegment, TypeDeclaration, TypeExpr, TypePath,
};
use proc_macro2::TokenStream;

fn tokens(code: &str) -> String {
    code.parse::<TokenStream>().unwrap().to_string()
}

fn named(name: &str, arguments: PathArguments) -> TypeExpr {
    TypeExpr::Path(TypePath {
        qualifier: None,
        global: false,
        segments: vec![PathSegment { name: name.to_string(), arguments }],
    })
}

fn marked(name: &str, declared_type: TypeExpr, markers: &[&str]) -> FieldDeclaration {
    FieldDeclaration {
        name: name.to_string(),
        declared_type,
        annotations: markers.iter().map(|m| Annotation::Marker(m.to_string())).collect(),
    }
}

#[test]
fn tokens_for_a_generic_record() {
    let declaration = TypeDeclaration {
        name: "P".to_string(),
        generic_parameters: vec!["T".to_string()],
        body: DeclarationBody::NamedRecord(vec![marked(
            "x",
            named("T", PathArguments::Absent),
            &["new", "set"],
        )]),
    };
    let unit = generate(&declaration).unwrap();
    assert_eq!(
        tokens(&unit.text()),
        tokens(
            "impl<T> P<T> { pub fn new(x: T,) -> Self { Self { x, } } \
             pub fn x(mut self, x: T) -> Self { self.x = x; self } }"
        )
    );
}

#[test]
fn tokens_for_the_three_directives() {
    let declaration = TypeDeclaration {
        name: "Item".to_string(),
        generic_parameters: vec![],
        body: DeclarationBody::NamedRecord(vec![
            marked("id", named("i32", PathArguments::Absent), &["new"]),
            marked("label", named("String", PathArguments::Absent), &["set"]),
            marked(
                "tag",
                named(
                    "Option",
                    PathArguments::AngleBracketed(vec![GenericArgument::Type(
                        "String".to_string(),
                    )]),
                ),
                &["set_some"],
            ),
        ]),
    };
    let unit = generate(&declaration).unwrap();
    assert_eq!(
        tokens(&unit.text()),
        tokens(
            "impl Item { pub fn new(id: i32,) -> Self { Self { id, label: Default::default(), \
             tag: Default::default(), } } \
             pub fn label(mut self, label: String) -> Self { self.label = label; self } \
             pub fn tag(mut self, tag: String) -> Self { self.tag = Some(tag); self } }"
        )
    );
}

#[test]
fn the_generated_text_is_a_token_stream() {
    let declaration = TypeDeclaration {
        name: "Empty".to_string(),
        generic_parameters: vec!["'a".to_string(), "T: Clone".to_string()],
        body: DeclarationBody::NamedRecord(vec![]),
    };
    let text = generate(&declaration).unwrap().text();
    assert!(text.parse::<TokenStream>().is_ok());
}
