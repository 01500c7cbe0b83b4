use build_new::{
    generate, Annotation, DeclarationBody, FieldDeclaration, GenericArgument, PathArguments,
    PathSegment, TypeDeclaration, TypeExpr, TypePath,
};

#[derive(Debug, PartialEq)]
struct Item {
    id: u32,
    label: String,
    tag: Option<String>,
}

// The block that is generated for `Item`, as the test below shows.
impl Item {
    pub fn new(id: u32,) -> Self {
        Self {
            id,
            label: Default::default(),
            tag: Default::default(),
        }
    }
    pub fn label(mut self, label: String) -> Self {
        self.label = label;
        self
    }
    pub fn tag(mut self, tag: String) -> Self {
        self.tag = Some(tag);
        self
    }
}

const GENERATED: &str = "\
impl Item {
    pub fn new(id: u32,) -> Self {
        Self {
            id,
            label: Default::default(),
            tag: Default::default(),
        }
    }
    pub fn label(mut self, label: String) -> Self {
        self.label = label;
        self
    }
    pub fn tag(mut self, tag: String) -> Self {
        self.tag = Some(tag);
        self
    }
}
";

fn named(name: &str, arguments: PathArguments) -> TypeExpr {
    TypeExpr::Path(TypePath {
        qualifier: None,
        global: false,
        segments: vec![PathSegment { name: name.to_string(), arguments }],
    })
}

fn marked(name: &str, declared_type: TypeExpr, marker: &str) -> FieldDeclaration {
    FieldDeclaration {
        name: name.to_string(),
        declared_type,
        annotations: vec![Annotation::Marker(marker.to_string())],
    }
}

#[test]
fn the_block_above_is_what_is_generated() {
    let declaration = TypeDeclaration {
        name: "Item".to_string(),
        generic_parameters: vec![],
        body: DeclarationBody::NamedRecord(vec![
            marked("id", named("u32", PathArguments::Absent), "new"),
            marked("label", named("String", PathArguments::Absent), "set"),
            marked(
                "tag",
                named(
                    "Option",
                    PathArguments::AngleBracketed(vec![GenericArgument::Type(
                        "String".to_string(),
                    )]),
                ),
                "set_some",
            ),
        ]),
    };
    assert_eq!(generate(&declaration).unwrap().text(), GENERATED);
}

#[test]
fn the_constructor_defaults_what_is_not_required() {
    assert_eq!(Item::new(7), Item { id: 7, label: String::new(), tag: None });
}

#[test]
fn the_direct_setter_assigns() {
    let item = Item::new(1).label("a".to_string());
    assert_eq!(item, Item { id: 1, label: "a".to_string(), tag: None });
}

#[test]
fn the_optional_setter_wraps() {
    let item = Item::new(1).tag("v".to_string());
    assert_eq!(item.tag, Some("v".to_string()));
}

#[test]
fn the_last_write_wins() {
    let item = Item::new(1).tag("first".to_string()).tag("second".to_string());
    assert_eq!(item.tag, Some("second".to_string()));
    let item = Item::new(1).label("first".to_string()).label("second".to_string());
    assert_eq!(item.label, "second");
}

#[test]
fn setters_chain() {
    let item = Item::new(3).label("l".to_string()).tag("t".to_string());
    assert_eq!(item, Item { id: 3, label: "l".to_string(), tag: Some("t".to_string()) });
}
