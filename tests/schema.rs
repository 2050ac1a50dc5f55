use twors::field_validator::{check_component, find_field, renderable, transform};
use twors::schema::{
    parse_fields, Attr, AttrDesc, Field, FieldDecl, FieldRole, GenericArgument, PathArguments,
    SchemaError, Segment, TypeDesc,
};
use twors::text::text_eq;

fn path(name: &str) -> TypeDesc {
    TypeDesc::Path(vec![Segment { ident: name.to_string(), arguments: PathArguments::Bare }])
}

fn vec_of(inner: TypeDesc) -> TypeDesc {
    TypeDesc::Path(vec![Segment {
        ident: "Vec".to_string(),
        arguments: PathArguments::AngleBracketed(vec![GenericArgument::Type(inner)]),
    }])
}

fn mark(name: &str) -> AttrDesc {
    AttrDesc::Path(vec![name.to_string()])
}

fn field(name: &str, ty: TypeDesc, attrs: Vec<AttrDesc>) -> FieldDecl {
    FieldDecl { name: name.to_string(), ty, attrs }
}

fn component_fields() -> Vec<FieldDecl> {
    vec![
        field("player", path("Player"), vec![mark("child")]),
        field("bombs", vec_of(path("Bomb")), vec![mark("children")]),
        field("transform", path("Transform"), vec![]),
        field("renderables", vec_of(path("Renderable")), vec![]),
    ]
}

#[test]
fn attr_names() {
    assert_eq!(Attr::from_name("child"), Ok(Attr::Child));
    assert_eq!(Attr::from_name("children"), Ok(Attr::Children));
    assert_eq!(
        Attr::from_name("kid"),
        Err("Invalid ChildComponentAttr value \"kid\"".to_string())
    );
}

#[test]
fn marked_fields_in_order() {
    let fields = component_fields();
    assert_eq!(
        parse_fields(&fields),
        Ok(vec![Field { field: 0, attr: Attr::Child }, Field { field: 1, attr: Attr::Children }])
    );
    assert_eq!(check_component(&fields), parse_fields(&fields));
}

#[test]
fn bad_marks() {
    let mut fields = component_fields();
    fields[1].attrs.push(mark("child"));
    assert_eq!(parse_fields(&fields), Err(SchemaError::ExpectedSingleAttribute(1)));
    let mut fields = component_fields();
    fields[0].attrs = vec![AttrDesc::Other];
    fields[1].attrs = vec![mark("kid")];
    assert_eq!(parse_fields(&fields), Err(SchemaError::UnsupportedAttribute(0)));
    let mut fields = component_fields();
    fields[0].attrs = vec![AttrDesc::Path(vec!["twors".to_string(), "child".to_string()])];
    assert_eq!(parse_fields(&fields), Err(SchemaError::UnsupportedAttribute(0)));
}

#[test]
fn transform_field_rules() {
    let fields = component_fields();
    assert_eq!(transform::validate(&fields), Ok(()));
    let mut fields = component_fields();
    fields[2].ty = TypeDesc::Other;
    assert_eq!(transform::validate(&fields), Err(SchemaError::WrongType(FieldRole::Transform, 2)));
    let mut fields = component_fields();
    fields.remove(2);
    assert_eq!(transform::validate(&fields), Err(SchemaError::MissingField(FieldRole::Transform)));
    assert_eq!(
        check_component(&fields).unwrap_err().message(),
        "a component should have a \"transform: Transform\" field"
    );
}

#[test]
fn renderables_field_rules() {
    let fields = component_fields();
    assert_eq!(renderable::validate(&fields), Ok(()));
    let mut fields = component_fields();
    fields[3].ty = vec_of(path("Shape"));
    assert_eq!(
        renderable::validate(&fields),
        Err(SchemaError::WrongType(FieldRole::Renderables, 3))
    );
    fields[3].ty = path("Renderable");
    assert_eq!(
        renderable::validate(&fields),
        Err(SchemaError::WrongType(FieldRole::Renderables, 3))
    );
    fields.remove(3);
    assert_eq!(
        renderable::validate(&fields),
        Err(SchemaError::MissingField(FieldRole::Renderables))
    );
}

#[test]
fn first_field_of_a_name_counts() {
    let fields = vec![
        field("a", path("A"), vec![]),
        field("transform", path("Transform"), vec![]),
        field("transform", path("Other"), vec![]),
    ];
    assert_eq!(find_field(&fields, "transform"), Some(1));
    assert_eq!(find_field(&fields, "renderables"), None);
    assert_eq!(transform::validate(&fields), Ok(()));
}

#[test]
fn text_comparison() {
    assert!(text_eq("Transform", "Transform"));
    assert!(!text_eq("Transform", "Transforms"));
    assert!(!text_eq("é", "e"));
    assert!(text_eq("", ""));
}
