use builder::decl::{DeclBody, Declaration, FieldDescriptor};
use builder::diag::DiagnosticKind;
use builder::generate;

fn field(name: &str, ty: &str) -> FieldDescriptor {
    FieldDescriptor { name: name.to_owned(), ty: ty.to_owned() }
}

fn two_field_decl() -> Declaration {
    Declaration {
        name: "Command".to_owned(),
        vis: "pub".to_owned(),
        body: DeclBody::NamedRecord(vec![field("executable", "String"), field("args", "Vec<String>")]),
    }
}

#[test]
fn builder_type_mirrors_the_origin_fields() {
    let unit = generate(two_field_decl()).unwrap();
    assert_eq!(unit.builder_type.name, "CommandBuilder");
    assert_eq!(unit.builder_type.vis, "pub");
    assert_eq!(unit.builder_type.fields.len(), 2);
    assert_eq!(unit.builder_type.fields[0].name, "executable");
    assert_eq!(unit.builder_type.fields[0].ty, "String");
    assert_eq!(unit.builder_type.fields[1].name, "args");
    assert_eq!(unit.builder_type.fields[1].ty, "Vec<String>");
}

#[test]
fn one_setter_per_field_in_order() {
    let unit = generate(two_field_decl()).unwrap();
    assert_eq!(unit.setters.len(), 2);
    assert_eq!(unit.setters[0].field, "executable");
    assert_eq!(unit.setters[0].ty, "String");
    assert_eq!(unit.setters[1].field, "args");
    assert_eq!(unit.setters[1].ty, "Vec<String>");
}

#[test]
fn finalizer_checks_every_field_with_its_message() {
    let unit = generate(two_field_decl()).unwrap();
    assert_eq!(unit.finalizer.origin, "Command");
    assert_eq!(unit.finalizer.checks.len(), 2);
    assert_eq!(unit.finalizer.checks[0].field, "executable");
    assert_eq!(unit.finalizer.checks[0].message, "executable is required.");
    assert_eq!(unit.finalizer.checks[1].field, "args");
    assert_eq!(unit.finalizer.checks[1].message, "args is required.");
    assert_eq!(unit.finalizer.inits.len(), 2);
    assert_eq!(unit.finalizer.inits[0].field, "executable");
    assert_eq!(unit.finalizer.inits[1].field, "args");
}

#[test]
fn factory_lists_every_field_empty() {
    let unit = generate(two_field_decl()).unwrap();
    assert_eq!(unit.factory.origin, "Command");
    assert_eq!(unit.factory.builder_name, "CommandBuilder");
    assert_eq!(unit.factory.empty_fields, vec!["executable".to_owned(), "args".to_owned()]);
}

#[test]
fn zero_field_record_generates_an_empty_builder() {
    let decl = Declaration {
        name: "Marker".to_owned(),
        vis: "".to_owned(),
        body: DeclBody::NamedRecord(vec![]),
    };
    let unit = generate(decl).unwrap();
    assert_eq!(unit.builder_type.name, "MarkerBuilder");
    assert_eq!(unit.builder_type.vis, "");
    assert_eq!(unit.builder_type.fields.len(), 0);
    assert_eq!(unit.setters.len(), 0);
    assert_eq!(unit.finalizer.checks.len(), 0);
    assert_eq!(unit.finalizer.inits.len(), 0);
    assert_eq!(unit.factory.empty_fields.len(), 0);
}

#[test]
fn non_record_generates_nothing() {
    let decl = Declaration {
        name: "Choice".to_owned(),
        vis: "pub".to_owned(),
        body: DeclBody::NonRecord,
    };
    let diagnostic = generate(decl).unwrap_err();
    assert_eq!(diagnostic.kind, DiagnosticKind::UnsupportedShape);
    assert_eq!(diagnostic.message, "Only struct type is allowed");
    assert_eq!(diagnostic.anchor, "Choice");
}

#[test]
fn unnamed_fields_generate_nothing() {
    let decl = Declaration {
        name: "Pair".to_owned(),
        vis: "".to_owned(),
        body: DeclBody::OtherFields,
    };
    let diagnostic = generate(decl).unwrap_err();
    assert_eq!(diagnostic.kind, DiagnosticKind::UnsupportedFields);
    assert_eq!(diagnostic.message, "Only named fields are allowed");
    assert_eq!(diagnostic.anchor, "Pair");
}
