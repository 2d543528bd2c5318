use builder::decl::{DeclBody, Declaration, FieldDescriptor};
use builder::diag::DiagnosticKind;
use builder::extract::parse;

fn field(name: &str, ty: &str) -> FieldDescriptor {
    FieldDescriptor { name: name.to_owned(), ty: ty.to_owned() }
}

#[test]
fn named_record_passes_through() {
    let decl = Declaration {
        name: "Command".to_owned(),
        vis: "pub".to_owned(),
        body: DeclBody::NamedRecord(vec![
            field("executable", "String"),
            field("args", "Vec<String>"),
            field("current_dir", "String"),
        ]),
    };
    let shape = parse(decl).unwrap();
    assert_eq!(shape.name, "Command");
    assert_eq!(shape.vis, "pub");
    assert_eq!(shape.fields.len(), 3);
    assert_eq!(shape.fields[0].name, "executable");
    assert_eq!(shape.fields[0].ty, "String");
    assert_eq!(shape.fields[1].name, "args");
    assert_eq!(shape.fields[1].ty, "Vec<String>");
    assert_eq!(shape.fields[2].name, "current_dir");
    assert_eq!(shape.fields[2].ty, "String");
}

#[test]
fn empty_field_list_is_a_valid_record() {
    let decl = Declaration {
        name: "Unit".to_owned(),
        vis: "".to_owned(),
        body: DeclBody::NamedRecord(vec![]),
    };
    let shape = parse(decl).unwrap();
    assert_eq!(shape.name, "Unit");
    assert_eq!(shape.fields.len(), 0);
}

#[test]
fn non_record_is_rejected_as_unsupported_shape() {
    let decl = Declaration {
        name: "Choice".to_owned(),
        vis: "pub".to_owned(),
        body: DeclBody::NonRecord,
    };
    let diagnostic = parse(decl).unwrap_err();
    assert_eq!(diagnostic.kind, DiagnosticKind::UnsupportedShape);
    assert_eq!(diagnostic.message, "Only struct type is allowed");
    assert_eq!(diagnostic.anchor, "Choice");
}

#[test]
fn unnamed_fields_are_rejected_as_unsupported_fields() {
    let decl = Declaration {
        name: "Pair".to_owned(),
        vis: "".to_owned(),
        body: DeclBody::OtherFields,
    };
    let diagnostic = parse(decl).unwrap_err();
    assert_eq!(diagnostic.kind, DiagnosticKind::UnsupportedFields);
    assert_eq!(diagnostic.message, "Only named fields are allowed");
    assert_eq!(diagnostic.anchor, "Pair");
}
