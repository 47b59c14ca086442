use swift_bridge_ir::errors::{ParseError, ParseErrors};
use swift_bridge_ir::parse::{parse_batch, resolve_declaration, SharedStructParser, StructAttr};
use swift_bridge_ir::{AttrPair, Declaration, FieldsFormat, SharedStruct, StructField,
    StructSwiftRepr};

fn attr(key: &str, value: &str) -> AttrPair {
    AttrPair { key: key.to_string(), value: value.to_string() }
}

fn named_field(name: &str, ty: &str) -> StructField {
    StructField { name: Some(name.to_string()), ty: ty.to_string() }
}

fn unit_struct(name: &str, attrs: Vec<AttrPair>) -> Declaration {
    Declaration {
        name: name.to_string(),
        fields_format: FieldsFormat::Unit,
        fields: vec![],
        attrs,
    }
}

fn named_struct(name: &str, fields: Vec<StructField>, attrs: Vec<AttrPair>) -> Declaration {
    Declaration { name: name.to_string(), fields_format: FieldsFormat::Named, fields, attrs }
}

fn parse_one(declaration: Declaration, errors: &mut ParseErrors) -> SharedStruct {
    let parser = SharedStructParser { item_struct: declaration };
    parser.parse(errors)
}

/// Verify that we can parse a struct with no fields.
/// Structs with no fields always have an implicit `swift_repr = "struct"`.
#[test]
fn parse_unit_struct() {
    let declarations = vec![
        unit_struct("Foo", vec![]),
        unit_struct("Bar", vec![]),
        unit_struct("Bazz", vec![]),
    ];

    let mut errors = ParseErrors::new();
    let resolved = parse_batch(&declarations, &mut errors);

    assert_eq!(resolved.len(), 3);
    assert_eq!(errors.len(), 0);
    for (idx, name) in vec!["Foo", "Bar", "Bazz"].into_iter().enumerate() {
        let ty = &resolved[idx];

        assert_eq!(ty.name, name);
        assert_eq!(ty.swift_repr, StructSwiftRepr::Structure);
    }
}

/// Verify that we get an error if a Struct has one or more fields and no `swift_repr`
/// attribute.
#[test]
fn error_if_missing_swift_repr() {
    let declaration = named_struct("Foo", vec![named_field("bar", "u8")], vec![]);

    let mut errors = ParseErrors::new();
    let _ = parse_one(declaration, &mut errors);
    assert_eq!(errors.len(), 1);

    match errors.get(0) {
        ParseError::StructMissingSwiftRepr { struct_ident } => {
            assert_eq!(struct_ident, "Foo");
        }
        _ => panic!(),
    };
}

/// Verify that we push an error if the Swift representation attribute is invalid.
#[test]
fn error_if_invalid_swift_repr() {
    let declaration = named_struct(
        "Foo",
        vec![named_field("bar", "u8")],
        vec![attr("swift_repr", "an-invalid-value")],
    );

    let mut errors = ParseErrors::new();
    let _ = parse_one(declaration, &mut errors);
    assert_eq!(errors.len(), 1);

    match errors.get(0) {
        ParseError::StructInvalidSwiftRepr { struct_ident, swift_repr_attr_value } => {
            assert_eq!(struct_ident, "Foo");
            assert_eq!(swift_repr_attr_value, "an-invalid-value");
        }
        _ => panic!(),
    };
}

/// Verify that we push an error if a struct with no fields has it's swift_repr set to "class",
/// since there is no advantage to bearing that extra overhead.
#[test]
fn error_if_empty_struct_swift_repr_set_to_class() {
    let declarations = vec![
        unit_struct("Foo", vec![attr("swift_repr", "class")]),
        unit_struct("Bar", vec![attr("swift_repr", "class")]),
        unit_struct("Buzz", vec![attr("swift_repr", "class")]),
    ];

    let mut errors = ParseErrors::new();
    let _ = parse_batch(&declarations, &mut errors);
    assert_eq!(errors.len(), 3);

    for (idx, struct_name) in vec!["Foo", "Bar", "Buzz"].into_iter().enumerate() {
        match errors.get(idx) {
            ParseError::EmptyStructHasSwiftReprClass { struct_ident, swift_repr_attr_value } => {
                assert_eq!(struct_ident, struct_name);
                assert_eq!(swift_repr_attr_value, "class");
            }
            _ => panic!(),
        };
    }
}

/// Verify that we can parse a struct with a named field.
#[test]
fn parse_struct_with_named_u8_field() {
    let declaration = named_struct(
        "Foo",
        vec![named_field("bar", "u8")],
        vec![attr("swift_repr", "struct")],
    );

    let mut errors = ParseErrors::new();
    let ty = parse_one(declaration, &mut errors);
    assert_eq!(errors.len(), 0);

    let field = &ty.fields[0];
    assert_eq!(field.name.as_ref().unwrap(), "bar");
    assert_eq!(field.ty, "u8");
}

/// Verify that we parse the swift_name = "..."
#[test]
fn parse_swift_name_attribute() {
    let declaration = unit_struct("Foo", vec![attr("swift_name", "FfiFoo")]);

    let mut errors = ParseErrors::new();
    let ty = parse_one(declaration, &mut errors);
    assert_eq!(errors.len(), 0);

    assert_eq!(ty.swift_name.as_ref().unwrap(), "FfiFoo");
}

/// An explicit, valid representation on a struct with fields is used verbatim
/// and produces no diagnostic.
#[test]
fn explicit_class_repr_is_used() {
    let declaration = named_struct(
        "Foo",
        vec![named_field("bar", "u8")],
        vec![attr("swift_repr", "class")],
    );

    let mut errors = ParseErrors::new();
    let ty = parse_one(declaration, &mut errors);

    assert_eq!(errors.len(), 0);
    assert_eq!(ty.swift_repr, StructSwiftRepr::Class);
}

/// An annotation key outside the recognized set is collected as a diagnostic
/// and does not abort resolution.
#[test]
fn error_if_unknown_attribute_key() {
    let declaration = unit_struct("Foo", vec![attr("swfit_repr", "class")]);

    let mut errors = ParseErrors::new();
    let ty = parse_one(declaration, &mut errors);

    assert_eq!(errors.len(), 1);
    match errors.get(0) {
        ParseError::StructUnknownAttr { struct_ident, attr_key } => {
            assert_eq!(struct_ident, "Foo");
            assert_eq!(attr_key, "swfit_repr");
        }
        _ => panic!(),
    };
    assert_eq!(ty.swift_repr, StructSwiftRepr::Structure);
}

/// An invalid representation literal on an empty struct produces only the
/// invalid-representation diagnostic, not the empty-requests-class one.
#[test]
fn invalid_repr_on_empty_struct() {
    let declaration = unit_struct("Foo", vec![attr("swift_repr", "reference")]);

    let mut errors = ParseErrors::new();
    let ty = parse_one(declaration, &mut errors);

    assert_eq!(errors.len(), 1);
    match errors.get(0) {
        ParseError::StructInvalidSwiftRepr { struct_ident, swift_repr_attr_value } => {
            assert_eq!(struct_ident, "Foo");
            assert_eq!(swift_repr_attr_value, "reference");
        }
        _ => panic!(),
    };
    assert_eq!(ty.swift_repr, StructSwiftRepr::Structure);
}

/// When an annotation repeats a recognized key, the last write wins.
#[test]
fn last_write_wins_for_repeated_keys() {
    let declaration = named_struct(
        "Foo",
        vec![named_field("bar", "u8")],
        vec![
            attr("swift_repr", "class"),
            attr("swift_name", "First"),
            attr("swift_repr", "struct"),
            attr("swift_name", "Second"),
        ],
    );

    let mut errors = ParseErrors::new();
    let ty = parse_one(declaration, &mut errors);

    assert_eq!(errors.len(), 0);
    assert_eq!(ty.swift_repr, StructSwiftRepr::Structure);
    assert_eq!(ty.swift_name.as_ref().unwrap(), "Second");
}

/// Fields are copied in order, one-to-one, with names and type renderings
/// kept verbatim; the fields shape tag is carried over unchanged.
#[test]
fn fields_are_copied_in_order() {
    let declaration = Declaration {
        name: "Foo".to_string(),
        fields_format: FieldsFormat::Unnamed,
        fields: vec![
            StructField { name: None, ty: "u8".to_string() },
            StructField { name: None, ty: "Vec < u16 >".to_string() },
            StructField { name: None, ty: "String".to_string() },
        ],
        attrs: vec![attr("swift_repr", "struct")],
    };

    let mut errors = ParseErrors::new();
    let ty = parse_one(declaration, &mut errors);

    assert_eq!(errors.len(), 0);
    assert_eq!(ty.fields_format, FieldsFormat::Unnamed);
    assert_eq!(ty.fields.len(), 3);
    assert_eq!(ty.fields[0].ty, "u8");
    assert_eq!(ty.fields[1].ty, "Vec < u16 >");
    assert_eq!(ty.fields[2].ty, "String");
    assert!(ty.fields.iter().all(|f| f.name.is_none()));
}

/// Resolving the same declaration twice, against a collector that already
/// grew, yields an identical IR node and identical diagnostics.
#[test]
fn resolving_twice_is_identical() {
    let declaration = named_struct(
        "Foo",
        vec![named_field("bar", "u8")],
        vec![attr("swift_repr", "an-invalid-value"), attr("swift_name", "FfiFoo")],
    );

    let mut errors = ParseErrors::new();
    let first = resolve_declaration(&declaration, &mut errors);
    let second = resolve_declaration(&declaration, &mut errors);

    assert_eq!(first, second);
    assert_eq!(errors.len(), 2);
    assert_eq!(errors.get(0), errors.get(1));
}

/// The annotation parser classifies a single pair exactly, in isolation.
#[test]
fn attr_parser_classifies_pairs() {
    let class_repr = StructAttr::parse(&"swift_repr".to_string(), &"class".to_string());
    assert_eq!(
        class_repr,
        StructAttr::SwiftRepr(StructSwiftRepr::Class, "class".to_string())
    );

    let struct_repr = StructAttr::parse(&"swift_repr".to_string(), &"struct".to_string());
    assert_eq!(
        struct_repr,
        StructAttr::SwiftRepr(StructSwiftRepr::Structure, "struct".to_string())
    );

    let name = StructAttr::parse(&"swift_name".to_string(), &"FfiFoo".to_string());
    assert_eq!(name, StructAttr::SwiftName("FfiFoo".to_string()));

    let trimmed = StructAttr::parse(&"swift_repr".to_string(), &" class".to_string());
    assert!(matches!(trimmed, StructAttr::Error(_)));

    let cased = StructAttr::parse(&"swift_repr".to_string(), &"Class".to_string());
    assert!(matches!(cased, StructAttr::Error(_)));
}

/// A batch keeps going past diagnostics: every declaration resolves, and
/// diagnostics arrive grouped in declaration order.
#[test]
fn batch_collects_across_declarations() {
    let declarations = vec![
        named_struct("First", vec![named_field("a", "u8")], vec![]),
        unit_struct("Second", vec![]),
        named_struct(
            "Third",
            vec![named_field("b", "u16")],
            vec![attr("swift_repr", "bogus")],
        ),
    ];

    let mut errors = ParseErrors::new();
    let resolved = parse_batch(&declarations, &mut errors);

    assert_eq!(resolved.len(), 3);
    assert_eq!(resolved[0].name, "First");
    assert_eq!(resolved[1].name, "Second");
    assert_eq!(resolved[2].name, "Third");

    assert_eq!(errors.len(), 2);
    match errors.get(0) {
        ParseError::StructMissingSwiftRepr { struct_ident } => {
            assert_eq!(struct_ident, "First");
        }
        _ => panic!(),
    };
    match errors.get(1) {
        ParseError::StructInvalidSwiftRepr { struct_ident, swift_repr_attr_value } => {
            assert_eq!(struct_ident, "Third");
            assert_eq!(swift_repr_attr_value, "bogus");
        }
        _ => panic!(),
    };
}
