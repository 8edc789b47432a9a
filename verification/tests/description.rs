use builder::descriptor::{describe, describe_slot, BuilderDescriptor, SlotDescriptor};
use builder::record::{FieldDescriptor, RecordDefinition, RecordShape, ShapeError};
use builder::type_expr::{GenericArgument, PathArguments, PathSegment, TypeExpr, TypeShape};

fn plain(name: &str) -> TypeExpr {
    TypeExpr {
        text: name.to_string(),
        shape: TypeShape::Path(vec![PathSegment {
            ident: name.to_string(),
            arguments: PathArguments::Bare,
        }]),
    }
}

fn wrapped_in(name: &str, inner: TypeExpr) -> TypeExpr {
    TypeExpr {
        text: format!("{}<{}>", name, inner.text),
        shape: TypeShape::Path(vec![PathSegment {
            ident: name.to_string(),
            arguments: PathArguments::AngleBracketed(vec![GenericArgument::Type(inner)]),
        }]),
    }
}

fn field(name: &str, ty: TypeExpr) -> FieldDescriptor {
    FieldDescriptor { name: name.to_string(), ty }
}

fn command() -> RecordDefinition {
    RecordDefinition {
        name: "Command".to_string(),
        shape: RecordShape::Named(vec![
            field("executable", plain("String")),
            field("args", wrapped_in("Option", wrapped_in("Vec", plain("String")))),
            field("current_dir", wrapped_in("Option", plain("String"))),
        ]),
    }
}

fn slot(name: &str, required: bool, storage_type: &str, value_type: &str) -> SlotDescriptor {
    SlotDescriptor {
        name: name.to_string(),
        required,
        storage_type: storage_type.to_string(),
        value_type: value_type.to_string(),
    }
}

#[test]
fn required_field_gets_a_wrapped_slot() {
    let described = describe_slot(&field("executable", plain("String")));
    assert_eq!(described, slot("executable", true, "Option<String>", "String"));
}

#[test]
fn optional_field_keeps_its_declared_type() {
    let described = describe_slot(&field("args", wrapped_in("Option", wrapped_in("Vec", plain("String")))));
    assert_eq!(described, slot("args", false, "Option<Vec<String>>", "Vec<String>"));
}

#[test]
fn doubly_optional_field_takes_an_optional_value() {
    let ty = wrapped_in("Option", wrapped_in("Option", plain("u8")));
    let described = describe_slot(&field("level", ty));
    assert_eq!(described, slot("level", false, "Option<Option<u8>>", "Option<u8>"));
}

#[test]
fn required_field_of_another_generic_type_is_wrapped_whole() {
    let described = describe_slot(&field("env", wrapped_in("Vec", plain("String"))));
    assert_eq!(described, slot("env", true, "Option<Vec<String>>", "Vec<String>"));
}

#[test]
fn required_field_that_is_no_path_is_wrapped_whole() {
    let ty = TypeExpr { text: "(u8, u8)".to_string(), shape: TypeShape::Other };
    let described = describe_slot(&field("pair", ty));
    assert_eq!(described, slot("pair", true, "Option<(u8, u8)>", "(u8, u8)"));
}

#[test]
fn command_is_described_slot_by_slot() {
    let described = describe(&command()).expect("Command has named fields");
    assert_eq!(
        described,
        BuilderDescriptor {
            record_name: "Command".to_string(),
            builder_name: "CommandBuilder".to_string(),
            slots: vec![
                slot("executable", true, "Option<String>", "String"),
                slot("args", false, "Option<Vec<String>>", "Vec<String>"),
                slot("current_dir", false, "Option<String>", "String"),
            ],
        }
    );
}

#[test]
fn description_fails_as_extraction_does() {
    for (shape, error) in [
        (RecordShape::Named(vec![]), ShapeError::NoFields),
        (RecordShape::Unit, ShapeError::NoFields),
        (RecordShape::Positional, ShapeError::PositionalFields),
        (RecordShape::Enum, ShapeError::SumType),
        (RecordShape::Union, ShapeError::SumType),
    ] {
        let def = RecordDefinition { name: "Shape".to_string(), shape };
        assert_eq!(describe(&def), Err(error));
    }
}
