use builder::classify::get_option_inner_type;
use builder::record::{FieldDescriptor, RecordDefinition, RecordShape, ShapeError};
use builder::type_expr::{GenericArgument, PathArguments, PathSegment, TypeExpr, TypeShape};
use quote::ToTokens;

fn type_expr(ty: &syn::Type) -> TypeExpr {
    let shape = match ty {
        syn::Type::Path(path) => TypeShape::Path(path.path.segments.iter().map(segment).collect()),
        _ => TypeShape::Other,
    };
    TypeExpr { text: ty.to_token_stream().to_string(), shape }
}

fn segment(segment: &syn::PathSegment) -> PathSegment {
    let arguments = match &segment.arguments {
        syn::PathArguments::None => PathArguments::Bare,
        syn::PathArguments::AngleBracketed(list) => {
            PathArguments::AngleBracketed(list.args.iter().map(argument).collect())
        }
        syn::PathArguments::Parenthesized(_) => PathArguments::Parenthesized,
    };
    PathSegment { ident: segment.ident.to_string(), arguments }
}

fn argument(argument: &syn::GenericArgument) -> GenericArgument {
    match argument {
        syn::GenericArgument::Type(ty) => GenericArgument::Type(type_expr(ty)),
        syn::GenericArgument::Lifetime(_) => GenericArgument::Lifetime,
        syn::GenericArgument::Const(_) => GenericArgument::Const,
        _ => GenericArgument::Other,
    }
}

fn definition(source: &str) -> RecordDefinition {
    let input: syn::DeriveInput = syn::parse_str(source).expect("the source is one item");
    let shape = match &input.data {
        syn::Data::Struct(data) => match &data.fields {
            syn::Fields::Named(fields) => RecordShape::Named(
                fields
                    .named
                    .iter()
                    .map(|field| FieldDescriptor {
                        name: field.ident.as_ref().expect("a named field").to_string(),
                        ty: type_expr(&field.ty),
                    })
                    .collect(),
            ),
            syn::Fields::Unnamed(_) => RecordShape::Positional,
            syn::Fields::Unit => RecordShape::Unit,
        },
        syn::Data::Enum(_) => RecordShape::Enum,
        syn::Data::Union(_) => RecordShape::Union,
    };
    RecordDefinition { name: input.ident.to_string(), shape }
}

fn parsed_type(source: &str) -> TypeExpr {
    match syn::parse_str::<syn::Type>(source) {
        Ok(ty) => type_expr(&ty),
        Err(error) => panic!("{} is no type: {}", source, error),
    }
}

fn tokens_of(source: &str) -> String {
    syn::parse_str::<syn::Type>(source).expect("the source is a type").to_token_stream().to_string()
}

fn is_optional(source: &str) -> bool {
    get_option_inner_type(&parsed_type(source)).is_some()
}

const COMMAND: &str = "pub struct Command {
    executable: String,
    args: Option<Vec<String>>,
    current_dir: Option<String>,
}";

#[test]
fn parsed_types_classify_by_how_they_are_written() {
    assert!(is_optional("Option<String>"));
    assert!(is_optional("Option<Vec<String>>"));
    assert!(is_optional("Option<&'static str>"));
    assert!(is_optional("Option<(u8, u8)>"));
    assert!(is_optional("::Option<u8>"));

    assert!(!is_optional("String"));
    assert!(!is_optional("Vec<String>"));
    assert!(!is_optional("Option"));
    assert!(!is_optional("std::option::Option<String>"));
    assert!(!is_optional("option::Option<String>"));
    assert!(!is_optional("Option<'a>"));
    assert!(!is_optional("Option<u8, u8>"));
    assert!(!is_optional("Option<Item = u8>"));
    assert!(!is_optional("Option<{ 1 + 2 }>"));
    assert!(!is_optional("&Option<u8>"));
    assert!(!is_optional("(Option<u8>)"));
    assert!(!is_optional("(Option<u8>,)"));
    assert!(!is_optional("[Option<u8>; 2]"));
    assert!(!is_optional("Maybe<u8>"));
}

#[test]
fn parsed_nested_option_is_unwrapped_once() {
    let ty = parsed_type("Option<Option<u8>>");
    let inner = get_option_inner_type(&ty).expect("Option<Option<u8>> is optional");
    assert_eq!(inner.text, tokens_of("Option<u8>"));
    assert_ne!(inner.text, tokens_of("u8"));
    let innermost = get_option_inner_type(inner).expect("Option<u8> is optional");
    assert_eq!(innermost.text, tokens_of("u8"));
    assert_eq!(get_option_inner_type(innermost), None);
}

#[test]
fn parsed_shapes_other_than_named_structs_are_refused() {
    for (source, error) in [
        ("enum E { A, B }", ShapeError::SumType),
        ("enum E { A { x: u8 } }", ShapeError::SumType),
        ("union U { a: u8, b: u16 }", ShapeError::SumType),
        ("struct P(u8, u8);", ShapeError::PositionalFields),
        ("struct P();", ShapeError::PositionalFields),
        ("struct M;", ShapeError::NoFields),
        ("struct M {}", ShapeError::NoFields),
    ] {
        assert_eq!(builder::derive(&definition(source)).map(|_| ()), Err(error), "{}", source);
    }
}

#[test]
fn generated_code_for_command_is_four_items() {
    let bundle = builder::derive(&definition(COMMAND)).expect("Command has named fields");
    let file = syn::parse_str::<syn::File>(&bundle.source()).expect("the bundle is Rust source");
    assert_eq!(file.items.len(), 4);
    assert!(matches!(file.items[0], syn::Item::Struct(_)));
    assert!(matches!(file.items[1], syn::Item::Impl(_)));
    assert!(matches!(file.items[2], syn::Item::Impl(_)));
    assert!(matches!(file.items[3], syn::Item::Impl(_)));

    assert!(syn::parse_str::<syn::ItemStruct>(&bundle.storage).is_ok());
    assert!(syn::parse_str::<syn::ItemImpl>(&bundle.setters).is_ok());
    assert!(syn::parse_str::<syn::ItemImpl>(&bundle.factory).is_ok());
    assert!(syn::parse_str::<syn::ItemImpl>(&bundle.assembly).is_ok());
}

#[test]
fn generated_storage_wraps_required_fields_only() {
    let bundle = builder::derive(&definition(COMMAND)).expect("Command has named fields");
    let storage = syn::parse_str::<syn::ItemStruct>(&bundle.storage).expect("a struct");
    assert_eq!(storage.ident.to_string(), "CommandBuilder");
    let slots: Vec<(String, String)> = storage
        .fields
        .iter()
        .map(|f| (f.ident.as_ref().unwrap().to_string(), f.ty.to_token_stream().to_string()))
        .collect();
    assert_eq!(
        slots,
        vec![
            ("executable".to_string(), tokens_of("Option<String>")),
            ("args".to_string(), tokens_of("Option<Vec<String>>")),
            ("current_dir".to_string(), tokens_of("Option<String>")),
        ]
    );
}

fn methods(block: &syn::ItemImpl) -> Vec<&syn::ImplItemFn> {
    block
        .items
        .iter()
        .map(|item| match item {
            syn::ImplItem::Fn(method) => method,
            _ => panic!("only methods are generated"),
        })
        .collect()
}

#[test]
fn generated_setters_take_bare_values_in_declaration_order() {
    let bundle = builder::derive(&definition(COMMAND)).expect("Command has named fields");
    let setters = syn::parse_str::<syn::ItemImpl>(&bundle.setters).expect("an impl block");
    assert_eq!(setters.self_ty.to_token_stream().to_string(), "CommandBuilder");
    let signatures: Vec<(String, String)> = methods(&setters)
        .iter()
        .map(|method| {
            assert_eq!(method.sig.inputs.len(), 2);
            let value = match &method.sig.inputs[1] {
                syn::FnArg::Typed(value) => value.ty.to_token_stream().to_string(),
                syn::FnArg::Receiver(_) => panic!("the second parameter is the value"),
            };
            (method.sig.ident.to_string(), value)
        })
        .collect();
    assert_eq!(
        signatures,
        vec![
            ("executable".to_string(), tokens_of("String")),
            ("args".to_string(), tokens_of("Vec<String>")),
            ("current_dir".to_string(), tokens_of("String")),
        ]
    );
}

#[test]
fn generated_factory_and_assembly_have_their_names() {
    let bundle = builder::derive(&definition(COMMAND)).expect("Command has named fields");
    let factory = syn::parse_str::<syn::ItemImpl>(&bundle.factory).expect("an impl block");
    assert_eq!(factory.self_ty.to_token_stream().to_string(), "Command");
    let names: Vec<String> = methods(&factory).iter().map(|m| m.sig.ident.to_string()).collect();
    assert_eq!(names, vec!["builder"]);

    let assembly = syn::parse_str::<syn::ItemImpl>(&bundle.assembly).expect("an impl block");
    assert_eq!(assembly.self_ty.to_token_stream().to_string(), "CommandBuilder");
    let names: Vec<String> = methods(&assembly).iter().map(|m| m.sig.ident.to_string()).collect();
    assert_eq!(names, vec!["build"]);
}

#[test]
fn generated_code_parses_for_types_of_every_form() {
    let source = "struct Mixed<'a> {
        name: &'a str,
        pair: (u8, Option<u8>),
        table: std::collections::HashMap<String, Vec<u8>>,
        hook: Option<Box<dyn Fn(u8) -> u8>>,
        grid: [[u8; 4]; 4],
        deep: Option<Option<std::option::Option<u8>>>,
        r#type: Option<u8>,
    }";
    let bundle = builder::derive(&definition(source)).expect("Mixed has named fields");
    let storage = syn::parse_str::<syn::ItemStruct>(&bundle.storage).expect("a struct");
    let slots: Vec<String> =
        storage.fields.iter().map(|f| f.ty.to_token_stream().to_string()).collect();
    assert_eq!(
        slots,
        vec![
            tokens_of("Option<&'a str>"),
            tokens_of("Option<(u8, Option<u8>)>"),
            tokens_of("Option<std::collections::HashMap<String, Vec<u8>>>"),
            tokens_of("Option<Box<dyn Fn(u8) -> u8>>"),
            tokens_of("Option<[[u8; 4]; 4]>"),
            tokens_of("Option<Option<std::option::Option<u8>>>"),
            tokens_of("Option<u8>"),
        ]
    );
    assert!(syn::parse_str::<syn::File>(&bundle.source()).is_ok());
}
