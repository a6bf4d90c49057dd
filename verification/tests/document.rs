use graphql_resolver::config::{
    ArgumentMapping, FieldType, GraphQLConfig, ResolverConfig, TypeConfig,
};
use graphql_resolver::document::{
    ArgumentDeclaration, BaseType, Constant, Definition, Directive, FieldDeclaration,
    NumberLiteral, SchemaDefinition, SchemaDocument, TypeDeclaration, TypeKind, TypeNotation,
};
use graphql_resolver::json::{JsonNumber, JsonValue};
use graphql_resolver::parser::{
    build_config_from_document, build_config_from_outcome, convert_type, extract_resolver, infer_root_types,
    process_schema_definition, process_type_definition, ParseError,
};
use graphql_resolver::reader::read_schema;
use graphql_resolver::tables::{ArgumentMappings, TypeTable};
use graphql_resolver::text::join;

fn named(name: &str, nullable: bool) -> TypeNotation {
    TypeNotation { base: BaseType::Named(name.to_string()), nullable }
}

fn list(item: TypeNotation, nullable: bool) -> TypeNotation {
    TypeNotation { base: BaseType::List(Box::new(item)), nullable }
}

fn field(name: &str, ty: TypeNotation, directives: Vec<Directive>) -> FieldDeclaration {
    FieldDeclaration { name: name.to_string(), arguments: vec![], ty, directives }
}

fn directive(name: &str, arguments: Vec<(&str, &str)>) -> Directive {
    Directive {
        name: name.to_string(),
        arguments: arguments
            .into_iter()
            .map(|(key, value)| (key.to_string(), Constant::String(value.to_string())))
            .collect(),
    }
}

fn object(name: &str, fields: Vec<FieldDeclaration>) -> Definition {
    Definition::Type(TypeDeclaration { name: name.to_string(), kind: TypeKind::Object(fields) })
}

#[test]
fn test_convert_type_wraps_non_null_outside_list() {
    let written = list(named("User", false), false);
    assert_eq!(
        format!("{:?}", convert_type(&written)),
        format!(
            "{:?}",
            FieldType::NonNull(Box::new(FieldType::List(Box::new(FieldType::NonNull(Box::new(
                FieldType::Named("User".to_string())
            ))))))
        )
    );
    let nullable = list(named("Int", true), true);
    assert_eq!(
        format!("{:?}", convert_type(&nullable)),
        format!("{:?}", FieldType::List(Box::new(FieldType::Named("Int".to_string()))))
    );
}

#[test]
fn test_build_config_from_hand_written_document() {
    let document = SchemaDocument {
        definitions: vec![
            Definition::Directive,
            object(
                "Query",
                vec![FieldDeclaration {
                    name: "users".to_string(),
                    arguments: vec![ArgumentDeclaration {
                        name: "limit".to_string(),
                        ty: named("Int", true),
                        default_value: Some(Constant::Number(NumberLiteral {
                            as_i64: Some(10),
                            as_u64: Some(10),
                            as_f64_bits: Some(10f64.to_bits()),
                        })),
                    }],
                    ty: list(named("User", false), false),
                    directives: vec![],
                }],
            ),
            object(
                "User",
                vec![field(
                    "posts",
                    list(named("Post", false), false),
                    vec![
                        directive("batchKey", vec![("field", "id")]),
                        directive("resolver", vec![("name", "getPosts")]),
                    ],
                )],
            ),
            Definition::Type(TypeDeclaration { name: "Status".to_string(), kind: TypeKind::Enum }),
            Definition::Type(TypeDeclaration {
                name: "__Secret".to_string(),
                kind: TypeKind::Object(vec![]),
            }),
            Definition::Type(TypeDeclaration {
                name: "Node".to_string(),
                kind: TypeKind::Interface(vec![field("id", named("ID", false), vec![])]),
            }),
        ],
    };

    let config = build_config_from_document(document).ok().unwrap();
    assert_eq!(config.query_type.as_deref(), Some("Query"));
    assert_eq!(config.mutation_type, None);
    let mut names = config.types.names();
    names.sort();
    assert_eq!(names, vec!["Node", "Query", "User"]);
    let users = &config.types.get("Query").unwrap().fields[0];
    assert_eq!(users.arguments[0].default_value, Some(JsonValue::Number(JsonNumber::Int(10))));
    assert!(users.field_type.is_list());
    match &config.types.get("User").unwrap().fields[0].resolver {
        Some(ResolverConfig::Trait { name, batch_key }) => {
            assert_eq!(name, "getPosts");
            assert_eq!(batch_key.as_deref(), Some("id"));
        }
        _ => panic!("Expected Trait resolver"),
    }
}

#[test]
fn test_last_schema_block_that_names_a_root_counts() {
    let document = SchemaDocument {
        definitions: vec![
            Definition::Schema(SchemaDefinition {
                query: Some("First".to_string()),
                mutation: Some("Change".to_string()),
            }),
            object("Query", vec![]),
            object("Mutation", vec![]),
            Definition::Schema(SchemaDefinition { query: Some("Second".to_string()), mutation: None }),
        ],
    };
    let config = build_config_from_document(document).ok().unwrap();
    assert_eq!(config.query_type.as_deref(), Some("Second"));
    assert_eq!(config.mutation_type.as_deref(), Some("Change"));
}

#[test]
fn test_process_type_definition_models_objects_and_interfaces_only() {
    let kinds = vec![
        (TypeKind::Scalar, false),
        (TypeKind::Object(vec![]), true),
        (TypeKind::Interface(vec![]), true),
        (TypeKind::Union, false),
        (TypeKind::Enum, false),
        (TypeKind::InputObject, false),
    ];
    for (kind, modeled) in kinds {
        let definition = TypeDeclaration { name: "T".to_string(), kind };
        let outcome = process_type_definition(&definition).ok().unwrap();
        assert_eq!(outcome.is_some(), modeled);
    }
    let reserved = TypeDeclaration { name: "__T".to_string(), kind: TypeKind::Object(vec![]) };
    assert!(process_type_definition(&reserved).ok().unwrap().is_none());
    let single = TypeDeclaration { name: "_T".to_string(), kind: TypeKind::Object(vec![]) };
    assert_eq!(process_type_definition(&single).ok().unwrap().unwrap().name, "_T");
}

#[test]
fn test_schema_roots_and_inference_on_a_configuration() {
    let mut config = GraphQLConfig::default();
    assert_eq!(config.query_root(), "Query");
    infer_root_types(&mut config);
    assert_eq!(config.query_type, None);

    config.types.insert("Mutation".to_string(), TypeConfig { name: "Mutation".to_string(), fields: vec![] });
    infer_root_types(&mut config);
    assert_eq!(config.query_type, None);
    assert_eq!(config.mutation_type.as_deref(), Some("Mutation"));

    process_schema_definition(
        &SchemaDefinition { query: Some("Root".to_string()), mutation: None },
        &mut config,
    );
    assert_eq!(config.query_type.as_deref(), Some("Root"));
    assert_eq!(config.mutation_type.as_deref(), Some("Mutation"));
    assert_eq!(config.query_root(), "Root");
}

#[test]
fn test_extract_resolver_takes_first_directive_of_a_name() {
    let directives = vec![
        directive("resolver", vec![("name", "first")]),
        directive("resolver", vec![("name", "second")]),
        directive("batchKey", vec![("other", "x")]),
        directive("batchKey", vec![("field", "late")]),
    ];
    match extract_resolver(&directives) {
        Some(ResolverConfig::Trait { name, batch_key }) => {
            assert_eq!(name, "first");
            assert_eq!(batch_key, None);
        }
        _ => panic!("Expected Trait resolver"),
    }
    assert!(extract_resolver(&vec![directive("deprecated", vec![("reason", "old")])]).is_none());
    assert!(extract_resolver(&vec![]).is_none());
}

#[test]
fn test_read_schema_gives_the_written_document() {
    let document = read_schema(
        "schema { query: Root } directive @x on FIELD_DEFINITION scalar Date \
         type Root { at(when: Date = \"now\"): [Date!] @x(a: 1, b: [true], c: { d: E }) } \
         union U = Root input In { a: Int } enum E { A } interface I { id: ID }",
    )
    .ok()
    .unwrap();
    assert_eq!(document.definitions.len(), 8);
    assert!(matches!(
        &document.definitions[0],
        Definition::Schema(SchemaDefinition { query: Some(root), mutation: None }) if root == "Root"
    ));
    assert!(matches!(&document.definitions[1], Definition::Directive));
    assert!(matches!(
        &document.definitions[2],
        Definition::Type(TypeDeclaration { name, kind: TypeKind::Scalar }) if name == "Date"
    ));
    match &document.definitions[3] {
        Definition::Type(TypeDeclaration { name, kind: TypeKind::Object(fields) }) => {
            assert_eq!(name, "Root");
            assert_eq!(fields.len(), 1);
            let at = &fields[0];
            assert_eq!(at.name, "at");
            assert!(at.ty.nullable);
            match &at.ty.base {
                BaseType::List(item) => {
                    assert!(!item.nullable);
                    assert!(matches!(&item.base, BaseType::Named(name) if name == "Date"));
                }
                _ => panic!("Expected a list"),
            }
            assert_eq!(at.arguments.len(), 1);
            assert_eq!(at.arguments[0].name, "when");
            assert!(matches!(
                &at.arguments[0].default_value,
                Some(Constant::String(text)) if text == "now"
            ));
            assert_eq!(at.directives.len(), 1);
            let x = &at.directives[0];
            assert_eq!(x.name, "x");
            let keys: Vec<&str> = x.arguments.iter().map(|(key, _)| key.as_str()).collect();
            assert_eq!(keys, vec!["a", "b", "c"]);
            assert!(matches!(
                &x.arguments[0].1,
                Constant::Number(NumberLiteral { as_i64: Some(1), .. })
            ));
            assert!(matches!(
                &x.arguments[1].1,
                Constant::List(items) if matches!(items.as_slice(), [Constant::Boolean(true)])
            ));
            match &x.arguments[2].1 {
                Constant::Object(members) => {
                    assert_eq!(members.len(), 1);
                    assert_eq!(members[0].0, "d");
                    assert!(matches!(&members[0].1, Constant::Enum(name) if name == "E"));
                }
                _ => panic!("Expected an object"),
            }
        }
        _ => panic!("Expected an object type"),
    }
    assert!(matches!(
        &document.definitions[4],
        Definition::Type(TypeDeclaration { kind: TypeKind::Union, .. })
    ));
    assert!(matches!(
        &document.definitions[5],
        Definition::Type(TypeDeclaration { kind: TypeKind::InputObject, .. })
    ));
    assert!(matches!(
        &document.definitions[6],
        Definition::Type(TypeDeclaration { kind: TypeKind::Enum, .. })
    ));
    assert!(matches!(
        &document.definitions[7],
        Definition::Type(TypeDeclaration { name, kind: TypeKind::Interface(fields) })
            if name == "I" && fields.len() == 1
    ));
}

#[test]
fn test_read_schema_error_is_the_grammars_message() {
    let text = "type Query { a: }";
    let message = read_schema(text).err().unwrap();
    let expected = async_graphql_parser::parse_schema(text).err().unwrap().to_string();
    assert!(!message.is_empty());
    assert_eq!(message, expected);
}

#[test]
fn test_type_table_holds_the_last_type_under_each_name() {
    let mut table = TypeTable::new();
    assert!(table.is_empty());
    assert_eq!(table.len(), 0);
    assert!(table.get("A").is_none());
    table.insert("A".to_string(), TypeConfig { name: "first".to_string(), fields: vec![] });
    table.insert("B".to_string(), TypeConfig { name: "other".to_string(), fields: vec![] });
    table.insert("A".to_string(), TypeConfig { name: "second".to_string(), fields: vec![] });
    assert!(!table.is_empty());
    assert_eq!(table.len(), 2);
    assert!(table.contains_key("A"));
    assert!(!table.contains_key("a"));
    assert_eq!(table.get("A").unwrap().name, "second");
    assert_eq!(table.get("B").unwrap().name, "other");
    let mut names = table.names();
    names.sort();
    assert_eq!(names, vec!["A", "B"]);
    let copy = table.clone();
    assert_eq!(copy.len(), 2);
    assert_eq!(copy.get("A").unwrap().name, "second");
    assert!(TypeTable::default().is_empty());
}

#[test]
fn test_argument_mappings_hold_the_last_source_under_each_name() {
    let mut mappings = ArgumentMappings::new();
    assert!(mappings.is_empty());
    mappings.insert("id".to_string(), ArgumentMapping::Argument("a".to_string()));
    mappings.insert("id".to_string(), ArgumentMapping::ParentField("b".to_string()));
    mappings.insert("n".to_string(), ArgumentMapping::Literal(JsonValue::Null));
    assert_eq!(mappings.len(), 2);
    assert!(mappings.contains_key("n"));
    assert!(!mappings.contains_key("m"));
    assert!(matches!(mappings.get("id"), Some(ArgumentMapping::ParentField(field)) if field == "b"));
    assert!(mappings.get("m").is_none());
    let mut names = mappings.names();
    names.sort();
    assert_eq!(names, vec!["id", "n"]);
    assert_eq!(mappings.clone().len(), 2);
}

#[test]
fn test_join_puts_the_separator_between_neighbours() {
    assert_eq!(join(&vec![], "\n"), "");
    assert_eq!(join(&vec!["a".to_string()], "\n"), "a");
    assert_eq!(join(&vec!["a".to_string(), "".to_string(), "c".to_string()], ", "), "a, , c");
}

#[test]
fn test_build_config_from_outcome_of_each_kind() {
    match build_config_from_outcome(Err("no grammar".to_string())) {
        Err(ParseError::SdlParseError(message)) => assert_eq!(message, "no grammar"),
        _ => panic!("Expected SdlParseError"),
    }
    let document = SchemaDocument { definitions: vec![object("Query", vec![])] };
    let config = build_config_from_outcome(Ok(document)).ok().unwrap();
    assert_eq!(config.query_type.as_deref(), Some("Query"));
    assert_eq!(config.types.len(), 1);
}

#[test]
fn test_read_outcome_of_each_kind() {
    let parsed = async_graphql_parser::parse_schema("type Query { a: Int } scalar Date");
    let document = graphql_resolver::reader::read_outcome(parsed).ok().unwrap();
    assert_eq!(document.definitions.len(), 2);
    assert!(matches!(
        &document.definitions[0],
        Definition::Type(TypeDeclaration { name, kind: TypeKind::Object(fields) })
            if name == "Query" && fields.len() == 1
    ));

    let text = "type Query {";
    let expected = async_graphql_parser::parse_schema(text).err().unwrap().to_string();
    let refused = async_graphql_parser::parse_schema(text);
    assert_eq!(graphql_resolver::reader::read_outcome(refused).err(), Some(expected));
}
