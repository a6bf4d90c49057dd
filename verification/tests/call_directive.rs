use async_graphql_value::indexmap::IndexMap;
use async_graphql_value::{ConstValue, Name, Number};
use graphql_resolver::config::ArgumentMapping;
use graphql_resolver::directive::{
    const_value_to_json, parse_argument_mapping, parse_batch_key_directive, parse_call_directive,
    parse_resolver_directive, parse_trait_directive, CallDirective,
};
use graphql_resolver::document::{Constant, Directive, NumberLiteral};
use graphql_resolver::json::{JsonNumber, JsonValue};
use graphql_resolver::reader::read_value;
use graphql_resolver::tables::ArgumentMappings;

fn make_directive(name: &str, args: Vec<(&str, ConstValue)>) -> Directive {
    let mut arguments = Vec::new();
    for (arg_name, value) in args {
        arguments.push((arg_name.to_string(), read_value(&value)));
    }
    Directive { name: name.to_string(), arguments }
}

fn json_int(value: i64) -> JsonValue {
    JsonValue::Number(JsonNumber::Int(value))
}

#[test]
fn test_parse_call_directive_wrong_name() {
    let directive = make_directive("trait", vec![]);
    assert!(parse_call_directive(&directive).is_none());
}

#[test]
fn test_parse_call_directive_missing_trait() {
    let directive = make_directive("call", vec![]);
    assert!(parse_call_directive(&directive).is_none());
}

#[test]
fn test_parse_call_directive_basic() {
    let directive =
        make_directive("call", vec![("trait", ConstValue::String("getUser".to_string()))]);
    let result = parse_call_directive(&directive);
    assert!(result.is_some());
    let call = result.unwrap();
    assert_eq!(call.trait_name, "getUser");
    assert!(call.args.is_empty());
}

#[test]
fn test_parse_call_directive_with_parent_field_arg() {
    let mut obj = IndexMap::new();
    obj.insert(Name::new("userId"), ConstValue::String("$parent.id".to_string()));

    let directive = make_directive(
        "call",
        vec![
            ("trait", ConstValue::String("getProfile".to_string())),
            ("args", ConstValue::Object(obj)),
        ],
    );

    let result = parse_call_directive(&directive).unwrap();
    assert_eq!(result.trait_name, "getProfile");

    match result.args.get("userId").unwrap() {
        ArgumentMapping::ParentField(field) => assert_eq!(field, "id"),
        _ => panic!("Expected ParentField"),
    }
}

#[test]
fn test_parse_call_directive_with_arg_mapping() {
    let mut obj = IndexMap::new();
    obj.insert(Name::new("id"), ConstValue::String("$arg.userId".to_string()));

    let directive = make_directive(
        "call",
        vec![
            ("trait", ConstValue::String("resolver".to_string())),
            ("args", ConstValue::Object(obj)),
        ],
    );

    let result = parse_call_directive(&directive).unwrap();
    match result.args.get("id").unwrap() {
        ArgumentMapping::Argument(arg) => assert_eq!(arg, "userId"),
        _ => panic!("Expected Argument"),
    }
}

#[test]
fn test_parse_call_directive_with_literal_string() {
    let mut obj = IndexMap::new();
    obj.insert(Name::new("name"), ConstValue::String("literal value".to_string()));

    let directive = make_directive(
        "call",
        vec![
            ("trait", ConstValue::String("resolver".to_string())),
            ("args", ConstValue::Object(obj)),
        ],
    );

    let result = parse_call_directive(&directive).unwrap();
    match result.args.get("name").unwrap() {
        ArgumentMapping::Literal(val) => {
            assert_eq!(val, &JsonValue::String("literal value".to_string()))
        }
        _ => panic!("Expected Literal"),
    }
}

#[test]
fn test_const_value_to_json_null() {
    let result = const_value_to_json(&read_value(&ConstValue::Null));
    assert_eq!(result, JsonValue::Null);
}

#[test]
fn test_const_value_to_json_boolean() {
    assert_eq!(const_value_to_json(&read_value(&ConstValue::Boolean(true))), JsonValue::Bool(true));
    assert_eq!(
        const_value_to_json(&read_value(&ConstValue::Boolean(false))),
        JsonValue::Bool(false)
    );
}

#[test]
fn test_const_value_to_json_number_i64() {
    let num = Number::from(42i64);
    let result = const_value_to_json(&read_value(&ConstValue::Number(num)));
    assert_eq!(result, json_int(42));
}

#[test]
fn test_const_value_to_json_number_u64() {
    let num = Number::from(42u64);
    let result = const_value_to_json(&read_value(&ConstValue::Number(num)));
    assert_eq!(result, json_int(42));
}

#[test]
fn test_const_value_to_json_number_f64() {
    let num = Number::from_f64(3.14).unwrap();
    let result = const_value_to_json(&read_value(&ConstValue::Number(num)));
    assert!(matches!(result, JsonValue::Number(_)));
    assert_eq!(result, JsonValue::Number(JsonNumber::Float(3.14f64.to_bits())));
}

#[test]
fn test_const_value_to_json_string() {
    let result = const_value_to_json(&read_value(&ConstValue::String("test".to_string())));
    assert_eq!(result, JsonValue::String("test".to_string()));
}

#[test]
fn test_const_value_to_json_enum() {
    let result = const_value_to_json(&read_value(&ConstValue::Enum(Name::new("ACTIVE"))));
    assert_eq!(result, JsonValue::String("ACTIVE".to_string()));
}

#[test]
fn test_const_value_to_json_list() {
    let list = vec![ConstValue::Boolean(true), ConstValue::Boolean(false)];
    let result = const_value_to_json(&read_value(&ConstValue::List(list)));
    assert_eq!(result, JsonValue::Array(vec![JsonValue::Bool(true), JsonValue::Bool(false)]));
}

#[test]
fn test_const_value_to_json_object() {
    let mut obj = IndexMap::new();
    obj.insert(Name::new("key"), ConstValue::String("value".to_string()));
    let result = const_value_to_json(&read_value(&ConstValue::Object(obj)));
    assert_eq!(
        result,
        JsonValue::Object(vec![("key".to_string(), JsonValue::String("value".to_string()))])
    );
}

#[test]
fn test_const_value_to_json_binary() {
    let binary = bytes::Bytes::from(vec![1u8, 2, 3]);
    let result = const_value_to_json(&read_value(&ConstValue::Binary(binary)));
    assert_eq!(result, JsonValue::Array(vec![json_int(1), json_int(2), json_int(3)]));
}

#[test]
fn test_call_directive_debug() {
    let call = CallDirective { trait_name: "test".to_string(), args: ArgumentMappings::default() };
    let debug = format!("{:?}", call);
    assert!(debug.contains("CallDirective"));
}

#[test]
fn test_call_directive_clone() {
    let call = CallDirective { trait_name: "test".to_string(), args: ArgumentMappings::default() };
    let cloned = call.clone();
    assert_eq!(cloned.trait_name, call.trait_name);
}

#[test]
fn test_parse_call_args_non_object() {
    let directive = make_directive(
        "call",
        vec![
            ("trait", ConstValue::String("resolver".to_string())),
            ("args", ConstValue::String("not an object".to_string())),
        ],
    );

    let result = parse_call_directive(&directive).unwrap();
    assert!(result.args.is_empty());
}

#[test]
fn test_parse_literal_number_arg() {
    let mut obj = IndexMap::new();
    obj.insert(Name::new("count"), ConstValue::Number(Number::from(10i64)));

    let directive = make_directive(
        "call",
        vec![
            ("trait", ConstValue::String("resolver".to_string())),
            ("args", ConstValue::Object(obj)),
        ],
    );

    let result = parse_call_directive(&directive).unwrap();
    match result.args.get("count").unwrap() {
        ArgumentMapping::Literal(val) => assert_eq!(val, &json_int(10)),
        _ => panic!("Expected Literal"),
    }
}

#[test]
fn test_read_value_keeps_variants_and_order() {
    let mut inner = IndexMap::new();
    inner.insert(Name::new("z"), ConstValue::Number(Number::from(1i64)));
    inner.insert(Name::new("a"), ConstValue::Enum(Name::new("RED")));
    let value = ConstValue::List(vec![ConstValue::Object(inner), ConstValue::Null]);

    match read_value(&value) {
        Constant::List(items) => {
            assert_eq!(items.len(), 2);
            match &items[0] {
                Constant::Object(members) => {
                    assert_eq!(members.len(), 2);
                    assert_eq!(members[0].0, "z");
                    assert!(matches!(
                        &members[0].1,
                        Constant::Number(NumberLiteral { as_i64: Some(1), as_u64: Some(1), .. })
                    ));
                    assert_eq!(members[1].0, "a");
                    assert!(matches!(&members[1].1, Constant::Enum(name) if name == "RED"));
                }
                _ => panic!("Expected Object"),
            }
            assert!(matches!(&items[1], Constant::Null));
        }
        _ => panic!("Expected List"),
    }
}

#[test]
fn test_number_readings_as_the_parser_gives_them() {
    let negative = read_value(&ConstValue::Number(Number::from(-7i64)));
    assert!(matches!(
        negative,
        Constant::Number(NumberLiteral { as_i64: Some(-7), as_u64: None, .. })
    ));
    let large = read_value(&ConstValue::Number(Number::from(u64::MAX)));
    assert!(matches!(
        large,
        Constant::Number(NumberLiteral { as_i64: None, as_u64: Some(u64::MAX), .. })
    ));
    assert_eq!(const_value_to_json(&large), JsonValue::Number(JsonNumber::UInt(u64::MAX)));
    let fraction = read_value(&ConstValue::Number(Number::from_f64(0.5).unwrap()));
    match fraction {
        Constant::Number(NumberLiteral { as_i64: None, as_u64: None, as_f64_bits: Some(bits) }) => {
            assert_eq!(f64::from_bits(bits), 0.5)
        }
        _ => panic!("Expected a float reading only"),
    }
}

#[test]
fn test_number_without_finite_reading_is_null() {
    let infinite = NumberLiteral {
        as_i64: None,
        as_u64: None,
        as_f64_bits: Some(f64::INFINITY.to_bits()),
    };
    assert_eq!(const_value_to_json(&Constant::Number(infinite)), JsonValue::Null);
    let not_a_number =
        NumberLiteral { as_i64: None, as_u64: None, as_f64_bits: Some(f64::NAN.to_bits()) };
    assert_eq!(const_value_to_json(&Constant::Number(not_a_number)), JsonValue::Null);
    let nothing = NumberLiteral { as_i64: None, as_u64: None, as_f64_bits: None };
    assert_eq!(const_value_to_json(&Constant::Number(nothing)), JsonValue::Null);
}

#[test]
fn test_argument_mapping_prefixes() {
    let parent = parse_argument_mapping(&Constant::String("$parent.".to_string()));
    assert!(matches!(parent, Some(ArgumentMapping::ParentField(field)) if field.is_empty()));
    let near_miss = parse_argument_mapping(&Constant::String("$parent".to_string()));
    assert!(matches!(
        near_miss,
        Some(ArgumentMapping::Literal(JsonValue::String(text))) if text == "$parent"
    ));
    let nested = parse_argument_mapping(&Constant::String("$arg.$parent.x".to_string()));
    assert!(matches!(nested, Some(ArgumentMapping::Argument(name)) if name == "$parent.x"));
    let enumerated = parse_argument_mapping(&Constant::Enum("$parent.id".to_string()));
    assert!(matches!(
        enumerated,
        Some(ArgumentMapping::Literal(JsonValue::String(text))) if text == "$parent.id"
    ));
}

#[test]
fn test_first_argument_of_a_name_counts() {
    let directive = Directive {
        name: "resolver".to_string(),
        arguments: vec![
            ("name".to_string(), Constant::Boolean(true)),
            ("name".to_string(), Constant::String("late".to_string())),
        ],
    };
    assert!(parse_resolver_directive(&directive).is_none());

    let directive = Directive {
        name: "resolver".to_string(),
        arguments: vec![
            ("other".to_string(), Constant::String("x".to_string())),
            ("name".to_string(), Constant::String("first".to_string())),
            ("name".to_string(), Constant::String("second".to_string())),
        ],
    };
    assert_eq!(parse_resolver_directive(&directive).unwrap().name, "first");
}

#[test]
fn test_named_directives_need_their_own_name() {
    let named = |directive: &str, argument: &str| Directive {
        name: directive.to_string(),
        arguments: vec![(argument.to_string(), Constant::String("value".to_string()))],
    };
    assert_eq!(parse_trait_directive(&named("trait", "name")).unwrap().name, "value");
    assert!(parse_trait_directive(&named("resolver", "name")).is_none());
    assert!(parse_resolver_directive(&named("trait", "name")).is_none());
    assert_eq!(parse_batch_key_directive(&named("batchKey", "field")).unwrap().field, "value");
    assert!(parse_batch_key_directive(&named("batchKey", "name")).is_none());
    assert!(parse_batch_key_directive(&named("batchkey", "field")).is_none());
}

#[test]
fn test_later_member_of_same_name_replaces_earlier_in_args() {
    let directive = Directive {
        name: "call".to_string(),
        arguments: vec![
            ("trait".to_string(), Constant::String("r".to_string())),
            (
                "args".to_string(),
                Constant::Object(vec![
                    ("k".to_string(), Constant::String("$arg.a".to_string())),
                    ("k".to_string(), Constant::String("$parent.b".to_string())),
                ]),
            ),
        ],
    };
    let call = parse_call_directive(&directive).unwrap();
    assert_eq!(call.args.len(), 1);
    assert!(matches!(call.args.get("k"), Some(ArgumentMapping::ParentField(field)) if field == "b"));
}
