use graphql_resolver::config::{FieldType, ResolverConfig};
use graphql_resolver::tables::ArgumentMappings;

fn named(name: &str) -> FieldType {
    FieldType::Named(name.to_string())
}

#[test]
fn test_is_list_looks_through_non_null_only() {
    assert!(!named("User").is_list());
    assert!(FieldType::List(Box::new(named("User"))).is_list());
    assert!(FieldType::NonNull(Box::new(FieldType::List(Box::new(named("User"))))).is_list());
    assert!(!FieldType::NonNull(Box::new(named("User"))).is_list());
    assert!(FieldType::List(Box::new(FieldType::NonNull(Box::new(named("User"))))).is_list());
}

#[test]
fn test_inner_type_name_unwraps_to_the_one_name() {
    assert_eq!(named("ID").inner_type_name(), Some("ID"));
    let nested = FieldType::NonNull(Box::new(FieldType::List(Box::new(FieldType::NonNull(
        Box::new(FieldType::List(Box::new(named("Post")))),
    )))));
    assert_eq!(nested.inner_type_name(), Some("Post"));
    assert!(nested.is_list());
}

#[test]
fn test_field_type_clone_keeps_the_shape() {
    let shape = FieldType::NonNull(Box::new(FieldType::List(Box::new(named("User")))));
    assert_eq!(format!("{:?}", shape.clone()), format!("{:?}", shape));
}

#[test]
fn test_only_trait_with_batch_key_is_batched() {
    let batched =
        ResolverConfig::Trait { name: "a".to_string(), batch_key: Some("id".to_string()) };
    let plain = ResolverConfig::Trait { name: "b".to_string(), batch_key: None };
    let call = ResolverConfig::Call { trait_name: "c".to_string(), args: ArgumentMappings::new() };
    assert!(batched.is_batched());
    assert!(!plain.is_batched());
    assert!(!call.is_batched());
    assert_eq!(batched.resolver_name(), "a");
    assert_eq!(plain.resolver_name(), "b");
    assert_eq!(call.resolver_name(), "c");
}

#[test]
fn test_convert_field_type_named() {
    let ft = FieldType::Named("String".to_string());
    let tr = graphql_resolver::engine::convert_field_type(&ft);
    assert_eq!(format!("{:?}", tr), "Named(\"String\")");
}

#[test]
fn test_convert_field_type_list() {
    let ft = FieldType::List(Box::new(FieldType::Named("Int".to_string())));
    let tr = graphql_resolver::engine::convert_field_type(&ft);
    let debug = format!("{:?}", tr);
    assert!(debug.contains("List"));
    assert!(debug.contains("Int"));
}

#[test]
fn test_convert_field_type_nonnull() {
    let ft = FieldType::NonNull(Box::new(FieldType::Named("ID".to_string())));
    let tr = graphql_resolver::engine::convert_field_type(&ft);
    let debug = format!("{:?}", tr);
    assert!(debug.contains("NonNull"));
    assert!(debug.contains("ID"));
}

#[test]
fn test_convert_field_type_complex() {
    let ft = FieldType::NonNull(Box::new(FieldType::List(Box::new(FieldType::NonNull(
        Box::new(FieldType::Named("User".to_string())),
    )))));
    let tr = graphql_resolver::engine::convert_field_type(&ft);
    let debug = format!("{:?}", tr);
    assert!(debug.contains("NonNull"));
    assert!(debug.contains("List"));
    assert!(debug.contains("User"));
}

#[test]
fn test_convert_field_type_is_the_written_type() {
    let ft = FieldType::NonNull(Box::new(FieldType::List(Box::new(FieldType::NonNull(
        Box::new(FieldType::Named("User".to_string())),
    )))));
    assert_eq!(graphql_resolver::engine::convert_field_type(&ft).to_string(), "[User!]!");
    let plain = FieldType::List(Box::new(FieldType::Named("Int".to_string())));
    assert_eq!(graphql_resolver::engine::convert_field_type(&plain).to_string(), "[Int]");
}
