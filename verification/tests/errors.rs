use graphql_resolver::error::ResolverError;
use graphql_resolver::server::ServerError;

#[test]
fn test_not_found_error_display() {
    let err = ResolverError::NotFound("myResolver".to_string());
    assert_eq!(err.to_string(), "Resolver not found: myResolver");
}

#[test]
fn test_argument_error_display() {
    let err = ResolverError::Argument("missing id".to_string());
    assert_eq!(err.to_string(), "Argument error: missing id");
}

#[test]
fn test_execution_error_display() {
    let err = ResolverError::Execution("database failed".to_string());
    assert_eq!(err.to_string(), "Execution error: database failed");
}

#[test]
fn test_serialization_error_from() {
    let invalid_json: Result<serde_json::Value, _> = serde_json::from_str("invalid json");
    let json_err = invalid_json.unwrap_err();
    let err: ResolverError = json_err.into();
    assert!(err.to_string().contains("Serialization error"));
}

#[test]
fn test_serialization_error_display() {
    let invalid_json: Result<serde_json::Value, _> = serde_json::from_str("{bad}");
    let json_err = invalid_json.unwrap_err();
    let expected = format!("Serialization error: {}", json_err);
    let err = ResolverError::Serialization(json_err);
    let display = err.to_string();
    assert!(display.starts_with("Serialization error:"));
    assert_eq!(display, expected);
}

#[test]
fn test_resolver_error_debug() {
    let err = ResolverError::NotFound("test".to_string());
    let debug = format!("{:?}", err);
    assert!(debug.contains("NotFound"));
}

#[test]
fn test_error_trait_impl() {
    let err = ResolverError::Execution("test".to_string());
    assert_eq!(err.to_string(), "Execution error: test");
}

#[test]
fn test_resolver_error_display() {
    let err = ResolverError::NotFound("test".to_string());
    assert!(err.to_string().contains("Resolver not found: test"));

    let err = ResolverError::Argument("invalid".to_string());
    assert!(err.to_string().contains("Argument error: invalid"));

    let err = ResolverError::Execution("failed".to_string());
    assert!(err.to_string().contains("Execution error: failed"));
}

#[test]
fn test_server_error_debug() {
    let err = ServerError::Config("test".to_string());
    let debug = format!("{:?}", err);
    assert!(debug.contains("Config"));
}

#[test]
fn test_server_error_texts() {
    assert_eq!(ServerError::Parse("bad".to_string()).to_string(), "Parse error: bad");
    assert_eq!(ServerError::Config("none".to_string()).to_string(), "Configuration error: none");
    assert_eq!(ServerError::N1Detection(vec![]).to_string(), "N+1 query detected");
    let wrapped: ServerError = ResolverError::NotFound("r".to_string()).into();
    assert_eq!(wrapped.to_string(), "Resolver error: Resolver not found: r");
}
