use graphql_resolver::parser::ParseError;

#[test]
fn test_parse_error_display() {
    let err = ParseError::SdlParseError("test error".to_string());
    assert_eq!(err.to_string(), "Failed to parse SDL: test error");
}

#[test]
fn test_parse_error_debug() {
    let err = ParseError::SdlParseError("test".to_string());
    let debug = format!("{:?}", err);
    assert!(debug.contains("SdlParseError"));
}
