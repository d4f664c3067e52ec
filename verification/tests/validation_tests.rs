use bosca_server::validation::{
    document_verdict, schema_check, validate_document_content, validation_error_message, ValidationError,
};

const SCHEMA: &str = r#"{"type": "object", "required": ["title"], "properties": {"title": {"type": "string", "maxLength": 5}}}"#;

#[test]
fn documents_are_checked_against_their_schema() {
    assert_eq!(validate_document_content(&Some(SCHEMA.to_string()), r#"{"title": "abc"}"#), Some(Ok(())));
    assert_eq!(
        validate_document_content(&Some(SCHEMA.to_string()), r#"{"title": "too long"}"#),
        Some(Err(ValidationError::DocumentValidationFailed))
    );
    assert_eq!(
        validate_document_content(&Some(SCHEMA.to_string()), r#"{}"#),
        Some(Err(ValidationError::DocumentValidationFailed))
    );
    assert_eq!(validate_document_content(&None, "not even json"), Some(Ok(())));
}

#[test]
fn unusable_schemas_are_reported() {
    assert_eq!(schema_check(r#"{"type": 5}"#, "{}"), None);
    assert_eq!(schema_check("{", "{}"), None);
    assert_eq!(schema_check("{}", "{"), None);
    assert_eq!(validate_document_content(&Some(r#"{"type": 5}"#.to_string()), "{}"), None);
    assert_eq!(schema_check(r#"{"type": "array"}"#, "[1]"), Some(true));
    assert_eq!(schema_check(r#"{"type": "array"}"#, "1"), Some(false));
}

#[test]
fn verdicts() {
    assert_eq!(document_verdict(Some(true)), Ok(()));
    assert_eq!(document_verdict(Some(false)), Err(ValidationError::DocumentValidationFailed));
    assert_eq!(validation_error_message(ValidationError::DocumentValidationFailed), "document validation failed");
}
