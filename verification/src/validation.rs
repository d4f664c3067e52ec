use vstd::prelude::*;

verus! {

/// What checking a document against a JSON schema gives, both given as
/// JSON texts: `None` where either text is no JSON or the schema cannot be
/// compiled; otherwise whether the document satisfies the schema.
pub uninterp spec fn schema_verdict(schema: Seq<char>, document: Seq<char>) -> Option<bool>;

/// Parses both texts with `serde_json::from_str`, compiles the schema with
/// `jsonschema::validator_for` and checks the document with the compiled
/// validator's `is_valid`. The result is `schema_verdict` of the two texts.
#[verifier::external_body]
fn check_against_schema(schema: &str, document: &str) -> (r: Option<bool>)
    ensures
        r == schema_verdict(schema@, document@),
{
    let schema: serde_json::Value = serde_json::from_str(schema).ok()?;
    let document: serde_json::Value = serde_json::from_str(document).ok()?;
    let validator = jsonschema::validator_for(&schema).ok()?;
    Some(validator.is_valid(&document))
}

/// Why a document is not accepted.
#[derive(Clone, Copy, PartialEq, Eq, Structural, Debug)]
pub enum ValidationError {
    DocumentValidationFailed,
}

/// The message a refused document is answered with.
pub fn validation_error_message(e: ValidationError) -> (m: String)
    ensures
        m@ == "document validation failed"@,
{
    String::from_str("document validation failed")
}

/// Checks a document against its template's schema.
pub fn schema_check(schema: &str, document: &str) -> (r: Option<bool>)
    ensures
        r == schema_verdict(schema@, document@),
{
    check_against_schema(schema, document)
}

/// Accepts a document the schema admits and refuses one it does not.
pub fn document_verdict(verdict: Option<bool>) -> (r: Result<(), ValidationError>)
    requires
        verdict is Some,
    ensures
        r == (if verdict == Some(true) {
            Ok::<(), ValidationError>(())
        } else {
            Err::<(), ValidationError>(ValidationError::DocumentValidationFailed)
        }),
{
    match verdict {
        Some(true) => Ok(()),
        _ => Err(ValidationError::DocumentValidationFailed),
    }
}

/// Validates a document before its metadata is set ready: without a schema
/// (no template, or a template without one) it is accepted; with one it
/// must satisfy it. `None` where the schema cannot be used at all.
pub fn validate_document_content(schema: &Option<String>, document: &str) -> (r: Option<Result<(), ValidationError>>)
    ensures
        match schema {
            None => r == Some(Ok::<(), ValidationError>(())),
            Some(s) => match schema_verdict(s@, document@) {
                None => r is None,
                Some(true) => r == Some(Ok::<(), ValidationError>(())),
                Some(false) => r == Some(Err::<(), ValidationError>(ValidationError::DocumentValidationFailed)),
            },
        },
{
    match schema {
        None => Some(Ok(())),
        Some(s) => {
            let verdict = schema_check(s.as_str(), document);
            if verdict.is_none() {
                None
            } else {
                Some(document_verdict(verdict))
            }
        },
    }
}

} // verus!
