use vstd::prelude::*;
use crate::security_oauth2::{missing_variable_message, missing_variable_text};

verus! {

/// What `str::to_lowercase` gives for a text: its Unicode lower-case form.
pub uninterp spec fn lowercase_text(s: Seq<char>) -> Seq<char>;

/// Lower-cases a text with `str::to_lowercase`, which maps every character
/// to its Unicode lower-case form whatever the locale. The result is
/// `lowercase_text` of the text.
#[verifier::external_body]
fn lowercase(s: &str) -> (r: String)
    ensures
        r@ == lowercase_text(s@),
{
    s.to_lowercase()
}

/// Whether new sign-ups start verified: only when the setting reads `true`,
/// in any case; an absent setting means no.
pub fn auto_verify_signup(setting: &Option<String>) -> (r: bool)
    ensures
        r == (match setting {
            Some(v) => lowercase_text(v@) == "true"@,
            None => false,
        }),
{
    match setting {
        Some(v) => setting_enabled(&lowercase(v.as_str())),
        None => false,
    }
}

/// Whether a lower-cased setting turns its option on: it reads `true`.
pub fn setting_enabled(lowered: &String) -> (r: bool)
    ensures
        r == (lowered@ == "true"@),
{
    *lowered == String::from_str("true")
}

/// A setting the server cannot start without: its value, or the message
/// that it could not be read.
pub fn required_setting(name: &str, value: Option<String>) -> (r: Result<String, String>)
    ensures
        match value {
            Some(v) => r matches Ok(s) && s@ == v@,
            None => r matches Err(m) && m@ == missing_variable_text(name@),
        },
{
    match value {
        Some(v) => Ok(v),
        None => Err(missing_variable_message(name)),
    }
}

} // verus!
