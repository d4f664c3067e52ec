use vstd::prelude::*;
use crate::text::{comma_list, has_prefix, is_empty_text, split_into, starts_with, trimmed};

verus! {

/// The kinds of OAuth2 sign-in the server can offer.
#[derive(Clone, Copy, PartialEq, Eq, Structural, Debug)]
pub enum OAuth2Provider {
    Google,
    Facebook,
    /// A provider configured entirely from the environment.
    Custom,
}

/// The provider a configured client name stands for: any name but
/// `google` and `facebook` configures the custom provider.
pub open spec fn provider_for(name: Seq<char>) -> OAuth2Provider {
    if name == "google"@ {
        OAuth2Provider::Google
    } else if name == "facebook"@ {
        OAuth2Provider::Facebook
    } else {
        OAuth2Provider::Custom
    }
}

/// The provider a configured client name stands for.
pub fn provider_named(name: &String) -> (p: OAuth2Provider)
    ensures
        p == provider_for(name@),
{
    if *name == String::from_str("google") {
        OAuth2Provider::Google
    } else if *name == String::from_str("facebook") {
        OAuth2Provider::Facebook
    } else {
        OAuth2Provider::Custom
    }
}

/// The providers that a comma-separated list of client names configures,
/// in the order of the list.
pub fn configured_providers(client_types: &str) -> (r: Vec<OAuth2Provider>)
    ensures
        exists|pieces: Seq<Seq<char>>| {
            &&& split_into(client_types@, ',', pieces)
            &&& r@.len() == pieces.len()
            &&& forall|i: int| 0 <= i < pieces.len() ==> #[trigger] r@[i] == provider_for(trimmed(pieces[i]))
        },
{
    let names = comma_list(client_types);
    let mut r: Vec<OAuth2Provider> = Vec::new();
    let mut i: usize = 0;
    while i < names.len()
        invariant
            i <= names@.len(),
            r@.len() == i,
            forall|k: int| 0 <= k < i ==> #[trigger] r@[k] == provider_for(names@[k]@),
        decreases names@.len() - i,
    {
        r.push(provider_named(&names[i]));
        i += 1;
    }
    proof {
        let pieces = choose|pieces: Seq<Seq<char>>| {
            &&& split_into(client_types@, ',', pieces)
            &&& names@.len() == pieces.len()
            &&& forall|i: int| 0 <= i < pieces.len() ==> (#[trigger] names@[i])@ == trimmed(pieces[i])
        };
        assert forall|k: int| 0 <= k < pieces.len() implies #[trigger] r@[k] == provider_for(trimmed(pieces[k])) by {
            assert(names@[k]@ == trimmed(pieces[k]));
        }
    }
    r
}

/// The name a provider's client is kept under.
pub open spec fn client_key_text(p: OAuth2Provider) -> Seq<char> {
    match p {
        OAuth2Provider::Google => "google"@,
        OAuth2Provider::Facebook => "facebook"@,
        OAuth2Provider::Custom => "custom"@,
    }
}

/// The name a provider's client is kept under.
pub fn client_key(p: OAuth2Provider) -> (r: &'static str)
    ensures
        r@ == client_key_text(p),
{
    match p {
        OAuth2Provider::Google => "google",
        OAuth2Provider::Facebook => "facebook",
        OAuth2Provider::Custom => "custom",
    }
}

/// A provider's client is kept under the provider's own name, so a sign-in
/// of that type finds it: the key of Google and of Facebook names that
/// provider again, the custom provider's key names neither, and no two
/// providers share a key.
pub proof fn law_client_keys_name_their_provider(p: OAuth2Provider, q: OAuth2Provider)
    ensures
        p != OAuth2Provider::Custom ==> provider_for(client_key_text(p)) == p,
        client_key_text(OAuth2Provider::Google) == "google"@,
        client_key_text(OAuth2Provider::Facebook) == "facebook"@,
        provider_for(client_key_text(OAuth2Provider::Custom)) == OAuth2Provider::Custom,
        p != q ==> client_key_text(p) != client_key_text(q),
{
    reveal_strlit("google");
    reveal_strlit("facebook");
    reveal_strlit("custom");
    assert("google"@[0] != "custom"@[0]);
    assert("google"@.len() != "facebook"@.len());
    assert("custom"@.len() != "facebook"@.len());
}

/// The environment variables a provider's client is configured from: its
/// client id and secret, and for the custom provider its two endpoints.
pub open spec fn provider_variable_names(p: OAuth2Provider) -> Seq<Seq<char>> {
    match p {
        OAuth2Provider::Google => seq!["GOOGLE_CLIENT_ID"@, "GOOGLE_CLIENT_SECRET"@],
        OAuth2Provider::Facebook => seq!["FACEBOOK_APP_ID"@, "FACEBOOK_APP_SECRET"@],
        OAuth2Provider::Custom => seq!["OAUTH2_CLIENT_ID"@, "OAUTH2_CLIENT_SECRET"@, "OAUTH2_AUTH_URL"@, "OAUTH2_TOKEN_URL"@],
    }
}

/// The environment variables a provider's client is configured from, in the
/// order they are read.
pub fn provider_variables(p: OAuth2Provider) -> (r: Vec<&'static str>)
    ensures
        r@.len() == provider_variable_names(p).len(),
        forall|i: int| 0 <= i < r@.len() ==> (#[trigger] r@[i])@ == provider_variable_names(p)[i],
{
    match p {
        OAuth2Provider::Google => vec!["GOOGLE_CLIENT_ID", "GOOGLE_CLIENT_SECRET"],
        OAuth2Provider::Facebook => vec!["FACEBOOK_APP_ID", "FACEBOOK_APP_SECRET"],
        OAuth2Provider::Custom => vec!["OAUTH2_CLIENT_ID", "OAUTH2_CLIENT_SECRET", "OAUTH2_AUTH_URL", "OAUTH2_TOKEN_URL"],
    }
}

/// The message a client's configuration fails with when a variable it
/// needs cannot be read.
pub open spec fn missing_variable_text(name: Seq<char>) -> Seq<char> {
    "Environment variable "@ + name + " could not be read"@
}

/// The message a client's configuration fails with when a variable it
/// needs cannot be read.
pub fn missing_variable_message(name: &str) -> (m: String)
    ensures
        m@ == missing_variable_text(name@),
{
    let mut m = String::from_str("Environment variable ");
    m.append(name);
    m.append(" could not be read");
    m
}

/// What an OAuth2 client is built from.
#[derive(Debug)]
pub struct OAuth2ClientConfig {
    /// The name the client is kept under.
    pub key: String,
    pub client_id: String,
    pub client_secret: String,
    /// Where users are sent to sign in.
    pub auth_url: String,
    /// Where codes are exchanged for tokens.
    pub token_url: String,
    /// Where the provider sends users back.
    pub redirect_url: String,
    /// Where tokens are revoked, for the providers that have one.
    pub revocation_url: Option<String>,
}

/// The index of the first variable that could not be read, if any.
pub open spec fn first_missing(values: Seq<Option<String>>) -> Option<int>
    decreases values.len(),
{
    if values.len() == 0 {
        None
    } else {
        match first_missing(values.drop_last()) {
            Some(i) => Some(i),
            None => if values.last() is None {
                Some(values.len() - 1)
            } else {
                None
            },
        }
    }
}

/// Whether `c` is the configuration of provider `p` from the variables'
/// values (all present) and the redirect address.
pub open spec fn configured_as(p: OAuth2Provider, values: Seq<Option<String>>, redirect_url: Seq<char>, c: OAuth2ClientConfig) -> bool {
    &&& c.key@ == client_key_text(p)
    &&& c.client_id@ == values[0]->0@
    &&& c.client_secret@ == values[1]->0@
    &&& c.redirect_url@ == redirect_url
    &&& match p {
        OAuth2Provider::Google => {
            &&& c.auth_url@ == "https://accounts.google.com/o/oauth2/v2/auth"@
            &&& c.token_url@ == "https://www.googleapis.com/oauth2/v3/token"@
            &&& c.revocation_url matches Some(u) && u@ == "https://oauth2.googleapis.com/revoke"@
        },
        OAuth2Provider::Facebook => {
            &&& c.auth_url@ == "https://www.facebook.com/v3.2/dialog/oauth"@
            &&& c.token_url@ == "https://graph.facebook.com/v3.2/oauth/access_token"@
            &&& c.revocation_url matches Some(u) && u@ == "https://graph.facebook.com/me/permissions"@
        },
        OAuth2Provider::Custom => {
            &&& c.auth_url@ == values[2]->0@
            &&& c.token_url@ == values[3]->0@
            &&& c.revocation_url is None
        },
    }
}

fn value_of(values: &Vec<Option<String>>, i: usize) -> (r: String)
    requires
        i < values@.len(),
        values@[i as int] is Some,
    ensures
        r@ == values@[i as int]->0@,
{
    match &values[i] {
        Some(v) => v.clone(),
        None => String::new(),
    }
}

/// Configures a provider's client from the values of its variables (in the
/// order of `provider_variables`) and the redirect address. The first
/// variable that could not be read fails the configuration with its message.
pub fn client_config(p: OAuth2Provider, values: &Vec<Option<String>>, redirect_url: &str) -> (r: Result<OAuth2ClientConfig, String>)
    requires
        values@.len() == provider_variable_names(p).len(),
    ensures
        match first_missing(values@) {
            Some(i) => r matches Err(m) && m@ == missing_variable_text(provider_variable_names(p)[i]),
            None => r matches Ok(c) && configured_as(p, values@, redirect_url@, c),
        },
{
    let names = provider_variables(p);
    let mut i: usize = 0;
    while i < values.len()
        invariant
            names@.len() == values@.len(),
            forall|k: int| 0 <= k < names@.len() ==> (#[trigger] names@[k])@ == provider_variable_names(p)[k],
            i <= values@.len(),
            first_missing(values@.take(i as int)) is None,
        decreases values@.len() - i,
    {
        proof {
            assert(values@.take(i + 1).drop_last() =~= values@.take(i as int));
        }
        if values[i].is_none() {
            proof {
                lemma_first_missing_prefix(values@, i as int + 1);
            }
            return Err(missing_variable_message(names[i]));
        }
        i += 1;
    }
    proof {
        assert(values@.take(i as int) =~= values@);
        lemma_present_when_none_missing(values@);
    }
    let key = String::from_str(client_key(p));
    let client_id = value_of(values, 0);
    let client_secret = value_of(values, 1);
    let redirect = String::from_str(redirect_url);
    match p {
        OAuth2Provider::Google => Ok(OAuth2ClientConfig {
            key,
            client_id,
            client_secret,
            auth_url: String::from_str("https://accounts.google.com/o/oauth2/v2/auth"),
            token_url: String::from_str("https://www.googleapis.com/oauth2/v3/token"),
            redirect_url: redirect,
            revocation_url: Some(String::from_str("https://oauth2.googleapis.com/revoke")),
        }),
        OAuth2Provider::Facebook => Ok(OAuth2ClientConfig {
            key,
            client_id,
            client_secret,
            auth_url: String::from_str("https://www.facebook.com/v3.2/dialog/oauth"),
            token_url: String::from_str("https://graph.facebook.com/v3.2/oauth/access_token"),
            redirect_url: redirect,
            revocation_url: Some(String::from_str("https://graph.facebook.com/me/permissions")),
        }),
        OAuth2Provider::Custom => Ok(OAuth2ClientConfig {
            key,
            client_id,
            client_secret,
            auth_url: value_of(values, 2),
            token_url: value_of(values, 3),
            redirect_url: redirect,
            revocation_url: None,
        }),
    }
}

proof fn lemma_first_missing_prefix(values: Seq<Option<String>>, n: int)
    requires
        0 < n <= values.len(),
        first_missing(values.take(n - 1)) is None,
        values[n - 1] is None,
    ensures
        first_missing(values) == Some(n - 1),
    decreases values.len(),
{
    assert(values.take(n).drop_last() =~= values.take(n - 1));
    if n < values.len() {
        assert(values.drop_last().take(n) =~= values.take(n));
        assert(values.drop_last().take(n - 1) =~= values.take(n - 1));
        lemma_first_missing_prefix(values.drop_last(), n);
    } else {
        assert(values.take(n) =~= values);
    }
}

proof fn lemma_present_when_none_missing(values: Seq<Option<String>>)
    requires
        first_missing(values) is None,
    ensures
        forall|i: int| 0 <= i < values.len() ==> (#[trigger] values[i]) is Some,
    decreases values.len(),
{
    if values.len() > 0 {
        lemma_present_when_none_missing(values.drop_last());
        assert forall|i: int| 0 <= i < values.len() implies (#[trigger] values[i]) is Some by {
            if i < values.len() - 1 {
                assert(values.drop_last()[i] == values[i]);
            }
        }
    }
}

/// The address providers send users back to: the configured one, or the
/// local default.
pub fn redirect_url_or_default(configured: Option<String>) -> (r: String)
    ensures
        r@ == (match configured {
            Some(u) => u@,
            None => "http://localhost:8000/oauth2/callback"@,
        }),
{
    match configured {
        Some(u) => u,
        None => String::from_str("http://localhost:8000/oauth2/callback"),
    }
}

/// The configured list of internal addresses, or `/` where none is configured.
pub open spec fn internal_redirect_text(configured: Option<String>) -> Seq<char> {
    match configured {
        Some(u) => u@,
        None => "/"@,
    }
}

/// The addresses a sign-in may return to inside the application: the
/// configured comma-separated list, each entry trimmed, or `/` alone.
pub fn internal_redirect_urls(configured: &Option<String>) -> (r: Vec<String>)
    ensures
        exists|pieces: Seq<Seq<char>>| {
            &&& split_into(internal_redirect_text(*configured), ',', pieces)
            &&& r@.len() == pieces.len()
            &&& forall|i: int| 0 <= i < pieces.len() ==> (#[trigger] r@[i])@ == trimmed(pieces[i])
        },
{
    let text = match configured {
        Some(u) => u.as_str(),
        None => "/",
    };
    let r = comma_list(text);
    proof {
        let pieces = choose|pieces: Seq<Seq<char>>| {
            &&& split_into(text@, ',', pieces)
            &&& r@.len() == pieces.len()
            &&& forall|i: int| 0 <= i < pieces.len() ==> (#[trigger] r@[i])@ == trimmed(pieces[i])
        };
        assert(split_into(internal_redirect_text(*configured), ',', pieces));
    }
    r
}

/// A sign-in may return to an address inside the application exactly when
/// the address begins with one of the internal addresses.
pub fn is_internal_redirect_url(internal: &Vec<String>, url: &str) -> (r: bool)
    ensures
        r == exists|i: int| 0 <= i < internal@.len() && has_prefix(url@, (#[trigger] internal@[i])@),
{
    let mut i: usize = 0;
    while i < internal.len()
        invariant
            i <= internal@.len(),
            forall|k: int| 0 <= k < i ==> !has_prefix(url@, (#[trigger] internal@[k])@),
        decreases internal@.len() - i,
    {
        if starts_with(url, internal[i].as_str()) {
            return true;
        }
        i += 1;
    }
    false
}

/// The scopes a sign-in asks a provider for, by the provider's name.
pub open spec fn default_scope_texts(oauth2_type: Seq<char>) -> Seq<Seq<char>> {
    if oauth2_type == "google"@ {
        seq!["https://www.googleapis.com/auth/userinfo.profile"@, "https://www.googleapis.com/auth/userinfo.email"@]
    } else if oauth2_type == "facebook"@ {
        seq!["public_profile"@, "email"@]
    } else {
        seq!["profile"@, "email"@]
    }
}

/// The scopes a sign-in asks a provider for, by the provider's name.
pub fn default_scopes(oauth2_type: &String) -> (r: Vec<&'static str>)
    ensures
        r@.len() == default_scope_texts(oauth2_type@).len(),
        forall|i: int| 0 <= i < r@.len() ==> (#[trigger] r@[i])@ == default_scope_texts(oauth2_type@)[i],
{
    if *oauth2_type == String::from_str("google") {
        vec!["https://www.googleapis.com/auth/userinfo.profile", "https://www.googleapis.com/auth/userinfo.email"]
    } else if *oauth2_type == String::from_str("facebook") {
        vec!["public_profile", "email"]
    } else {
        vec!["profile", "email"]
    }
}

/// Why an account returned by a provider is refused.
#[derive(Clone, Copy, PartialEq, Eq, Structural, Debug)]
pub enum AccountError {
    InvalidGoogleAccount,
    MissingGoogleEmail,
    GoogleAccountNotVerified,
    InvalidFacebookAccount,
    MissingFacebookEmail,
    /// The provider is not one accounts are read from.
    InvalidType,
}

/// The message an account is refused with.
pub open spec fn account_error_text(e: AccountError) -> Seq<char> {
    match e {
        AccountError::InvalidGoogleAccount => "invalid google account"@,
        AccountError::MissingGoogleEmail => "missing google email"@,
        AccountError::GoogleAccountNotVerified => "google account is not verified"@,
        AccountError::InvalidFacebookAccount => "invalid facebook account"@,
        AccountError::MissingFacebookEmail => "missing facebook email"@,
        AccountError::InvalidType => "invalid oauth2 type"@,
    }
}

/// The message an account is refused with.
pub fn account_error_message(e: AccountError) -> (m: String)
    ensures
        m@ == account_error_text(e),
{
    match e {
        AccountError::InvalidGoogleAccount => String::from_str("invalid google account"),
        AccountError::MissingGoogleEmail => String::from_str("missing google email"),
        AccountError::GoogleAccountNotVerified => String::from_str("google account is not verified"),
        AccountError::InvalidFacebookAccount => String::from_str("invalid facebook account"),
        AccountError::MissingFacebookEmail => String::from_str("missing facebook email"),
        AccountError::InvalidType => String::from_str("invalid oauth2 type"),
    }
}

/// The provider accounts are read from for a sign-in type: Google and
/// Facebook only.
pub fn account_provider(oauth2_type: &String) -> (r: Result<OAuth2Provider, AccountError>)
    ensures
        r == (if oauth2_type@ == "google"@ {
            Ok::<OAuth2Provider, AccountError>(OAuth2Provider::Google)
        } else if oauth2_type@ == "facebook"@ {
            Ok::<OAuth2Provider, AccountError>(OAuth2Provider::Facebook)
        } else {
            Err::<OAuth2Provider, AccountError>(AccountError::InvalidType)
        }),
{
    match provider_named(oauth2_type) {
        OAuth2Provider::Custom => Err(AccountError::InvalidType),
        p => Ok(p),
    }
}

/// A Google account is accepted with a subject and an email, once Google
/// has verified the email; the checks go in that order.
pub fn check_google_account(sub: &str, email: &str, email_verified: bool) -> (r: Result<(), AccountError>)
    ensures
        r == (if sub@.len() == 0 {
            Err::<(), AccountError>(AccountError::InvalidGoogleAccount)
        } else if email@.len() == 0 {
            Err::<(), AccountError>(AccountError::MissingGoogleEmail)
        } else if !email_verified {
            Err::<(), AccountError>(AccountError::GoogleAccountNotVerified)
        } else {
            Ok::<(), AccountError>(())
        }),
{
    if is_empty_text(sub) {
        Err(AccountError::InvalidGoogleAccount)
    } else if is_empty_text(email) {
        Err(AccountError::MissingGoogleEmail)
    } else if !email_verified {
        Err(AccountError::GoogleAccountNotVerified)
    } else {
        Ok(())
    }
}

/// A Facebook account is accepted with an id and an email.
pub fn check_facebook_account(id: &str, email: &str) -> (r: Result<(), AccountError>)
    ensures
        r == (if id@.len() == 0 {
            Err::<(), AccountError>(AccountError::InvalidFacebookAccount)
        } else if email@.len() == 0 {
            Err::<(), AccountError>(AccountError::MissingFacebookEmail)
        } else {
            Ok::<(), AccountError>(())
        }),
{
    if is_empty_text(id) {
        Err(AccountError::InvalidFacebookAccount)
    } else if is_empty_text(email) {
        Err(AccountError::MissingFacebookEmail)
    } else {
        Ok(())
    }
}

} // verus!
