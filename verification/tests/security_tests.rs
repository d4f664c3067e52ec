use bosca_server::settings::{auto_verify_signup, required_setting, setting_enabled};
use bosca_server::models::{Permission, PermissionAction};
use bosca_server::security::{
    firebase_commit_due, firebase_import_batches, imported_account, imported_display_name, imported_verified,
    new_verification_token, principal_collection_name, principal_collection_permissions, principal_group_description,
    principal_group_name, principal_verification_token, principal_verified, refresh_token_principal, refresh_token_valid, ImportBatch,
    ImportedAccount, FIREBASE_BATCH_SIZE,
};
use bosca_server::security_oauth2::{
    account_error_message, account_provider, check_facebook_account, check_google_account, client_config, client_key,
    configured_providers, default_scopes, internal_redirect_urls, is_internal_redirect_url, missing_variable_message,
    provider_named, provider_variables, redirect_url_or_default, AccountError, OAuth2Provider,
};

#[test]
fn principal_names() {
    assert_eq!(principal_group_name(1), "principal.00000000-0000-0000-0000-000000000001");
    assert_eq!(principal_group_description(1), "Group for 00000000-0000-0000-0000-000000000001");
    assert_eq!(principal_collection_name(1), "Collection for 00000000-0000-0000-0000-000000000001");
}

#[test]
fn principal_collection_grants() {
    assert_eq!(
        principal_collection_permissions(5, 6),
        vec![
            Permission { entity_id: 5, group_id: 6, action: PermissionAction::View },
            Permission { entity_id: 5, group_id: 6, action: PermissionAction::List },
            Permission { entity_id: 5, group_id: 6, action: PermissionAction::Edit },
        ]
    );
}

#[test]
fn verification() {
    assert!(principal_verified(Some(true), false));
    assert!(!principal_verified(Some(false), true));
    assert!(principal_verified(None, true));
    assert!(principal_verification_token(true).is_none());
    let t = principal_verification_token(false).unwrap();
    assert_eq!(t.len(), 32);
    assert!(t.chars().all(|c| c.is_ascii_hexdigit() && !c.is_ascii_uppercase()));
    let a = new_verification_token();
    let b = new_verification_token();
    assert_eq!(a.len(), 32);
    assert_ne!(a, b);
}

#[test]
fn refresh_tokens_expire() {
    assert!(refresh_token_valid(101, 100));
    assert!(!refresh_token_valid(100, 100));
}

#[test]
fn import_batches_of_five_thousand() {
    assert_eq!(FIREBASE_BATCH_SIZE, 5000);
    assert_eq!(firebase_import_batches(0), vec![]);
    assert_eq!(firebase_import_batches(3), vec![ImportBatch { index: 1, start: 0, end: 3 }]);
    assert_eq!(
        firebase_import_batches(10000),
        vec![ImportBatch { index: 1, start: 0, end: 5000 }, ImportBatch { index: 2, start: 5000, end: 10000 }]
    );
    assert_eq!(
        firebase_import_batches(10001),
        vec![
            ImportBatch { index: 1, start: 0, end: 5000 },
            ImportBatch { index: 2, start: 5000, end: 10000 },
            ImportBatch { index: 3, start: 10000, end: 10001 },
        ]
    );
    assert!(firebase_commit_due(500));
    assert!(firebase_commit_due(1000));
    assert!(!firebase_commit_due(501));
    assert!(!firebase_commit_due(0));
}

#[test]
fn imported_accounts() {
    let none: Vec<String> = vec![];
    assert_eq!(imported_account(&"".to_string(), &none), None);
    assert_eq!(imported_account(&"a@b.c".to_string(), &none), Some(ImportedAccount::Password));
    let google = vec!["facebook.com".to_string(), "google.com".to_string()];
    assert_eq!(imported_account(&"a@b.c".to_string(), &google), Some(ImportedAccount::Google));
    let facebook = vec!["facebook.com".to_string()];
    assert_eq!(imported_account(&"a@b.c".to_string(), &facebook), Some(ImportedAccount::Facebook));
    let other = vec!["google.com".to_string(), "apple.com".to_string()];
    assert_eq!(imported_account(&"a@b.c".to_string(), &other), None);
    assert_eq!(imported_display_name(&"".to_string()), "User");
    assert_eq!(imported_display_name(&"Ann".to_string()), "Ann");
    assert!(imported_verified(true, false));
    assert!(imported_verified(false, true));
    assert!(!imported_verified(false, false));
}

#[test]
fn oauth2_providers_from_the_client_list() {
    assert_eq!(provider_named(&"google".to_string()), OAuth2Provider::Google);
    assert_eq!(provider_named(&"facebook".to_string()), OAuth2Provider::Facebook);
    assert_eq!(provider_named(&"okta".to_string()), OAuth2Provider::Custom);
    assert_eq!(
        configured_providers(" google, facebook ,okta"),
        vec![OAuth2Provider::Google, OAuth2Provider::Facebook, OAuth2Provider::Custom]
    );
    assert_eq!(configured_providers(""), vec![OAuth2Provider::Custom]);
    assert_eq!(client_key(OAuth2Provider::Custom), "custom");
    assert_eq!(client_key(OAuth2Provider::Google), "google");
}

#[test]
fn oauth2_client_configuration() {
    assert_eq!(provider_variables(OAuth2Provider::Google), vec!["GOOGLE_CLIENT_ID", "GOOGLE_CLIENT_SECRET"]);
    assert_eq!(
        provider_variables(OAuth2Provider::Custom),
        vec!["OAUTH2_CLIENT_ID", "OAUTH2_CLIENT_SECRET", "OAUTH2_AUTH_URL", "OAUTH2_TOKEN_URL"]
    );
    let c = client_config(OAuth2Provider::Google, &vec![Some("id".to_string()), Some("secret".to_string())], "https://app/cb")
        .unwrap();
    assert_eq!(c.key, "google");
    assert_eq!((c.client_id.as_str(), c.client_secret.as_str()), ("id", "secret"));
    assert_eq!(c.auth_url, "https://accounts.google.com/o/oauth2/v2/auth");
    assert_eq!(c.token_url, "https://www.googleapis.com/oauth2/v3/token");
    assert_eq!(c.redirect_url, "https://app/cb");
    assert_eq!(c.revocation_url.as_deref(), Some("https://oauth2.googleapis.com/revoke"));
    let c = client_config(OAuth2Provider::Facebook, &vec![Some("i".to_string()), Some("s".to_string())], "r").unwrap();
    assert_eq!(c.auth_url, "https://www.facebook.com/v3.2/dialog/oauth");
    assert_eq!(c.token_url, "https://graph.facebook.com/v3.2/oauth/access_token");
    assert_eq!(c.revocation_url.as_deref(), Some("https://graph.facebook.com/me/permissions"));
    let values = vec![Some("i".to_string()), Some("s".to_string()), Some("https://a".to_string()), Some("https://t".to_string())];
    let c = client_config(OAuth2Provider::Custom, &values, "r").unwrap();
    assert_eq!((c.key.as_str(), c.auth_url.as_str(), c.token_url.as_str()), ("custom", "https://a", "https://t"));
    assert!(c.revocation_url.is_none());
    let missing = vec![Some("i".to_string()), None, None, Some("t".to_string())];
    assert_eq!(
        client_config(OAuth2Provider::Custom, &missing, "r").unwrap_err(),
        "Environment variable OAUTH2_CLIENT_SECRET could not be read"
    );
    assert_eq!(
        client_config(OAuth2Provider::Google, &vec![None, None], "r").unwrap_err(),
        "Environment variable GOOGLE_CLIENT_ID could not be read"
    );
    assert_eq!(missing_variable_message("X"), "Environment variable X could not be read");
}

#[test]
fn oauth2_redirects() {
    assert_eq!(redirect_url_or_default(None), "http://localhost:8000/oauth2/callback");
    assert_eq!(redirect_url_or_default(Some("https://x/cb".to_string())), "https://x/cb");
    assert_eq!(internal_redirect_urls(&None), vec!["/"]);
    let urls = internal_redirect_urls(&Some("/app, /admin ".to_string()));
    assert_eq!(urls, vec!["/app", "/admin"]);
    assert!(is_internal_redirect_url(&urls, "/admin/users"));
    assert!(!is_internal_redirect_url(&urls, "https://evil.example/app"));
    assert!(is_internal_redirect_url(&internal_redirect_urls(&None), "/anything"));
    assert!(!is_internal_redirect_url(&vec![], "/"));
}

#[test]
fn oauth2_scopes() {
    assert_eq!(
        default_scopes(&"google".to_string()),
        vec!["https://www.googleapis.com/auth/userinfo.profile", "https://www.googleapis.com/auth/userinfo.email"]
    );
    assert_eq!(default_scopes(&"facebook".to_string()), vec!["public_profile", "email"]);
    assert_eq!(default_scopes(&"custom".to_string()), vec!["profile", "email"]);
}

#[test]
fn oauth2_accounts() {
    assert_eq!(account_provider(&"google".to_string()), Ok(OAuth2Provider::Google));
    assert_eq!(account_provider(&"facebook".to_string()), Ok(OAuth2Provider::Facebook));
    assert_eq!(account_provider(&"custom".to_string()), Err(AccountError::InvalidType));
    assert_eq!(check_google_account("", "a@b", true), Err(AccountError::InvalidGoogleAccount));
    assert_eq!(check_google_account("s", "", true), Err(AccountError::MissingGoogleEmail));
    assert_eq!(check_google_account("s", "a@b", false), Err(AccountError::GoogleAccountNotVerified));
    assert_eq!(check_google_account("s", "a@b", true), Ok(()));
    assert_eq!(check_facebook_account("", "a@b"), Err(AccountError::InvalidFacebookAccount));
    assert_eq!(check_facebook_account("1", ""), Err(AccountError::MissingFacebookEmail));
    assert_eq!(check_facebook_account("1", "a@b"), Ok(()));
    assert_eq!(account_error_message(AccountError::InvalidGoogleAccount), "invalid google account");
    assert_eq!(account_error_message(AccountError::MissingGoogleEmail), "missing google email");
    assert_eq!(account_error_message(AccountError::GoogleAccountNotVerified), "google account is not verified");
    assert_eq!(account_error_message(AccountError::InvalidFacebookAccount), "invalid facebook account");
    assert_eq!(account_error_message(AccountError::MissingFacebookEmail), "missing facebook email");
    assert_eq!(account_error_message(AccountError::InvalidType), "invalid oauth2 type");
}

#[test]
fn settings() {
    assert!(auto_verify_signup(&Some("TRUE".to_string())));
    assert!(auto_verify_signup(&Some("True".to_string())));
    assert!(!auto_verify_signup(&Some("yes".to_string())));
    assert!(!auto_verify_signup(&Some(" true".to_string())));
    assert!(!auto_verify_signup(&None));
    assert!(setting_enabled(&"true".to_string()));
    assert!(!setting_enabled(&"TRUE".to_string()));
    assert_eq!(required_setting("K", Some("v".to_string())), Ok("v".to_string()));
    assert_eq!(
        required_setting("CONFIGURATION_SECRET_KEY", None),
        Err("Environment variable CONFIGURATION_SECRET_KEY could not be read".to_string())
    );
}

#[test]
fn refresh_token_principal_only_before_expiry() {
    assert_eq!(refresh_token_principal(Some((7, 101)), 100), Some(7));
    assert_eq!(refresh_token_principal(Some((7, 100)), 100), None);
    assert_eq!(refresh_token_principal(None, 100), None);
}
