use fabro_sandbox::aca::auth::{
    auth_mode_from_env_value, credential_failure, token_failure, token_scope, AuthMode, FakeTokenSource,
    TokenSource,
};
use fabro_sandbox::aca::ACA_TOKEN_AUDIENCE;

#[test]
fn fake_token_source_returns_token() {
    let ts = FakeTokenSource("test-token".to_string());
    assert_eq!(ts.token().unwrap(), "test-token");
}

#[test]
fn auth_mode_from_env_value_selects_managed_case_insensitively() {
    assert_eq!(auth_mode_from_env_value(Some("managed")), AuthMode::Managed);
    assert_eq!(auth_mode_from_env_value(Some("MANAGED")), AuthMode::Managed);
    assert_eq!(auth_mode_from_env_value(Some("Managed")), AuthMode::Managed);
}

#[test]
fn auth_mode_from_env_value_defaults_to_developer() {
    assert_eq!(auth_mode_from_env_value(None), AuthMode::Developer);
    assert_eq!(auth_mode_from_env_value(Some("developer")), AuthMode::Developer);
    assert_eq!(auth_mode_from_env_value(Some("")), AuthMode::Developer);
    assert_eq!(auth_mode_from_env_value(Some("garbage")), AuthMode::Developer);
}

#[test]
fn scope_is_the_audience_with_default() {
    assert_eq!(
        token_scope(ACA_TOKEN_AUDIENCE),
        "https://management.azuredevcompute.io/.default"
    );
}

#[test]
fn scope_drops_trailing_slashes() {
    assert_eq!(token_scope("https://example.com//"), "https://example.com/.default");
}

#[test]
fn scope_that_is_one_already_stays() {
    assert_eq!(token_scope("api://x/.default"), "api://x/.default");
    assert_eq!(token_scope(&token_scope("api://x")), token_scope("api://x"));
}

#[test]
fn credential_failures_say_which_credential() {
    let managed = credential_failure(AuthMode::Managed, "no IMDS".to_string());
    assert_eq!(managed.text(), "Failed to build Entra managed-identity credential");
    assert_eq!(managed.source().unwrap().text(), "no IMDS");
    let developer = credential_failure(AuthMode::Developer, "no az".to_string());
    assert_eq!(developer.text(), "Failed to build Entra developer-tools credential");
    let token = token_failure("expired".to_string());
    assert_eq!(token.text(), "Failed to acquire Entra token for ACA audience");
}
