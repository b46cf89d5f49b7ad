use github_auth::config::{
    normalize_setting, resolve_client_config, DEFAULT_CLIENT_ID, DEFAULT_SCOPES,
};
use github_auth::profile::{
    apply_email, email_fetch_step, profile_payload_step, profile_status_check, select_email,
    ApiUserProfile, EmailEntry, EmailStep, ProfileStep,
};
use github_auth::text::{is_blank_str, trim_str};
use github_auth::types::AuthError;

fn entry(email: &str, primary: bool, verified: bool) -> EmailEntry {
    EmailEntry {
        email: email.to_string(),
        primary,
        verified,
    }
}

#[test]
fn trim_removes_both_ends() {
    assert_eq!(trim_str("  a b \t"), "a b".to_string());
    assert_eq!(trim_str(""), "".to_string());
    assert_eq!(trim_str("\t\r\nx"), "x".to_string());
    assert_eq!(trim_str("   \n "), "".to_string());
    assert_eq!(trim_str("no-space"), "no-space".to_string());
}

#[test]
fn blankness() {
    assert!(is_blank_str(""));
    assert!(is_blank_str("  \t\r\n"));
    assert!(!is_blank_str(" a "));
}

#[test]
fn config_defaults_when_unset() {
    let cfg = resolve_client_config(None, None);
    assert_eq!(cfg.client_id, DEFAULT_CLIENT_ID.to_string());
    assert_eq!(cfg.scopes, DEFAULT_SCOPES.to_string());
    assert_eq!(cfg.client_id, "Ov23liNd8TxDcMXtAHHM".to_string());
    assert_eq!(
        cfg.scopes,
        "repo read:org workflow read:user user:email".to_string()
    );
}

#[test]
fn config_defaults_on_blank_values() {
    let cfg = resolve_client_config(Some(""), Some("   \t"));
    assert_eq!(cfg.client_id, DEFAULT_CLIENT_ID.to_string());
    assert_eq!(cfg.scopes, DEFAULT_SCOPES.to_string());
}

#[test]
fn config_uses_overrides_trimmed() {
    let cfg = resolve_client_config(Some(" my-client "), Some("repo gist"));
    assert_eq!(cfg.client_id, "my-client".to_string());
    assert_eq!(cfg.scopes, "repo gist".to_string());
}

#[test]
fn normalize_setting_filters_blank() {
    assert_eq!(normalize_setting(Some("  x  ")), Some("x".to_string()));
    assert_eq!(normalize_setting(Some("   ")), None);
    assert_eq!(normalize_setting(Some("")), None);
    assert_eq!(normalize_setting(None), None);
}

#[test]
fn email_precedence_primary_verified_wins() {
    let entries = vec![entry("a@x", false, true), entry("b@x", true, true)];
    assert_eq!(select_email(&entries), Some("b@x".to_string()));
}

#[test]
fn email_precedence_any_verified_second() {
    let entries = vec![entry("a@x", false, true)];
    assert_eq!(select_email(&entries), Some("a@x".to_string()));
}

#[test]
fn email_precedence_unverified_gives_nothing() {
    let entries = vec![entry("a@x", true, false)];
    assert_eq!(select_email(&entries), None);
    assert_eq!(select_email(&Vec::new()), None);
}

#[test]
fn email_fetch_step_by_status() {
    assert_eq!(email_fetch_step(401), EmailStep::Unauthorized);
    assert_eq!(email_fetch_step(500), EmailStep::NoEmail);
    assert_eq!(email_fetch_step(304), EmailStep::NoEmail);
    assert_eq!(email_fetch_step(200), EmailStep::ParseBody);
    assert_eq!(email_fetch_step(299), EmailStep::ParseBody);
}

#[test]
fn profile_status_check_by_status() {
    assert_eq!(profile_status_check(401), Err(AuthError::Unauthorized));
    assert_eq!(
        profile_status_check(503),
        Err(AuthError::ProfileFailed { status: 503 })
    );
    assert_eq!(profile_status_check(200), Ok(()));
}

fn profile(email: Option<&str>) -> ApiUserProfile {
    ApiUserProfile {
        login: "octocat".to_string(),
        id: 42,
        avatar_url: Some("https://example.invalid/a.png".to_string()),
        name: Some("Octo Cat".to_string()),
        email: email.map(|e| e.to_string()),
    }
}

#[test]
fn profile_with_usable_email_is_done() {
    match profile_payload_step(profile(Some("o@x"))) {
        ProfileStep::Done { user } => {
            assert_eq!(user.login, "octocat".to_string());
            assert_eq!(user.id, Some(42));
            assert_eq!(user.email, Some("o@x".to_string()));
        }
        other => panic!("expected Done, got {:?}", other),
    }
}

#[test]
fn profile_without_email_needs_enrichment() {
    for p in [profile(None), profile(Some("   "))] {
        match profile_payload_step(p) {
            ProfileStep::NeedEmails { partial } => {
                assert_eq!(partial.login, "octocat".to_string());
                assert_eq!(partial.email, None);
            }
            other => panic!("expected NeedEmails, got {:?}", other),
        }
    }
}

#[test]
fn apply_email_fills_only_the_email() {
    let ProfileStep::NeedEmails { partial } = profile_payload_step(profile(None)) else {
        panic!("expected NeedEmails");
    };
    let user = apply_email(partial, Some("o@x".to_string()));
    assert_eq!(user.email, Some("o@x".to_string()));
    assert_eq!(user.login, "octocat".to_string());
    assert_eq!(user.id, Some(42));
    assert_eq!(user.name, Some("Octo Cat".to_string()));

    let ProfileStep::NeedEmails { partial } = profile_payload_step(profile(None)) else {
        panic!("expected NeedEmails");
    };
    let user = apply_email(partial, None);
    assert_eq!(user.email, None);
}
