use github_auth::render::u16_to_dec;

use github_auth::device_flow::{
    build_flow_start, build_stored_auth, complete_profile_error, complete_success,
    start_status_check, token_response_step, token_status_check, validate_device_code,
    DeviceCodeFields, TokenFields, TokenStep,
};
use github_auth::status::{
    clear_outcome_removed, disconnect_result, disconnected_status, status_after_profile,
    status_of_store, whoami_after_profile, whoami_of_store, DeleteOutcome, StatusOutcome,
    StatusStep, WhoamiOutcome,
};
use github_auth::types::{
    AuthError, GitHubAuthStatus, GitHubDeviceFlowComplete, GitHubUserSummary, StoredAuth,
};

fn user(login: &str) -> GitHubUserSummary {
    GitHubUserSummary {
        login: login.to_string(),
        id: Some(7),
        avatar_url: None,
        name: None,
        email: Some("u@x".to_string()),
    }
}

fn stored(token: &str) -> StoredAuth {
    StoredAuth {
        access_token: token.to_string(),
        scope: Some("repo".to_string()),
        token_type: Some("bearer".to_string()),
        created_at: Some(1_700_000_000_000),
        user: Some(user("octocat")),
    }
}

fn token_body(
    access_token: Option<&str>,
    error: Option<&str>,
    description: Option<&str>,
) -> TokenFields {
    TokenFields {
        access_token: access_token.map(|s| s.to_string()),
        scope: Some("repo".to_string()),
        token_type: Some("bearer".to_string()),
        error: error.map(|s| s.to_string()),
        error_description: description.map(|s| s.to_string()),
    }
}

#[test]
fn empty_device_code_is_an_input_error() {
    assert_eq!(validate_device_code(""), Err(AuthError::EmptyDeviceCode));
    assert_eq!(validate_device_code("  \t"), Err(AuthError::EmptyDeviceCode));
    assert_eq!(validate_device_code("dc-1"), Ok(()));
}

#[test]
fn start_status_maps_failures() {
    assert_eq!(
        start_status_check(404),
        Err(AuthError::DeviceCodeFailed { status: 404 })
    );
    assert_eq!(start_status_check(200), Ok(()));
}

#[test]
fn flow_start_echoes_fields_and_scope() {
    let fields = DeviceCodeFields {
        device_code: "dc".to_string(),
        user_code: "ABCD-1234".to_string(),
        verification_uri: "https://example.invalid/device".to_string(),
        verification_uri_complete: None,
        expires_in: 900,
        interval: 5,
    };
    let start = build_flow_start(fields, "repo gist".to_string());
    assert_eq!(start.device_code, "dc".to_string());
    assert_eq!(start.user_code, "ABCD-1234".to_string());
    assert_eq!(start.verification_uri, "https://example.invalid/device".to_string());
    assert_eq!(start.verification_uri_complete, None);
    assert_eq!(start.expires_in, 900);
    assert_eq!(start.interval, 5);
    assert_eq!(start.scope, Some("repo gist".to_string()));
}

#[test]
fn token_status_maps_failures() {
    assert_eq!(
        token_status_check(500),
        Err(AuthError::TokenExchangeFailed { status: 500 })
    );
    assert_eq!(token_status_check(200), Ok(()));
}

#[test]
fn pending_error_code_is_not_a_hard_error() {
    match token_response_step(token_body(None, Some("authorization_pending"), None)) {
        TokenStep::Pending(p) => {
            assert!(!p.connected);
            assert_eq!(p.status, Some("authorization_pending".to_string()));
            assert_eq!(p.error, Some("authorization_pending".to_string()));
        }
        other => panic!("expected Pending, got {:?}", other),
    }
}

#[test]
fn pending_uses_description_when_present() {
    match token_response_step(token_body(None, Some("slow_down"), Some("Poll more slowly"))) {
        TokenStep::Pending(p) => {
            assert_eq!(p.status, Some("slow_down".to_string()));
            assert_eq!(p.error, Some("Poll more slowly".to_string()));
        }
        other => panic!("expected Pending, got {:?}", other),
    }
}

#[test]
fn error_code_outranks_a_token_in_the_same_body() {
    match token_response_step(token_body(Some("tok"), Some("access_denied"), None)) {
        TokenStep::Pending(p) => assert_eq!(p.status, Some("access_denied".to_string())),
        other => panic!("expected Pending, got {:?}", other),
    }
}

#[test]
fn missing_or_blank_token_is_a_hard_error() {
    assert_eq!(
        token_response_step(token_body(None, None, None)),
        TokenStep::Fail(AuthError::MissingAccessToken)
    );
    assert_eq!(
        token_response_step(token_body(Some("   "), None, None)),
        TokenStep::Fail(AuthError::MissingAccessToken)
    );
}

#[test]
fn issued_token_goes_on_to_profile_resolution() {
    assert_eq!(
        token_response_step(token_body(Some("tok"), None, None)),
        TokenStep::FetchProfile {
            access_token: "tok".to_string()
        }
    );
}

#[test]
fn unauthorized_right_after_issuance_is_token_invalid() {
    assert_eq!(
        complete_profile_error(AuthError::Unauthorized),
        AuthError::TokenInvalid
    );
    let other = AuthError::Transport {
        message: "boom".to_string(),
    };
    assert_eq!(complete_profile_error(other.clone()), other);
}

#[test]
fn stored_record_carries_everything() {
    let s = build_stored_auth(
        "tok".to_string(),
        Some("repo".to_string()),
        Some("bearer".to_string()),
        123,
        user("octocat"),
    );
    assert_eq!(s.access_token, "tok".to_string());
    assert_eq!(s.scope, Some("repo".to_string()));
    assert_eq!(s.token_type, Some("bearer".to_string()));
    assert_eq!(s.created_at, Some(123));
    assert_eq!(s.user, Some(user("octocat")));
}

#[test]
fn success_outcome_is_connected() {
    match complete_success(user("octocat"), Some("repo".to_string())) {
        GitHubDeviceFlowComplete::Success(s) => {
            assert!(s.connected);
            assert_eq!(s.user, user("octocat"));
            assert_eq!(s.scope, Some("repo".to_string()));
        }
        other => panic!("expected Success, got {:?}", other),
    }
}

#[test]
fn blank_stored_token_disconnects_and_clears() {
    assert_eq!(
        status_of_store(Some(stored(""))),
        StatusStep::Disconnected { clear_store: true }
    );
    assert_eq!(
        status_of_store(Some(stored("  \t"))),
        StatusStep::Disconnected { clear_store: true }
    );
}

#[test]
fn no_store_short_circuits_disconnected() {
    assert_eq!(
        status_of_store(None),
        StatusStep::Disconnected { clear_store: false }
    );
    assert_eq!(
        disconnected_status(),
        GitHubAuthStatus {
            connected: false,
            user: None,
            scope: None
        }
    );
}

#[test]
fn stored_token_is_checked_live() {
    assert_eq!(
        status_of_store(Some(stored("tok"))),
        StatusStep::CheckLive {
            access_token: "tok".to_string(),
            scope: Some("repo".to_string())
        }
    );
}

#[test]
fn completion_then_status_reports_the_same_user() {
    let step = token_response_step(token_body(Some("tok"), None, None));
    let TokenStep::FetchProfile { access_token } = step else {
        panic!("expected FetchProfile");
    };
    let resolved = user("octocat");
    let record = build_stored_auth(
        access_token,
        Some("repo".to_string()),
        Some("bearer".to_string()),
        123,
        resolved.clone(),
    );
    match complete_success(resolved.clone(), record.scope.clone()) {
        GitHubDeviceFlowComplete::Success(s) => assert_eq!(s.user, resolved),
        other => panic!("expected Success, got {:?}", other),
    }
    let scope = record.scope.clone();
    assert_eq!(
        status_of_store(Some(record)),
        StatusStep::CheckLive {
            access_token: "tok".to_string(),
            scope: Some("repo".to_string())
        }
    );
    assert_eq!(
        status_after_profile(scope, Ok(resolved.clone())),
        StatusOutcome::Connected(GitHubAuthStatus {
            connected: true,
            user: Some(resolved),
            scope: Some("repo".to_string())
        })
    );
}

#[test]
fn revocation_during_status_clears_idempotently() {
    assert_eq!(
        status_after_profile(Some("repo".to_string()), Err(AuthError::Unauthorized)),
        StatusOutcome::ClearAndDisconnect(disconnected_status())
    );
    assert_eq!(
        status_of_store(None),
        StatusStep::Disconnected { clear_store: false }
    );
}

#[test]
fn other_status_failures_propagate() {
    let err = AuthError::ProfileFailed { status: 503 };
    assert_eq!(
        status_after_profile(Some("repo".to_string()), Err(err.clone())),
        StatusOutcome::Fail(err)
    );
}

#[test]
fn whoami_requires_a_store() {
    assert_eq!(whoami_of_store(None), Err(AuthError::NotConnected));
    assert_eq!(whoami_of_store(Some(stored("tok"))), Ok("tok".to_string()));
    assert_eq!(whoami_of_store(Some(stored(""))), Ok("".to_string()));
}

#[test]
fn whoami_outcomes() {
    assert_eq!(
        whoami_after_profile(Ok(user("octocat"))),
        WhoamiOutcome::Done(user("octocat"))
    );
    assert_eq!(
        whoami_after_profile(Err(AuthError::Unauthorized)),
        WhoamiOutcome::ClearAndFail(AuthError::TokenRevoked)
    );
    let err = AuthError::Transport {
        message: "boom".to_string(),
    };
    assert_eq!(
        whoami_after_profile(Err(err.clone())),
        WhoamiOutcome::Fail(err)
    );
}

#[test]
fn decimal_rendering_is_exact() {
    assert_eq!(u16_to_dec(0), "0".to_string());
    assert_eq!(u16_to_dec(7), "7".to_string());
    assert_eq!(u16_to_dec(42), "42".to_string());
    assert_eq!(u16_to_dec(503), "503".to_string());
    assert_eq!(u16_to_dec(65535), "65535".to_string());
}

#[test]
fn error_messages_are_exact() {
    assert_eq!(
        AuthError::EmptyDeviceCode.message(),
        "deviceCode is required".to_string()
    );
    assert_eq!(
        AuthError::MissingAccessToken.message(),
        "Missing access_token from GitHub".to_string()
    );
    assert_eq!(
        AuthError::TokenInvalid.message(),
        "GitHub token invalid".to_string()
    );
    assert_eq!(AuthError::Unauthorized.message(), "unauthorized".to_string());
    assert_eq!(
        AuthError::NotConnected.message(),
        "GitHub not connected".to_string()
    );
    assert_eq!(
        AuthError::TokenRevoked.message(),
        "GitHub token expired or revoked".to_string()
    );
    assert_eq!(
        AuthError::DeviceCodeFailed { status: 404 }.message(),
        "GitHub device code failed: 404".to_string()
    );
    assert_eq!(
        AuthError::TokenExchangeFailed { status: 500 }.message(),
        "GitHub token exchange failed: 500".to_string()
    );
    assert_eq!(
        AuthError::ProfileFailed { status: 503 }.message(),
        "GitHub /user failed: 503".to_string()
    );
    assert_eq!(
        AuthError::Transport {
            message: "connection reset".to_string()
        }
        .message(),
        "connection reset".to_string()
    );
}

#[test]
fn disconnect_is_idempotent() {
    assert!(clear_outcome_removed(DeleteOutcome::NotFound));
    assert!(clear_outcome_removed(DeleteOutcome::Deleted));
    assert!(!clear_outcome_removed(DeleteOutcome::Failed));
    assert!(disconnect_result(true).removed);
    assert!(!disconnect_result(false).removed);
}
