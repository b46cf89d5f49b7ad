//! Device-authorization flow engine: the decisions behind the two HTTP
//! exchanges (device-code issuance and token-exchange polling).
//!
//! The engine is stateless: the caller threads the device code between the
//! start and complete steps and owns the polling cadence. The application
//! performs the requests; each function here interprets one response or
//! builds one value to send or persist.

use vstd::prelude::*;

use crate::is_success_status;
use crate::status_is_success;
use crate::text::{is_blank, is_blank_str};
use crate::types::{
    AuthError, AuthErrorV, CompleteSuccessV, GitHubDeviceFlowComplete,
    GitHubDeviceFlowCompletePending, GitHubDeviceFlowCompleteSuccess, GitHubDeviceFlowStart,
    GitHubUserSummary, StoredAuth, StoredAuthV, opt_chars,
};

verus! {

/// Parsed body of the device-code endpoint's response.
#[derive(Debug, Clone, PartialEq)]
pub struct DeviceCodeFields {
    pub device_code: String,
    pub user_code: String,
    pub verification_uri: String,
    pub verification_uri_complete: Option<String>,
    pub expires_in: u64,
    pub interval: u64,
}

/// Ghost model of [`DeviceCodeFields`].
pub ghost struct DeviceCodeFieldsV {
    pub device_code: Seq<char>,
    pub user_code: Seq<char>,
    pub verification_uri: Seq<char>,
    pub verification_uri_complete: Option<Seq<char>>,
    pub expires_in: u64,
    pub interval: u64,
}

impl View for DeviceCodeFields {
    type V = DeviceCodeFieldsV;

    open spec fn view(&self) -> DeviceCodeFieldsV {
        DeviceCodeFieldsV {
            device_code: self.device_code@,
            user_code: self.user_code@,
            verification_uri: self.verification_uri@,
            verification_uri_complete: opt_chars(self.verification_uri_complete),
            expires_in: self.expires_in,
            interval: self.interval,
        }
    }
}

/// Parsed body of the token endpoint's response. Every field is optional:
/// the provider answers HTTP success both for issued tokens and for
/// "not yet" error codes.
#[derive(Debug, Clone, PartialEq)]
pub struct TokenFields {
    pub access_token: Option<String>,
    pub scope: Option<String>,
    pub token_type: Option<String>,
    pub error: Option<String>,
    pub error_description: Option<String>,
}

/// Ghost model of [`TokenFields`].
pub ghost struct TokenFieldsV {
    pub access_token: Option<Seq<char>>,
    pub scope: Option<Seq<char>>,
    pub token_type: Option<Seq<char>>,
    pub error: Option<Seq<char>>,
    pub error_description: Option<Seq<char>>,
}

impl View for TokenFields {
    type V = TokenFieldsV;

    open spec fn view(&self) -> TokenFieldsV {
        TokenFieldsV {
            access_token: opt_chars(self.access_token),
            scope: opt_chars(self.scope),
            token_type: opt_chars(self.token_type),
            error: opt_chars(self.error),
            error_description: opt_chars(self.error_description),
        }
    }
}

/// Rejects an empty or whitespace-only device code before any request is
/// made; a usable code passes through untouched.
pub fn validate_device_code(device_code: &str) -> (r: Result<(), AuthError>)
    ensures
        is_blank(device_code@) ==> (r matches Err(e) && e@ == AuthErrorV::EmptyDeviceCode),
        !is_blank(device_code@) ==> r is Ok,
{
    if is_blank_str(device_code) {
        Err(AuthError::EmptyDeviceCode)
    } else {
        Ok(())
    }
}

/// Checks the device-code endpoint's status: any non-success answer is a
/// hard error carrying that status.
pub fn start_status_check(status: u16) -> (r: Result<(), AuthError>)
    ensures
        !is_success_status(status) ==> (r matches Err(e) && e@ == (AuthErrorV::DeviceCodeFailed {
            status,
        })),
        is_success_status(status) ==> r is Ok,
{
    if !status_is_success(status) {
        Err(AuthError::DeviceCodeFailed { status })
    } else {
        Ok(())
    }
}

/// What the start step returns: the parsed body verbatim, plus the scope
/// string that was requested.
pub open spec fn spec_flow_start(p: DeviceCodeFieldsV, scopes: Seq<char>) -> crate::types::FlowStartV {
    crate::types::FlowStartV {
        device_code: p.device_code,
        user_code: p.user_code,
        verification_uri: p.verification_uri,
        verification_uri_complete: p.verification_uri_complete,
        expires_in: p.expires_in,
        interval: p.interval,
        scope: Some(scopes),
    }
}

/// Packages a successful device-code response with the requested scopes.
pub fn build_flow_start(payload: DeviceCodeFields, scopes: String) -> (r: GitHubDeviceFlowStart)
    ensures
        r@ == spec_flow_start(payload@, scopes@),
{
    GitHubDeviceFlowStart {
        device_code: payload.device_code,
        user_code: payload.user_code,
        verification_uri: payload.verification_uri,
        verification_uri_complete: payload.verification_uri_complete,
        expires_in: payload.expires_in,
        interval: payload.interval,
        scope: Some(scopes),
    }
}

/// Checks the token endpoint's status: any non-success answer is a hard
/// error carrying that status.
pub fn token_status_check(status: u16) -> (r: Result<(), AuthError>)
    ensures
        !is_success_status(status) ==> (r matches Err(e) && e@ == (AuthErrorV::TokenExchangeFailed {
            status,
        })),
        is_success_status(status) ==> r is Ok,
{
    if !status_is_success(status) {
        Err(AuthError::TokenExchangeFailed { status })
    } else {
        Ok(())
    }
}

/// What a successful token-endpoint body means.
#[derive(Debug, Clone, PartialEq)]
pub enum TokenStep {
    /// The provider answered an error code (`authorization_pending`,
    /// `slow_down`, `expired_token`, `access_denied`, ...): the caller's
    /// poll loop decides how to go on. The store is untouched.
    Pending(GitHubDeviceFlowCompletePending),
    /// The provider issued no usable token and no error code.
    Fail(AuthError),
    /// A token was issued: resolve the identity with it, then persist.
    FetchProfile { access_token: String },
}

/// The pending outcome a provider error code produces: the code as
/// `status`, the description (or, failing that, the code again) as `error`.
pub open spec fn spec_pending(error: Seq<char>, description: Option<Seq<char>>)
    -> crate::types::CompletePendingV {
    crate::types::CompletePendingV {
        connected: false,
        status: Some(error),
        error: Some(
            match description {
                Some(d) => d,
                None => error,
            },
        ),
    }
}

/// Reads a successful token-endpoint body: a provider error code means
/// pending; an absent or blank token is a hard error; otherwise the token
/// goes on to profile resolution.
pub fn token_response_step(payload: TokenFields) -> (r: TokenStep)
    ensures
        payload@.error matches Some(e) ==> (r matches TokenStep::Pending(p) && p@ == spec_pending(
            e,
            payload@.error_description,
        )),
        payload@.error is None && token_blank(payload@.access_token) ==> (r matches TokenStep::Fail(
            err,
        ) && err@ == AuthErrorV::MissingAccessToken),
        payload@.error is None && !token_blank(payload@.access_token) ==> (r
            matches TokenStep::FetchProfile { access_token } && Some(access_token@)
            == payload@.access_token),
{
    if let Some(error) = payload.error {
        let description = match payload.error_description {
            Some(d) => d,
            None => error.clone(),
        };
        return TokenStep::Pending(
            GitHubDeviceFlowCompletePending {
                connected: false,
                status: Some(error),
                error: Some(description),
            },
        );
    }
    match payload.access_token {
        Some(token) => {
            if is_blank_str(token.as_str()) {
                TokenStep::Fail(AuthError::MissingAccessToken)
            } else {
                TokenStep::FetchProfile { access_token: token }
            }
        },
        None => TokenStep::Fail(AuthError::MissingAccessToken),
    }
}

/// An issued token is unusable when it is absent or whitespace-only.
pub open spec fn token_blank(t: Option<Seq<char>>) -> bool {
    match t {
        Some(s) => is_blank(s),
        None => true,
    }
}

/// Maps a profile-resolution failure during completion: a 401 right after
/// issuance is the distinct "token invalid" anomaly, anything else passes
/// through.
pub fn complete_profile_error(e: AuthError) -> (r: AuthError)
    ensures
        e@ == AuthErrorV::Unauthorized ==> r@ == AuthErrorV::TokenInvalid,
        e@ != AuthErrorV::Unauthorized ==> r@ == e@,
{
    match e {
        AuthError::Unauthorized => AuthError::TokenInvalid,
        other => other,
    }
}

/// The credential record a successful exchange persists.
pub open spec fn spec_stored_auth(
    access_token: Seq<char>,
    scope: Option<Seq<char>>,
    token_type: Option<Seq<char>>,
    now_millis: u64,
    user: crate::types::UserV,
) -> StoredAuthV {
    StoredAuthV {
        access_token,
        scope,
        token_type,
        created_at: Some(now_millis),
        user: Some(user),
    }
}

/// Builds the credential record to persist: the issued token, the echoed
/// scope and token type, the creation timestamp, and the resolved identity.
/// It replaces any previous record wholesale.
pub fn build_stored_auth(
    access_token: String,
    scope: Option<String>,
    token_type: Option<String>,
    now_millis: u64,
    user: GitHubUserSummary,
) -> (r: StoredAuth)
    ensures
        r@ == spec_stored_auth(access_token@, opt_chars(scope), opt_chars(token_type), now_millis, user@),
{
    StoredAuth {
        access_token,
        scope,
        token_type,
        created_at: Some(now_millis),
        user: Some(user),
    }
}

/// The success outcome of a completion: connected, with the resolved user
/// and the echoed scope.
pub open spec fn spec_complete_success(user: crate::types::UserV, scope: Option<Seq<char>>)
    -> CompleteSuccessV {
    CompleteSuccessV { connected: true, user, scope }
}

/// Packages the success outcome of a completed exchange.
pub fn complete_success(user: GitHubUserSummary, scope: Option<String>) -> (r:
    GitHubDeviceFlowComplete)
    ensures
        r matches GitHubDeviceFlowComplete::Success(s) && s@ == spec_complete_success(
            user@,
            opt_chars(scope),
        ),
{
    GitHubDeviceFlowComplete::Success(
        GitHubDeviceFlowCompleteSuccess { connected: true, user, scope },
    )
}

} // verus!
