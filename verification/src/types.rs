//! Data model of the device-authorization client.
//!
//! Each executable type has a ghost model (`...V`) built from sequences of
//! characters and plain values; contracts throughout the crate are stated
//! over these models.

use vstd::prelude::*;

verus! {

/// Ghost model of an optional string: the sequence of characters, if any.
pub open spec fn opt_chars(o: Option<String>) -> Option<Seq<char>> {
    match o {
        Some(s) => Some(s@),
        None => None,
    }
}

/// Public profile of the authenticated account.
#[derive(Debug, Clone, PartialEq)]
pub struct GitHubUserSummary {
    pub login: String,
    pub id: Option<u64>,
    pub avatar_url: Option<String>,
    pub name: Option<String>,
    pub email: Option<String>,
}

/// Ghost model of [`GitHubUserSummary`].
pub ghost struct UserV {
    pub login: Seq<char>,
    pub id: Option<u64>,
    pub avatar_url: Option<Seq<char>>,
    pub name: Option<Seq<char>>,
    pub email: Option<Seq<char>>,
}

impl View for GitHubUserSummary {
    type V = UserV;

    open spec fn view(&self) -> UserV {
        UserV {
            login: self.login@,
            id: self.id,
            avatar_url: opt_chars(self.avatar_url),
            name: opt_chars(self.name),
            email: opt_chars(self.email),
        }
    }
}

/// Ghost model of an optional user.
pub open spec fn opt_user(o: Option<GitHubUserSummary>) -> Option<UserV> {
    match o {
        Some(u) => Some(u@),
        None => None,
    }
}

/// Answer to "am I connected".
#[derive(Debug, Clone, PartialEq)]
pub struct GitHubAuthStatus {
    pub connected: bool,
    pub user: Option<GitHubUserSummary>,
    pub scope: Option<String>,
}

/// Ghost model of [`GitHubAuthStatus`].
pub ghost struct AuthStatusV {
    pub connected: bool,
    pub user: Option<UserV>,
    pub scope: Option<Seq<char>>,
}

impl View for GitHubAuthStatus {
    type V = AuthStatusV;

    open spec fn view(&self) -> AuthStatusV {
        AuthStatusV {
            connected: self.connected,
            user: opt_user(self.user),
            scope: opt_chars(self.scope),
        }
    }
}

/// First step of the device flow, handed to the user interface.
#[derive(Debug, Clone, PartialEq)]
pub struct GitHubDeviceFlowStart {
    pub device_code: String,
    pub user_code: String,
    pub verification_uri: String,
    pub verification_uri_complete: Option<String>,
    pub expires_in: u64,
    pub interval: u64,
    pub scope: Option<String>,
}

/// Ghost model of [`GitHubDeviceFlowStart`].
pub ghost struct FlowStartV {
    pub device_code: Seq<char>,
    pub user_code: Seq<char>,
    pub verification_uri: Seq<char>,
    pub verification_uri_complete: Option<Seq<char>>,
    pub expires_in: u64,
    pub interval: u64,
    pub scope: Option<Seq<char>>,
}

impl View for GitHubDeviceFlowStart {
    type V = FlowStartV;

    open spec fn view(&self) -> FlowStartV {
        FlowStartV {
            device_code: self.device_code@,
            user_code: self.user_code@,
            verification_uri: self.verification_uri@,
            verification_uri_complete: opt_chars(self.verification_uri_complete),
            expires_in: self.expires_in,
            interval: self.interval,
            scope: opt_chars(self.scope),
        }
    }
}

/// Successful outcome of the completion step.
#[derive(Debug, Clone, PartialEq)]
pub struct GitHubDeviceFlowCompleteSuccess {
    pub connected: bool,
    pub user: GitHubUserSummary,
    pub scope: Option<String>,
}

/// Ghost model of [`GitHubDeviceFlowCompleteSuccess`].
pub ghost struct CompleteSuccessV {
    pub connected: bool,
    pub user: UserV,
    pub scope: Option<Seq<char>>,
}

impl View for GitHubDeviceFlowCompleteSuccess {
    type V = CompleteSuccessV;

    open spec fn view(&self) -> CompleteSuccessV {
        CompleteSuccessV {
            connected: self.connected,
            user: self.user@,
            scope: opt_chars(self.scope),
        }
    }
}

/// "Try again later" outcome of the completion step: the provider has not
/// issued a token yet (or refuses to), with its error code as `status`.
#[derive(Debug, Clone, PartialEq)]
pub struct GitHubDeviceFlowCompletePending {
    pub connected: bool,
    pub status: Option<String>,
    pub error: Option<String>,
}

/// Ghost model of [`GitHubDeviceFlowCompletePending`].
pub ghost struct CompletePendingV {
    pub connected: bool,
    pub status: Option<Seq<char>>,
    pub error: Option<Seq<char>>,
}

impl View for GitHubDeviceFlowCompletePending {
    type V = CompletePendingV;

    open spec fn view(&self) -> CompletePendingV {
        CompletePendingV {
            connected: self.connected,
            status: opt_chars(self.status),
            error: opt_chars(self.error),
        }
    }
}

/// Tagged outcome of one completion attempt.
#[derive(Debug, Clone, PartialEq)]
pub enum GitHubDeviceFlowComplete {
    Success(GitHubDeviceFlowCompleteSuccess),
    Pending(GitHubDeviceFlowCompletePending),
}

/// Ghost model of [`GitHubDeviceFlowComplete`].
pub ghost enum CompleteV {
    Success(CompleteSuccessV),
    Pending(CompletePendingV),
}

impl View for GitHubDeviceFlowComplete {
    type V = CompleteV;

    open spec fn view(&self) -> CompleteV {
        match self {
            GitHubDeviceFlowComplete::Success(s) => CompleteV::Success(s@),
            GitHubDeviceFlowComplete::Pending(p) => CompleteV::Pending(p@),
        }
    }
}

/// Result of a disconnect request.
#[derive(Debug, Clone, PartialEq)]
pub struct GitHubDisconnectResult {
    pub removed: bool,
}

/// The persisted credential record; exactly one exists at a time.
#[derive(Debug, Clone, PartialEq)]
pub struct StoredAuth {
    pub access_token: String,
    pub scope: Option<String>,
    pub token_type: Option<String>,
    pub created_at: Option<u64>,
    pub user: Option<GitHubUserSummary>,
}

/// Ghost model of [`StoredAuth`].
pub ghost struct StoredAuthV {
    pub access_token: Seq<char>,
    pub scope: Option<Seq<char>>,
    pub token_type: Option<Seq<char>>,
    pub created_at: Option<u64>,
    pub user: Option<UserV>,
}

impl View for StoredAuth {
    type V = StoredAuthV;

    open spec fn view(&self) -> StoredAuthV {
        StoredAuthV {
            access_token: self.access_token@,
            scope: opt_chars(self.scope),
            token_type: opt_chars(self.token_type),
            created_at: self.created_at,
            user: opt_user(self.user),
        }
    }
}

/// Ghost model of an optional stored credential.
pub open spec fn opt_stored(o: Option<StoredAuth>) -> Option<StoredAuthV> {
    match o {
        Some(s) => Some(s@),
        None => None,
    }
}

/// Why an operation failed. Callers branch on the variant, not on message
/// text; the application layer renders each variant for display.
#[derive(Debug, Clone, PartialEq)]
pub enum AuthError {
    /// Caller-supplied device code was empty or whitespace.
    EmptyDeviceCode,
    /// The token endpoint answered success without a usable access token.
    MissingAccessToken,
    /// The provider rejected a token immediately after issuing it.
    TokenInvalid,
    /// An authenticated call answered 401: the credential is revoked.
    Unauthorized,
    /// No credential is stored.
    NotConnected,
    /// A stored credential turned out revoked during an identity request.
    TokenRevoked,
    /// The device-code endpoint answered a non-success status.
    DeviceCodeFailed { status: u16 },
    /// The token endpoint answered a non-success status.
    TokenExchangeFailed { status: u16 },
    /// The profile endpoint answered a non-success status other than 401.
    ProfileFailed { status: u16 },
    /// The transport failed or a body could not be read; the message is the
    /// transport's own description.
    Transport { message: String },
}

/// Ghost model of [`AuthError`].
pub ghost enum AuthErrorV {
    EmptyDeviceCode,
    MissingAccessToken,
    TokenInvalid,
    Unauthorized,
    NotConnected,
    TokenRevoked,
    DeviceCodeFailed { status: u16 },
    TokenExchangeFailed { status: u16 },
    ProfileFailed { status: u16 },
    Transport { message: Seq<char> },
}

impl View for AuthError {
    type V = AuthErrorV;

    open spec fn view(&self) -> AuthErrorV {
        match self {
            AuthError::EmptyDeviceCode => AuthErrorV::EmptyDeviceCode,
            AuthError::MissingAccessToken => AuthErrorV::MissingAccessToken,
            AuthError::TokenInvalid => AuthErrorV::TokenInvalid,
            AuthError::Unauthorized => AuthErrorV::Unauthorized,
            AuthError::NotConnected => AuthErrorV::NotConnected,
            AuthError::TokenRevoked => AuthErrorV::TokenRevoked,
            AuthError::DeviceCodeFailed { status } => AuthErrorV::DeviceCodeFailed {
                status: *status,
            },
            AuthError::TokenExchangeFailed { status } => AuthErrorV::TokenExchangeFailed {
                status: *status,
            },
            AuthError::ProfileFailed { status } => AuthErrorV::ProfileFailed { status: *status },
            AuthError::Transport { message } => AuthErrorV::Transport { message: message@ },
        }
    }
}

} // verus!
