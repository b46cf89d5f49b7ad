//! Auth status service: connectedness, identity lookup, disconnect.
//!
//! The application loads and deletes the credential file and performs the
//! live profile check; the functions here decide each transition, including
//! the self-healing clear of the store when the provider reports the
//! credential revoked.

use vstd::prelude::*;

use crate::text::{is_blank, is_blank_str};
use crate::types::{
    AuthError, AuthErrorV, AuthStatusV, GitHubAuthStatus, GitHubDisconnectResult,
    GitHubUserSummary, StoredAuth, StoredAuthV, UserV, opt_chars, opt_stored,
};

verus! {

/// The disconnected answer: not connected, no user, no scope.
pub open spec fn spec_disconnected() -> AuthStatusV {
    AuthStatusV { connected: false, user: None, scope: None }
}

/// Builds the disconnected answer.
pub fn disconnected_status() -> (r: GitHubAuthStatus)
    ensures
        r@ == spec_disconnected(),
{
    GitHubAuthStatus { connected: false, user: None, scope: None }
}

/// First transition of a status check, decided from the loaded store.
#[derive(Debug, Clone, PartialEq)]
pub enum StatusStep {
    /// Answer disconnected at once, with no network call; `clear_store`
    /// says whether the (blank) record must be deleted first.
    Disconnected { clear_store: bool },
    /// A credential is stored: validate it live against the provider.
    CheckLive { access_token: String, scope: Option<String> },
}

/// Ghost model of [`StatusStep`].
pub ghost enum StatusStepV {
    Disconnected { clear_store: bool },
    CheckLive { access_token: Seq<char>, scope: Option<Seq<char>> },
}

impl View for StatusStep {
    type V = StatusStepV;

    open spec fn view(&self) -> StatusStepV {
        match self {
            StatusStep::Disconnected { clear_store } => StatusStepV::Disconnected {
                clear_store: *clear_store,
            },
            StatusStep::CheckLive { access_token, scope } => StatusStepV::CheckLive {
                access_token: access_token@,
                scope: opt_chars(*scope),
            },
        }
    }
}

/// First transition of a status check: nothing stored means disconnected
/// with no network call; a blank token means disconnected after deleting
/// the record; otherwise the token must be validated live.
pub open spec fn spec_status_of_store(stored: Option<StoredAuthV>) -> StatusStepV {
    match stored {
        None => StatusStepV::Disconnected { clear_store: false },
        Some(s) => if is_blank(s.access_token) {
            StatusStepV::Disconnected { clear_store: true }
        } else {
            StatusStepV::CheckLive { access_token: s.access_token, scope: s.scope }
        },
    }
}

/// Decides the first step of a status check from the loaded store.
pub fn status_of_store(stored: Option<StoredAuth>) -> (r: StatusStep)
    ensures
        r@ == spec_status_of_store(opt_stored(stored)),
{
    match stored {
        None => StatusStep::Disconnected { clear_store: false },
        Some(s) => {
            if is_blank_str(s.access_token.as_str()) {
                StatusStep::Disconnected { clear_store: true }
            } else {
                StatusStep::CheckLive { access_token: s.access_token, scope: s.scope }
            }
        },
    }
}

/// Second transition of a status check, decided from the live profile
/// fetch.
#[derive(Debug, Clone, PartialEq)]
pub enum StatusOutcome {
    /// The credential is live: connected, with the fresh identity and the
    /// stored scope.
    Connected(GitHubAuthStatus),
    /// The provider answered 401: delete the record, then answer
    /// disconnected.
    ClearAndDisconnect(GitHubAuthStatus),
    /// Any other failure propagates: a transient outage must not destroy a
    /// possibly still valid credential.
    Fail(AuthError),
}

/// Ghost model of [`StatusOutcome`].
pub ghost enum StatusOutcomeV {
    Connected(AuthStatusV),
    ClearAndDisconnect(AuthStatusV),
    Fail(AuthErrorV),
}

impl View for StatusOutcome {
    type V = StatusOutcomeV;

    open spec fn view(&self) -> StatusOutcomeV {
        match self {
            StatusOutcome::Connected(st) => StatusOutcomeV::Connected(st@),
            StatusOutcome::ClearAndDisconnect(st) => StatusOutcomeV::ClearAndDisconnect(st@),
            StatusOutcome::Fail(e) => StatusOutcomeV::Fail(e@),
        }
    }
}

/// Ghost model of a profile-fetch result.
pub open spec fn fetch_view(fetched: Result<GitHubUserSummary, AuthError>) -> Result<
    UserV,
    AuthErrorV,
> {
    match fetched {
        Ok(u) => Ok(u@),
        Err(e) => Err(e@),
    }
}

/// End of a status check: success means connected with the fresh identity
/// and the stored scope; 401 means the record is cleared and the answer is
/// disconnected; any other failure propagates unchanged.
pub open spec fn spec_status_after_profile(
    scope: Option<Seq<char>>,
    fetched: Result<UserV, AuthErrorV>,
) -> StatusOutcomeV {
    match fetched {
        Ok(user) => StatusOutcomeV::Connected(
            AuthStatusV { connected: true, user: Some(user), scope },
        ),
        Err(e) => if e == AuthErrorV::Unauthorized {
            StatusOutcomeV::ClearAndDisconnect(spec_disconnected())
        } else {
            StatusOutcomeV::Fail(e)
        },
    }
}

/// Decides the end of a status check from the live profile fetch.
pub fn status_after_profile(
    scope: Option<String>,
    fetched: Result<GitHubUserSummary, AuthError>,
) -> (r: StatusOutcome)
    ensures
        r@ == spec_status_after_profile(opt_chars(scope), fetch_view(fetched)),
{
    match fetched {
        Ok(user) => StatusOutcome::Connected(
            GitHubAuthStatus { connected: true, user: Some(user), scope },
        ),
        Err(AuthError::Unauthorized) => StatusOutcome::ClearAndDisconnect(disconnected_status()),
        Err(e) => StatusOutcome::Fail(e),
    }
}

/// First transition of an identity lookup: unlike a status check it is an
/// error to not be connected, and a stored token is used as found.
pub open spec fn spec_whoami_of_store(stored: Option<StoredAuthV>) -> Result<
    Seq<char>,
    AuthErrorV,
> {
    match stored {
        None => Err(AuthErrorV::NotConnected),
        Some(s) => Ok(s.access_token),
    }
}

/// Decides the first step of an identity lookup (`whoami`) from the loaded
/// store.
pub fn whoami_of_store(stored: Option<StoredAuth>) -> (r: Result<String, AuthError>)
    ensures
        r matches Ok(token) ==> spec_whoami_of_store(opt_stored(stored)) == Ok::<
            Seq<char>,
            AuthErrorV,
        >(token@),
        r matches Err(e) ==> spec_whoami_of_store(opt_stored(stored)) == Err::<
            Seq<char>,
            AuthErrorV,
        >(e@),
{
    match stored {
        None => Err(AuthError::NotConnected),
        Some(s) => Ok(s.access_token),
    }
}

/// Outcome of an identity lookup, decided from the live profile fetch.
#[derive(Debug, Clone, PartialEq)]
pub enum WhoamiOutcome {
    /// The fresh identity.
    Done(GitHubUserSummary),
    /// The provider answered 401: delete the record, then report the
    /// distinct revocation error (not a silent disconnect).
    ClearAndFail(AuthError),
    /// Any other failure propagates unchanged.
    Fail(AuthError),
}

/// Ghost model of [`WhoamiOutcome`].
pub ghost enum WhoamiOutcomeV {
    Done(UserV),
    ClearAndFail(AuthErrorV),
    Fail(AuthErrorV),
}

impl View for WhoamiOutcome {
    type V = WhoamiOutcomeV;

    open spec fn view(&self) -> WhoamiOutcomeV {
        match self {
            WhoamiOutcome::Done(u) => WhoamiOutcomeV::Done(u@),
            WhoamiOutcome::ClearAndFail(e) => WhoamiOutcomeV::ClearAndFail(e@),
            WhoamiOutcome::Fail(e) => WhoamiOutcomeV::Fail(e@),
        }
    }
}

/// End of an identity lookup: success passes the identity through; 401
/// clears the record and reports the credential revoked; any other failure
/// propagates unchanged.
pub open spec fn spec_whoami_after_profile(fetched: Result<UserV, AuthErrorV>) -> WhoamiOutcomeV {
    match fetched {
        Ok(user) => WhoamiOutcomeV::Done(user),
        Err(e) => if e == AuthErrorV::Unauthorized {
            WhoamiOutcomeV::ClearAndFail(AuthErrorV::TokenRevoked)
        } else {
            WhoamiOutcomeV::Fail(e)
        },
    }
}

/// Decides the end of an identity lookup from the live profile fetch.
pub fn whoami_after_profile(fetched: Result<GitHubUserSummary, AuthError>) -> (r: WhoamiOutcome)
    ensures
        r@ == spec_whoami_after_profile(fetch_view(fetched)),
{
    match fetched {
        Ok(user) => WhoamiOutcome::Done(user),
        Err(AuthError::Unauthorized) => WhoamiOutcome::ClearAndFail(AuthError::TokenRevoked),
        Err(e) => WhoamiOutcome::Fail(e),
    }
}

/// How the attempt to delete the credential file ended, as the filesystem
/// reports it.
#[derive(Debug, Clone, PartialEq)]
pub enum DeleteOutcome {
    /// The file existed and was deleted.
    Deleted,
    /// There was no file to delete.
    NotFound,
    /// The deletion failed for any other reason (including an unresolvable
    /// path).
    Failed,
}

/// Whether a disconnect counts as "removed": deleting an absent file is
/// success (the delete is idempotent); only a real deletion failure is not.
pub fn clear_outcome_removed(outcome: DeleteOutcome) -> (r: bool)
    ensures
        r == (outcome == DeleteOutcome::Deleted || outcome == DeleteOutcome::NotFound),
{
    match outcome {
        DeleteOutcome::Deleted => true,
        DeleteOutcome::NotFound => true,
        DeleteOutcome::Failed => false,
    }
}

/// Packages a disconnect answer.
pub fn disconnect_result(removed: bool) -> (r: GitHubDisconnectResult)
    ensures
        r.removed == removed,
{
    GitHubDisconnectResult { removed }
}

} // verus!
