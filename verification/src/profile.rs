//! Profile resolution: interpreting the provider's "current user" and
//! email-list responses.
//!
//! The application performs the two HTTP requests and parses the bodies; the
//! functions here decide what each response means and assemble the resulting
//! [`GitHubUserSummary`]. A failure of the secondary email request is always
//! swallowed: a resolvable identity is returned even without an email.

use vstd::prelude::*;

use crate::is_success_status;
use crate::status_is_success;
use crate::text::{is_blank, is_blank_str};
use crate::types::{AuthError, AuthErrorV, GitHubUserSummary, UserV, opt_chars};

verus! {

/// One entry of the account's email list, as the provider reports it.
#[derive(Debug, Clone, PartialEq)]
pub struct EmailEntry {
    pub email: String,
    pub primary: bool,
    pub verified: bool,
}

/// Ghost model of [`EmailEntry`].
pub ghost struct EmailEntryV {
    pub email: Seq<char>,
    pub primary: bool,
    pub verified: bool,
}

impl View for EmailEntry {
    type V = EmailEntryV;

    open spec fn view(&self) -> EmailEntryV {
        EmailEntryV { email: self.email@, primary: self.primary, verified: self.verified }
    }
}

/// Ghost model of an email list.
pub open spec fn emails_view(entries: Seq<EmailEntry>) -> Seq<EmailEntryV> {
    entries.map_values(|e: EmailEntry| e@)
}

/// Body of the provider's "current user" response, already parsed.
#[derive(Debug, Clone, PartialEq)]
pub struct ApiUserProfile {
    pub login: String,
    pub id: u64,
    pub avatar_url: Option<String>,
    pub name: Option<String>,
    pub email: Option<String>,
}

/// Ghost model of [`ApiUserProfile`].
pub ghost struct ApiUserProfileV {
    pub login: Seq<char>,
    pub id: u64,
    pub avatar_url: Option<Seq<char>>,
    pub name: Option<Seq<char>>,
    pub email: Option<Seq<char>>,
}

impl View for ApiUserProfile {
    type V = ApiUserProfileV;

    open spec fn view(&self) -> ApiUserProfileV {
        ApiUserProfileV {
            login: self.login@,
            id: self.id,
            avatar_url: opt_chars(self.avatar_url),
            name: opt_chars(self.name),
            email: opt_chars(self.email),
        }
    }
}

/// Email address of the first entry flagged both primary and verified.
pub open spec fn first_primary_verified(s: Seq<EmailEntryV>) -> Option<Seq<char>>
    decreases s.len(),
{
    if s.len() == 0 {
        None
    } else if s[0].primary && s[0].verified {
        Some(s[0].email)
    } else {
        first_primary_verified(s.drop_first())
    }
}

/// Email address of the first entry flagged verified.
pub open spec fn first_verified(s: Seq<EmailEntryV>) -> Option<Seq<char>>
    decreases s.len(),
{
    if s.len() == 0 {
        None
    } else if s[0].verified {
        Some(s[0].email)
    } else {
        first_verified(s.drop_first())
    }
}

/// Email precedence: the first primary-and-verified entry wins; failing
/// that, the first verified entry; failing that, nothing.
pub open spec fn spec_select_email(s: Seq<EmailEntryV>) -> Option<Seq<char>> {
    if first_primary_verified(s) is Some {
        first_primary_verified(s)
    } else {
        first_verified(s)
    }
}

proof fn lemma_first_primary_verified_skip(s: Seq<EmailEntryV>, i: int)
    requires
        0 <= i <= s.len(),
        forall|j: int| 0 <= j < i ==> !(s[j].primary && s[j].verified),
    ensures
        first_primary_verified(s) == first_primary_verified(s.skip(i)),
    decreases i,
{
    if i == 0 {
        assert(s.skip(0) =~= s);
    } else {
        assert(s.drop_first() =~= s.skip(1));
        lemma_first_primary_verified_skip(s.skip(1), i - 1);
        assert(s.skip(1).skip(i - 1) =~= s.skip(i));
    }
}

proof fn lemma_first_verified_skip(s: Seq<EmailEntryV>, i: int)
    requires
        0 <= i <= s.len(),
        forall|j: int| 0 <= j < i ==> !s[j].verified,
    ensures
        first_verified(s) == first_verified(s.skip(i)),
    decreases i,
{
    if i == 0 {
        assert(s.skip(0) =~= s);
    } else {
        assert(s.drop_first() =~= s.skip(1));
        lemma_first_verified_skip(s.skip(1), i - 1);
        assert(s.skip(1).skip(i - 1) =~= s.skip(i));
    }
}

/// Picks the email the precedence rule selects from the provider's list.
pub fn select_email(entries: &Vec<EmailEntry>) -> (r: Option<String>)
    ensures
        opt_chars(r) == spec_select_email(emails_view(entries@)),
{
    let ghost s = emails_view(entries@);
    let n = entries.len();
    let mut i: usize = 0;
    while i < n
        invariant
            i <= n,
            n == entries.len(),
            s == emails_view(entries@),
            s.len() == n,
            forall|j: int| 0 <= j < i ==> !(s[j].primary && s[j].verified),
        decreases n - i,
    {
        let e = &entries[i];
        if e.primary && e.verified {
            proof {
                lemma_first_primary_verified_skip(s, i as int);
                assert(s.skip(i as int)[0] == s[i as int]);
            }
            return Some(e.email.clone());
        }
        i = i + 1;
    }
    proof {
        lemma_first_primary_verified_skip(s, n as int);
        assert(s.skip(n as int) =~= Seq::<EmailEntryV>::empty());
        assert(first_primary_verified(s) is None);
    }
    let mut k: usize = 0;
    while k < n
        invariant
            k <= n,
            n == entries.len(),
            s == emails_view(entries@),
            s.len() == n,
            first_primary_verified(s) is None,
            forall|j: int| 0 <= j < k ==> !s[j].verified,
        decreases n - k,
    {
        let e = &entries[k];
        if e.verified {
            proof {
                lemma_first_verified_skip(s, k as int);
                assert(s.skip(k as int)[0] == s[k as int]);
            }
            return Some(e.email.clone());
        }
        k = k + 1;
    }
    proof {
        lemma_first_verified_skip(s, n as int);
        assert(s.skip(n as int) =~= Seq::<EmailEntryV>::empty());
    }
    None
}

/// What to do with the email-list response, by its HTTP status.
#[derive(Debug, Clone, PartialEq)]
pub enum EmailStep {
    /// 401: the credential is revoked (callers of the email list swallow
    /// this, but it is reported distinctly).
    Unauthorized,
    /// Any other non-success status: proceed without an email.
    NoEmail,
    /// Success: parse the body and apply the precedence rule.
    ParseBody,
}

/// Decides the email-list step from the response status: 401 is
/// unauthorized, any other non-success means no email, success means the
/// body is worth parsing.
pub fn email_fetch_step(status: u16) -> (r: EmailStep)
    ensures
        status == 401 ==> r == EmailStep::Unauthorized,
        status != 401 && !is_success_status(status) ==> r == EmailStep::NoEmail,
        is_success_status(status) ==> r == EmailStep::ParseBody,
{
    if status == 401 {
        EmailStep::Unauthorized
    } else if !status_is_success(status) {
        EmailStep::NoEmail
    } else {
        EmailStep::ParseBody
    }
}

/// Checks the profile response status: 401 means the credential is revoked,
/// any other non-success status is a hard error carrying that status.
pub fn profile_status_check(status: u16) -> (r: Result<(), AuthError>)
    ensures
        status == 401 ==> (r matches Err(e) && e@ == AuthErrorV::Unauthorized),
        status != 401 && !is_success_status(status) ==> (r matches Err(e) && e@
            == (AuthErrorV::ProfileFailed { status })),
        is_success_status(status) ==> r is Ok,
{
    if status == 401 {
        Err(AuthError::Unauthorized)
    } else if !status_is_success(status) {
        Err(AuthError::ProfileFailed { status })
    } else {
        Ok(())
    }
}

/// Summary built from a parsed profile body, before email enrichment.
pub open spec fn spec_user_of_profile(p: ApiUserProfileV, email: Option<Seq<char>>) -> UserV {
    UserV {
        login: p.login,
        id: Some(p.id),
        avatar_url: p.avatar_url,
        name: p.name,
        email,
    }
}

/// Outcome of reading a parsed profile body.
#[derive(Debug, Clone, PartialEq)]
pub enum ProfileStep {
    /// The profile carries a usable email: the summary is complete.
    Done { user: GitHubUserSummary },
    /// The profile's email is absent or blank: fetch the email list and
    /// finish with [`apply_email`].
    NeedEmails { partial: GitHubUserSummary },
}

/// Whether a parsed profile body already carries a usable (non-blank) email.
pub open spec fn profile_email_usable(p: ApiUserProfileV) -> bool {
    p.email matches Some(e) && !is_blank(e)
}

/// Reads a parsed profile body: when its email is non-blank the summary is
/// complete, otherwise the email list must be consulted.
pub fn profile_payload_step(payload: ApiUserProfile) -> (r: ProfileStep)
    ensures
        profile_email_usable(payload@) ==> (r matches ProfileStep::Done { user } && user@
            == spec_user_of_profile(payload@, payload@.email)),
        !profile_email_usable(payload@) ==> (r matches ProfileStep::NeedEmails { partial }
            && partial@ == spec_user_of_profile(payload@, None)),
{
    let usable = match &payload.email {
        Some(e) => !is_blank_str(e.as_str()),
        None => false,
    };
    let user = GitHubUserSummary {
        login: payload.login,
        id: Some(payload.id),
        avatar_url: payload.avatar_url,
        name: payload.name,
        email: if usable {
            payload.email
        } else {
            None
        },
    };
    if usable {
        ProfileStep::Done { user }
    } else {
        ProfileStep::NeedEmails { partial: user }
    }
}

/// Fills the email of a partially resolved summary. `email` is whatever the
/// email-list request produced, `None` when that request failed in any way
/// (such failures are swallowed by design).
pub fn apply_email(partial: GitHubUserSummary, email: Option<String>) -> (r: GitHubUserSummary)
    ensures
        r@ == (UserV { email: opt_chars(email), ..partial@ }),
{
    GitHubUserSummary {
        login: partial.login,
        id: partial.id,
        avatar_url: partial.avatar_url,
        name: partial.name,
        email,
    }
}

} // verus!
