//! Laws of the flow, proved once and for all inputs.
//!
//! Each proof function here relates the decision functions of several
//! modules; the scenario-sized facts live in the contracts of the functions
//! themselves.

use vstd::prelude::*;

use crate::device_flow::spec_stored_auth;
use crate::profile::{EmailEntryV, first_primary_verified, first_verified, spec_select_email};
use crate::status::{
    StatusOutcomeV, StatusStepV, spec_disconnected, spec_status_after_profile,
    spec_status_of_store,
};
use crate::text::is_blank;
use crate::types::{AuthErrorV, AuthStatusV, UserV};

verus! {

/// A stored record with a blank access token is treated as no credential:
/// the status check answers disconnected and deletes the record, with no
/// network call.
pub proof fn lemma_blank_token_disconnects(stored: crate::types::StoredAuthV)
    requires
        is_blank(stored.access_token),
    ensures
        spec_status_of_store(Some(stored)) == (StatusStepV::Disconnected { clear_store: true }),
{
}

/// With nothing stored, the status check short-circuits: it answers
/// disconnected before any network call, and deletes nothing.
pub proof fn lemma_no_store_short_circuits()
    ensures
        spec_status_of_store(None) == (StatusStepV::Disconnected { clear_store: false }),
{
}

/// Round trip of a successful completion: the record it persists carries a
/// live token, so the next status check validates exactly that token and,
/// when the provider confirms it, reports connected with the freshly
/// resolved user and the stored scope.
pub proof fn lemma_complete_then_status(
    access_token: Seq<char>,
    scope: Option<Seq<char>>,
    token_type: Option<Seq<char>>,
    now_millis: u64,
    user: UserV,
    fresh: UserV,
)
    requires
        !is_blank(access_token),
    ensures
        spec_status_of_store(
            Some(spec_stored_auth(access_token, scope, token_type, now_millis, user)),
        ) == (StatusStepV::CheckLive { access_token, scope }),
        spec_status_after_profile(scope, Ok(fresh)) == StatusOutcomeV::Connected(
            AuthStatusV { connected: true, user: Some(fresh), scope },
        ),
{
}

/// Revocation self-heals idempotently: a 401 during the status check clears
/// the record and answers disconnected, and a repeated check then finds no
/// record and answers the same disconnected result with nothing left to
/// clear.
pub proof fn lemma_revocation_clears_idempotently(scope: Option<Seq<char>>)
    ensures
        spec_status_after_profile(scope, Err(AuthErrorV::Unauthorized))
            == StatusOutcomeV::ClearAndDisconnect(spec_disconnected()),
        spec_status_of_store(None) == (StatusStepV::Disconnected { clear_store: false }),
{
}

proof fn lemma_first_primary_verified_sound(s: Seq<EmailEntryV>)
    ensures
        first_primary_verified(s) matches Some(e) ==> exists|i: int|
            0 <= i < s.len() && s[i].primary && s[i].verified && s[i].email == e,
        first_primary_verified(s) is None ==> forall|i: int|
            0 <= i < s.len() ==> !(s[i].primary && s[i].verified),
    decreases s.len(),
{
    if s.len() > 0 && !(s[0].primary && s[0].verified) {
        lemma_first_primary_verified_sound(s.drop_first());
        match first_primary_verified(s) {
            Some(e) => {
                let j = choose|j: int|
                    0 <= j < s.drop_first().len() && s.drop_first()[j].primary
                        && s.drop_first()[j].verified && s.drop_first()[j].email == e;
                assert(s[j + 1] == s.drop_first()[j]);
            },
            None => {
                assert(forall|i: int|
                    1 <= i < s.len() ==> s.drop_first()[i - 1] == #[trigger] s[i]);
            },
        }
    }
}

proof fn lemma_first_verified_sound(s: Seq<EmailEntryV>)
    ensures
        first_verified(s) matches Some(e) ==> exists|i: int|
            0 <= i < s.len() && s[i].verified && s[i].email == e,
        first_verified(s) is None ==> forall|i: int| 0 <= i < s.len() ==> !s[i].verified,
    decreases s.len(),
{
    if s.len() > 0 && !s[0].verified {
        lemma_first_verified_sound(s.drop_first());
        match first_verified(s) {
            Some(e) => {
                let j = choose|j: int|
                    0 <= j < s.drop_first().len() && s.drop_first()[j].verified
                        && s.drop_first()[j].email == e;
                assert(s[j + 1] == s.drop_first()[j]);
            },
            None => {
                assert(forall|i: int|
                    1 <= i < s.len() ==> s.drop_first()[i - 1] == #[trigger] s[i]);
            },
        }
    }
}

/// Email selection is sound: a selected address belongs to a verified entry
/// of the list, and nothing is selected exactly when no entry is verified.
pub proof fn lemma_select_email_sound(s: Seq<EmailEntryV>)
    ensures
        spec_select_email(s) matches Some(e) ==> exists|i: int|
            0 <= i < s.len() && s[i].verified && s[i].email == e,
        spec_select_email(s) is None ==> forall|i: int| 0 <= i < s.len() ==> !s[i].verified,
{
    lemma_first_primary_verified_sound(s);
    lemma_first_verified_sound(s);
}

} // verus!
