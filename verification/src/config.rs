//! Configuration resolution: client identifier and requested scopes.
//!
//! The application reads the raw settings values (or nothing, when the
//! settings store fails or lacks the keys) and hands them in; resolution
//! itself never fails. A blank or absent value falls back to the built-in
//! default; anything else is used trimmed.

use vstd::prelude::*;

use crate::text::{is_blank, is_blank_str, lemma_blank_iff_trim_empty, trim_spec, trim_str};

verus! {

/// Built-in OAuth client identifier, used when settings give none.
pub const DEFAULT_CLIENT_ID: &'static str = "Ov23liNd8TxDcMXtAHHM";

/// Built-in space-delimited scope list, used when settings give none.
pub const DEFAULT_SCOPES: &'static str = "repo read:org workflow read:user user:email";

/// Client identifier and scopes a flow start will send.
#[derive(Debug, Clone, PartialEq)]
pub struct ClientConfig {
    pub client_id: String,
    pub scopes: String,
}

/// A raw settings value normalized: trimmed, and dropped when blank.
pub open spec fn spec_normalize_setting(v: Option<Seq<char>>) -> Option<Seq<char>> {
    match v {
        Some(s) => if is_blank(s) {
            None
        } else {
            Some(trim_spec(s))
        },
        None => None,
    }
}

/// What one configuration entry resolves to: the normalized override when
/// there is one, else the default.
pub open spec fn spec_resolve_setting(v: Option<Seq<char>>, default: Seq<char>) -> Seq<char> {
    match spec_normalize_setting(v) {
        Some(s) => s,
        None => default,
    }
}

/// Ghost model of an optional borrowed string.
pub open spec fn spec_of_opt_str(v: Option<&str>) -> Option<Seq<char>> {
    match v {
        Some(s) => Some(s@),
        None => None,
    }
}

/// Trims a raw settings value and drops it when blank.
pub fn normalize_setting(v: Option<&str>) -> (r: Option<String>)
    ensures
        r matches Some(s) ==> spec_normalize_setting(spec_of_opt_str(v)) == Some(s@),
        r is None ==> spec_normalize_setting(spec_of_opt_str(v)) is None,
{
    match v {
        None => None,
        Some(s) => {
            proof {
                lemma_blank_iff_trim_empty(s@);
            }
            let t = trim_str(s);
            if t.as_str().unicode_len() == 0 {
                None
            } else {
                Some(t)
            }
        },
    }
}

/// Resolves the client configuration from the two raw settings values.
/// Resolution never fails: a blank, missing or unreadable value means the
/// built-in default applies, and a well-formed override is used verbatim
/// (after trimming).
pub fn resolve_client_config(client_id_setting: Option<&str>, scopes_setting: Option<&str>) -> (r:
    ClientConfig)
    ensures
        r.client_id@ == spec_resolve_setting(spec_of_opt_str(client_id_setting), DEFAULT_CLIENT_ID@),
        r.scopes@ == spec_resolve_setting(spec_of_opt_str(scopes_setting), DEFAULT_SCOPES@),
{
    let client_id = match normalize_setting(client_id_setting) {
        Some(s) => s,
        None => DEFAULT_CLIENT_ID.to_owned(),
    };
    let scopes = match normalize_setting(scopes_setting) {
        Some(s) => s,
        None => DEFAULT_SCOPES.to_owned(),
    };
    ClientConfig { client_id, scopes }
}

} // verus!
