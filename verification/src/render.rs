//! Rendering errors for display.
//!
//! Every failure is surfaced to the caller as a descriptive message; the
//! message of each [`AuthError`] variant, including its decimal-rendered
//! HTTP status where it carries one, is fixed here.

use vstd::prelude::*;

use crate::types::{AuthError, AuthErrorV};

verus! {

/// The character of one decimal digit.
pub open spec fn digit_char(d: nat) -> char {
    if d == 0 {
        '0'
    } else if d == 1 {
        '1'
    } else if d == 2 {
        '2'
    } else if d == 3 {
        '3'
    } else if d == 4 {
        '4'
    } else if d == 5 {
        '5'
    } else if d == 6 {
        '6'
    } else if d == 7 {
        '7'
    } else if d == 8 {
        '8'
    } else {
        '9'
    }
}

/// Decimal rendering of a number, most significant digit first, with no
/// leading zero except for the number zero itself.
pub open spec fn dec_str(n: nat) -> Seq<char>
    decreases n,
{
    if n < 10 {
        seq![digit_char(n)]
    } else {
        dec_str(n / 10) + seq![digit_char(n % 10)]
    }
}

/// Relies on String::push_str: appends the slice to the string.
#[verifier::external_body]
fn push_str(s: &mut String, other: &str)
    ensures
        final(s)@ == old(s)@ + other@,
{
    s.push_str(other)
}

/// The one-character string of one decimal digit.
fn digit_literal(d: u16) -> (r: &'static str)
    requires
        d < 10,
    ensures
        r@ =~= seq![digit_char(d as nat)],
{
    if d == 0 {
        proof {
            reveal_strlit("0");
        }
        "0"
    } else if d == 1 {
        proof {
            reveal_strlit("1");
        }
        "1"
    } else if d == 2 {
        proof {
            reveal_strlit("2");
        }
        "2"
    } else if d == 3 {
        proof {
            reveal_strlit("3");
        }
        "3"
    } else if d == 4 {
        proof {
            reveal_strlit("4");
        }
        "4"
    } else if d == 5 {
        proof {
            reveal_strlit("5");
        }
        "5"
    } else if d == 6 {
        proof {
            reveal_strlit("6");
        }
        "6"
    } else if d == 7 {
        proof {
            reveal_strlit("7");
        }
        "7"
    } else if d == 8 {
        proof {
            reveal_strlit("8");
        }
        "8"
    } else {
        proof {
            reveal_strlit("9");
        }
        "9"
    }
}

/// Renders a number in decimal.
pub fn u16_to_dec(n: u16) -> (r: String)
    ensures
        r@ == dec_str(n as nat),
    decreases n,
{
    if n < 10 {
        digit_literal(n).to_owned()
    } else {
        let mut s = u16_to_dec(n / 10);
        push_str(&mut s, digit_literal(n % 10));
        s
    }
}

/// The display message of each error.
pub open spec fn spec_message(e: AuthErrorV) -> Seq<char> {
    match e {
        AuthErrorV::EmptyDeviceCode => "deviceCode is required"@,
        AuthErrorV::MissingAccessToken => "Missing access_token from GitHub"@,
        AuthErrorV::TokenInvalid => "GitHub token invalid"@,
        AuthErrorV::Unauthorized => "unauthorized"@,
        AuthErrorV::NotConnected => "GitHub not connected"@,
        AuthErrorV::TokenRevoked => "GitHub token expired or revoked"@,
        AuthErrorV::DeviceCodeFailed { status } => "GitHub device code failed: "@ + dec_str(
            status as nat,
        ),
        AuthErrorV::TokenExchangeFailed { status } => "GitHub token exchange failed: "@ + dec_str(
            status as nat,
        ),
        AuthErrorV::ProfileFailed { status } => "GitHub /user failed: "@ + dec_str(status as nat),
        AuthErrorV::Transport { message } => message,
    }
}

impl AuthError {
    /// Renders the error as the caller displays or logs it.
    pub fn message(&self) -> (r: String)
        ensures
            r@ == spec_message(self@),
    {
        match self {
            AuthError::EmptyDeviceCode => "deviceCode is required".to_owned(),
            AuthError::MissingAccessToken => "Missing access_token from GitHub".to_owned(),
            AuthError::TokenInvalid => "GitHub token invalid".to_owned(),
            AuthError::Unauthorized => "unauthorized".to_owned(),
            AuthError::NotConnected => "GitHub not connected".to_owned(),
            AuthError::TokenRevoked => "GitHub token expired or revoked".to_owned(),
            AuthError::DeviceCodeFailed { status } => {
                let mut s = "GitHub device code failed: ".to_owned();
                let digits = u16_to_dec(*status);
                push_str(&mut s, digits.as_str());
                s
            },
            AuthError::TokenExchangeFailed { status } => {
                let mut s = "GitHub token exchange failed: ".to_owned();
                let digits = u16_to_dec(*status);
                push_str(&mut s, digits.as_str());
                s
            },
            AuthError::ProfileFailed { status } => {
                let mut s = "GitHub /user failed: ".to_owned();
                let digits = u16_to_dec(*status);
                push_str(&mut s, digits.as_str());
                s
            },
            AuthError::Transport { message } => message.clone(),
        }
    }
}

} // verus!
