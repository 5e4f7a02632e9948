//! Records of signing in, and what a request must carry to be let in.

use crate::calendar::Timestamp;
use crate::text::str_eq;
use vstd::prelude::*;

verus! {

#[derive(Clone, Debug, PartialEq, Eq)]
pub struct SendVerificationCodeRequest {
    pub email: String,
}

#[derive(Clone, Debug, PartialEq, Eq)]
pub struct VerifyCodeRequest {
    pub email: String,
    pub code: String,
}

#[derive(Clone, Debug, PartialEq, Eq)]
pub struct UserInfo {
    pub id: i32,
    pub email: String,
    pub display_name: Option<String>,
    pub role: Option<String>,
}

#[derive(Clone, Debug, PartialEq, Eq)]
pub struct AuthResponse {
    pub token: String,
    pub user: UserInfo,
}

#[derive(Clone, Debug, PartialEq, Eq)]
pub struct SendCodeResponse {
    pub message: String,
    /// The code itself, where no mail could be sent.
    pub code: Option<String>,
}

/// A code sent to a mail address, and until when it counts.
#[derive(Clone, Debug, PartialEq, Eq)]
pub struct VerificationCode {
    pub email: String,
    pub code: String,
    pub expires_at: Timestamp,
}

/// Why a code was not taken.
#[derive(Clone, Copy, Debug, PartialEq, Eq, Structural)]
pub enum CodeError {
    /// No code is known for the address.
    Missing,
    /// The code's time is over.
    Expired,
    /// The code is another one.
    Mismatch,
}

/// What is made of the code `given` at the time `now`, where `stored` is
/// what is known for the address: nothing known, then a code whose time is
/// over, then another code than the one given.
pub open spec fn code_fault(stored: Option<VerificationCode>, given: Seq<char>, now: Timestamp) -> Option<
    CodeError,
> {
    match stored {
        None => Some(CodeError::Missing),
        Some(known) => if known.expires_at.precedes(&now) {
            Some(CodeError::Expired)
        } else if known.code@ != given {
            Some(CodeError::Mismatch)
        } else {
            None
        },
    }
}

/// Checks the code `given` at the time `now` against what is known for the address.
pub fn check_code(stored: Option<&VerificationCode>, given: &str, now: &Timestamp) -> (verdict:
    Result<(), CodeError>)
    ensures
        verdict is Ok <==> code_fault(
            match stored {
                Some(known) => Some(*known),
                None => None,
            },
            given@,
            *now,
        ) is None,
        verdict matches Err(e) ==> Some(e) == code_fault(
            match stored {
                Some(known) => Some(*known),
                None => None,
            },
            given@,
            *now,
        ),
{
    match stored {
        None => Err(CodeError::Missing),
        Some(known) => {
            if known.expires_at.is_before(now) {
                Err(CodeError::Expired)
            } else if !str_eq(known.code.as_str(), given) {
                Err(CodeError::Mismatch)
            } else {
                Ok(())
            }
        },
    }
}

/// Who a token says its bearer is.
#[derive(Clone, Debug, PartialEq, Eq)]
pub struct Claims {
    pub user_id: i32,
    pub username: String,
}

/// Why a request was not let in.
#[derive(Clone, Copy, Debug, PartialEq, Eq, Structural)]
pub enum AuthError {
    MissingToken,
    InvalidToken,
}

impl AuthError {
    pub open spec fn text(self) -> Seq<char> {
        match self {
            AuthError::MissingToken => "Missing authorization token"@,
            AuthError::InvalidToken => "Invalid token"@,
        }
    }

    /// What the caller is told.
    pub fn message(&self) -> (text: &'static str)
        ensures
            text@ == self.text(),
    {
        match self {
            AuthError::MissingToken => "Missing authorization token",
            AuthError::InvalidToken => "Invalid token",
        }
    }

    /// The HTTP status that goes with the refusal: 401 for either.
    pub fn status_code(&self) -> (code: u16)
        ensures
            code == 401,
    {
        401
    }
}

/// What stands before the token in an authorization header.
pub const BEARER_PREFIX: &'static str = "Bearer ";

/// The token that an authorization header carries: what follows the
/// prefix, where the header begins with it.
pub open spec fn bearer_token_text(header: Seq<char>) -> Option<Seq<char>> {
    if BEARER_PREFIX@.len() <= header.len() && header.subrange(0, BEARER_PREFIX@.len() as int)
        == BEARER_PREFIX@ {
        Some(header.skip(BEARER_PREFIX@.len() as int))
    } else {
        None
    }
}

/// The token of a request: missing where the request has no authorization
/// header, invalid where the header does not begin with the prefix.
pub fn bearer_token(header: Option<&str>) -> (token: Result<String, AuthError>)
    ensures
        match header {
            None => token == Err::<String, AuthError>(AuthError::MissingToken),
            Some(h) => match bearer_token_text(h@) {
                Some(t) => token matches Ok(found) && found@ == t,
                None => token == Err::<String, AuthError>(AuthError::InvalidToken),
            },
        },
{
    let h = match header {
        Some(h) => h,
        None => {
            return Err(AuthError::MissingToken);
        },
    };
    proof {
        reveal_strlit("Bearer ");
    }
    let len = h.unicode_len();
    if len < 7 {
        return Err(AuthError::InvalidToken);
    }
    if !str_eq(h.substring_char(0, 7), BEARER_PREFIX) {
        return Err(AuthError::InvalidToken);
    }
    assert(h@.subrange(7, len as int) =~= h@.skip(7));
    Ok(h.substring_char(7, len).to_string())
}

} // verus!
