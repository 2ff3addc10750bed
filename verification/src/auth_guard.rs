//! Auth gateway: the checks that guard every protected route.
//!
//! A request passes when it carries a bearer token that validates and
//! whose subject resolves to an existing account. The checks run strictly
//! in that order; each failure short-circuits with a 401 kind before the
//! wrapped handler is reached. Resolving the subject against the store on
//! every request makes deleting an account an effective instant
//! revocation, even though the token itself stays signed and unexpired.

use vstd::prelude::*;

use crate::errors::ApiError;
use crate::ids::is_uuid_string;
use crate::ids::is_uuid_text;
use crate::models::SignupModel;
use crate::token::token_subject;
use crate::token::validate;

verus! {

/// The token text behind a `Bearer ` prefix of an `Authorization` header
/// value, if the prefix is there.
pub open spec fn bearer_of(h: Seq<char>) -> Option<Seq<char>> {
    if h.len() >= 7 && h.subrange(0, 7) == "Bearer "@ {
        Some(h.skip(7))
    } else {
        None
    }
}

/// [`bearer_of`], lifted over an absent header.
pub open spec fn spec_bearer(header: Option<&str>) -> Option<Seq<char>> {
    match header {
        None => None,
        Some(h) => bearer_of(h@),
    }
}

/// Extract the bearer token from an `Authorization` header value.
pub fn bearer_token(header: Option<&str>) -> (r: Option<String>)
    ensures
        r matches Some(t) ==> spec_bearer(header) == Some(t@),
        r is None ==> spec_bearer(header) is None,
{
    let h = match header {
        Some(h) => h,
        None => {
            return None;
        },
    };
    let n = h.unicode_len();
    if n < 7 {
        return None;
    }
    if h.get_char(0) == 'B' && h.get_char(1) == 'e' && h.get_char(2) == 'a' && h.get_char(3) == 'r'
        && h.get_char(4) == 'e' && h.get_char(5) == 'r' && h.get_char(6) == ' ' {
        proof {
            reveal_strlit("Bearer ");
            assert(h@.subrange(0, 7) =~= "Bearer "@);
        }
        let rest = h.substring_char(7, n);
        Some(rest.to_owned())
    } else {
        proof {
            reveal_strlit("Bearer ");
            assert(h@.subrange(0, 7) != "Bearer "@) by {
                if h@.subrange(0, 7) == "Bearer "@ {
                    assert(h@[0] == h@.subrange(0, 7)[0]);
                    assert(h@[1] == h@.subrange(0, 7)[1]);
                    assert(h@[2] == h@.subrange(0, 7)[2]);
                    assert(h@[3] == h@.subrange(0, 7)[3]);
                    assert(h@[4] == h@.subrange(0, 7)[4]);
                    assert(h@[5] == h@.subrange(0, 7)[5]);
                    assert(h@[6] == h@.subrange(0, 7)[6]);
                }
            }
        }
        None
    }
}

/// What the gateway decides from the header alone, before the store is
/// consulted: no bearer token rejects as not-logged-in; a token that does
/// not validate, or validates to a subject that is not UUID text, rejects
/// as an invalid token; otherwise the subject comes out for resolution.
pub open spec fn auth_outcome(header: Option<&str>, now: int, secret: Seq<u8>) -> Result<
    Seq<char>,
    ApiError,
> {
    match spec_bearer(header) {
        None => Err(ApiError::NotLoggedIn),
        Some(t) => match token_subject(t, now, secret) {
            None => Err(ApiError::InvalidToken),
            Some(sub) => if is_uuid_text(sub) {
                Ok(sub)
            } else {
                Err(ApiError::InvalidToken)
            },
        },
    }
}

/// Run the header checks of the gateway at time `now`: extract the bearer
/// token, validate it, and check the subject's shape. Returns the subject
/// to resolve against the store, or the 401 kind to answer with.
pub fn auth(header: Option<&str>, now: usize, secret: &[u8]) -> (r: Result<String, ApiError>)
    ensures
        r matches Ok(s) ==> auth_outcome(header, now as int, secret@) == Ok::<
            Seq<char>,
            ApiError,
        >(s@),
        r matches Err(e) ==> auth_outcome(header, now as int, secret@) == Err::<
            Seq<char>,
            ApiError,
        >(e),
{
    let tok = match bearer_token(header) {
        Some(t) => t,
        None => {
            return Err(ApiError::NotLoggedIn);
        },
    };
    let sub = match validate(tok.as_str(), now, secret) {
        Ok(s) => s,
        Err(e) => {
            return Err(e);
        },
    };
    if is_uuid_string(sub.as_str()) {
        Ok(sub)
    } else {
        Err(ApiError::InvalidToken)
    }
}

/// Resolve the store's answer for the token's subject: the account when
/// one exists, and the user-gone rejection when none does.
///
/// A token can outlive its account; this is the step that rejects such a
/// token, which makes deleting the account revoke every still-unexpired
/// token for it.
pub fn resolve_user(found: Option<SignupModel>) -> (r: Result<SignupModel, ApiError>)
    ensures
        found matches Some(u) ==> r == Ok::<SignupModel, ApiError>(u),
        found is None ==> r == Err::<SignupModel, ApiError>(ApiError::UserGone),
{
    match found {
        Some(u) => Ok(u),
        None => Err(ApiError::UserGone),
    }
}

} // verus!
