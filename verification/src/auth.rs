//! Login and signup flows.
//!
//! The store lookup happens at the caller's edge; both flows take its
//! result as a value and decide everything else here: password
//! verification and token minting for login, uniqueness rejection,
//! hashing and record assembly for signup. Usernames reach the store
//! case-folded, which is what makes them case-insensitively unique.

use vstd::prelude::*;

use crate::errors::ApiError;
use crate::ids::new_uuid;
use crate::models::LoginModel;
use crate::models::SignupModel;
use crate::password::hash;
use crate::password::hash_matches;
use crate::password::verify;
use crate::text::fold_lower;
use crate::text::lemma_fold_lower_idempotent;
use crate::text::fold_username;
use crate::token::issue;
use crate::token::jwt_claims_of;
use crate::token::jwt_of;
use crate::token::TOKEN_TTL_SECONDS;

verus! {

/// Relies on chrono's `Utc::now`: the wall clock, as whole seconds since
/// the Unix epoch.
#[verifier::external_body]
fn now_unix() -> (r: i64) {
    chrono::Utc::now().timestamp()
}

/// Decide a login request, given the store's answer for the case-folded
/// username.
///
/// No account rejects as invalid credentials (a 400, worded exactly like
/// the wrong-password case so that the response does not reveal whether
/// the account exists); a password that does not verify against the
/// stored hash rejects as a wrong password (a 401); otherwise the signed
/// token for the account's identifier, minted from `now`, comes back —
/// success is owed, since HS256 signing cannot fail.
pub fn login(
    user: Option<&SignupModel>,
    credentials: &LoginModel,
    now: usize,
    secret: &[u8],
) -> (r: Result<String, ApiError>)
    requires
        now + TOKEN_TTL_SECONDS <= usize::MAX,
    ensures
        user is None ==> r == Err::<String, ApiError>(ApiError::InvalidCredentials),
        user matches Some(u) ==> {
            &&& !hash_matches(credentials.password@, u.password@) ==> r == Err::<
                String,
                ApiError,
            >(ApiError::WrongPassword)
            &&& hash_matches(credentials.password@, u.password@) ==> (r matches Ok(t) && t@
                == jwt_of(u.id@, now as int, now + TOKEN_TTL_SECONDS, secret@)
                && jwt_claims_of(t@, secret@) == Some(
                (u.id@, now as int, now + TOKEN_TTL_SECONDS as int),
            ))
        },
{
    let u = match user {
        Some(u) => u,
        None => {
            return Err(ApiError::InvalidCredentials);
        },
    };
    if !verify(credentials.password.as_str(), u.password.as_str()) {
        return Err(ApiError::WrongPassword);
    }
    issue(u.id.as_str(), now, secret)
}

/// Decide a signup request, given the store's answer for the case-folded
/// username.
///
/// An existing account under that username rejects as taken; otherwise
/// the password is hashed with a fresh salt and a new record is built:
/// fresh UUID identifier, the case-folded username, the hash (never the
/// plaintext), and equal creation and update timestamps. Inserting the
/// record is the caller's edge.
pub fn signup(
    existing: Option<&SignupModel>,
    full_name: &str,
    username: &str,
    password: &str,
) -> (r: Result<SignupModel, ApiError>)
    ensures
        existing is Some ==> r == Err::<SignupModel, ApiError>(ApiError::UsernameTaken),
        existing is None ==> match r {
            Ok(acc) => {
                &&& acc.wf()
                &&& acc.username@ == fold_lower(username@)
                &&& acc.full_name@ == full_name@
                &&& hash_matches(password@, acc.password@)
                &&& acc.created_at == acc.updated_at
            },
            Err(e) => e matches ApiError::HashFailure(_),
        },
{
    if existing.is_some() {
        return Err(ApiError::UsernameTaken);
    }
    let hashed = match hash(password) {
        Ok(h) => h,
        Err(e) => {
            return Err(e);
        },
    };
    let now = now_unix();
    let account = SignupModel {
        id: new_uuid(),
        full_name: full_name.to_owned(),
        username: fold_username(username),
        password: hashed,
        created_at: now,
        updated_at: now,
    };
    proof {
        lemma_fold_lower_idempotent(username@);
    }
    Ok(account)
}

} // verus!
