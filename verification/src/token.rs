//! Token issuer and validator: stateless signed session tokens.
//!
//! A session token is a self-contained signed assertion of
//! {subject, issued-at, expires-at}; possession of a validly signed,
//! unexpired token is the sole proof of identity. [`issue`] mints one with
//! a fixed sixty-minute window; [`validate`] verifies the signature first,
//! then checks expiry strictly, then returns the subject. Every rejection
//! is the same generic kind, so the response does not reveal whether a
//! token was malformed, forged or expired.

use vstd::prelude::*;

use crate::errors::ApiError;

verus! {

/// Claims carried inside a session token.
#[derive(Debug, Clone)]
pub struct TokenClaims {
    /// Subject: the account identifier the token asserts.
    pub sub: String,
    /// Issued-at, seconds since the Unix epoch.
    pub iat: usize,
    /// Expires-at, seconds since the Unix epoch.
    pub exp: usize,
}

/// Seconds a freshly issued token stays valid: sixty minutes.
pub const TOKEN_TTL_SECONDS: usize = 3600;

/// The signed token text that minting produces for these claims under this
/// secret. Minting is deterministic (HS256 over a fixed serialization), so
/// the result is a function of the arguments alone.
pub uninterp spec fn jwt_of(sub: Seq<char>, iat: int, exp: int, secret: Seq<u8>) -> Seq<char>;

/// The claims that signature-checked decoding recovers from a token under
/// this secret, or `None` when the signature or shape is rejected.
/// Decoding with the clock checks disabled is deterministic, so the result
/// is a function of the arguments alone.
pub uninterp spec fn jwt_claims_of(token: Seq<char>, secret: Seq<u8>) -> Option<
    (Seq<char>, int, int),
>;

/// Relies on jsonwebtoken's `encode` with HS256: signing is deterministic,
/// and `decode` under the same secret recovers exactly the claims that
/// were signed. In this configuration `encode` cannot fail: the default
/// header and a byte-string key are both of the HMAC family, the HMAC
/// signer accepts a key of any length and its signing step is
/// infallible, and serializing the string-keyed claims map cannot fail.
#[verifier::external_body]
fn jwt_encode(sub: &str, iat: usize, exp: usize, secret: &[u8]) -> (r: String)
    ensures
        r@ == jwt_of(sub@, iat as int, exp as int, secret@),
        jwt_claims_of(r@, secret@) == Some((sub@, iat as int, exp as int)),
{
    let mut claims = std::collections::BTreeMap::new();
    claims.insert("sub".to_string(), serde_json::Value::from(sub));
    claims.insert("iat".to_string(), serde_json::Value::from(iat as u64));
    claims.insert("exp".to_string(), serde_json::Value::from(exp as u64));
    let key = jsonwebtoken::EncodingKey::from_secret(secret);
    jsonwebtoken::encode(&jsonwebtoken::Header::default(), &claims, &key)
        .expect("HS256 signing cannot fail")
}

/// Relies on jsonwebtoken's `decode` with HS256: it accepts a token only
/// if its signature verifies under the secret, and then yields the signed
/// claims. The expiry check is left off here (`validate_exp = false`), so
/// the outcome depends on the token and the secret alone; expiry is
/// checked by [`validate`] itself.
#[verifier::external_body]
fn jwt_decode(token: &str, secret: &[u8]) -> (r: Option<TokenClaims>)
    ensures
        r matches Some(c) ==> jwt_claims_of(token@, secret@) == Some(
            (c.sub@, c.iat as int, c.exp as int),
        ),
        r is None ==> jwt_claims_of(token@, secret@) is None,
{
    let mut v = jsonwebtoken::Validation::new(jsonwebtoken::Algorithm::HS256);
    v.validate_exp = false;
    v.required_spec_claims.clear();
    let key = jsonwebtoken::DecodingKey::from_secret(secret);
    let d = jsonwebtoken::decode::<std::collections::BTreeMap<String, serde_json::Value>>(
        token,
        &key,
        &v,
    ).ok()?;
    let sub = d.claims.get("sub")?.as_str()?.to_string();
    let iat = d.claims.get("iat")?.as_u64()?;
    let exp = d.claims.get("exp")?.as_u64()?;
    Some(TokenClaims { sub, iat: iat as usize, exp: exp as usize })
}

/// The subject a token asserts at time `now` under `secret`: the signed
/// subject while the signature verifies and the expiry lies strictly in
/// the future, and nothing otherwise.
pub open spec fn token_subject(token: Seq<char>, now: int, secret: Seq<u8>) -> Option<Seq<char>> {
    match jwt_claims_of(token, secret) {
        Some((sub, _iat, exp)) => if now < exp {
            Some(sub)
        } else {
            None
        },
        None => None,
    }
}

/// Mint a token asserting `subject` from `now` for the fixed window.
///
/// Minting always succeeds: HS256 signing under a byte-string secret
/// cannot fail. The result is exactly the signed token for these claims,
/// and decodes back to them.
pub fn issue(subject: &str, now: usize, secret: &[u8]) -> (r: Result<String, ApiError>)
    requires
        now + TOKEN_TTL_SECONDS <= usize::MAX,
    ensures
        r matches Ok(t) && t@ == jwt_of(
            subject@,
            now as int,
            now + TOKEN_TTL_SECONDS,
            secret@,
        ) && jwt_claims_of(t@, secret@) == Some(
            (subject@, now as int, now + TOKEN_TTL_SECONDS as int),
        ),
{
    let exp = now + TOKEN_TTL_SECONDS;
    Ok(jwt_encode(subject, now, exp, secret))
}

/// Validate a presented token at time `now`: signature first, then strict
/// expiry (`now >= expires-at` rejects), then return the subject.
///
/// Exactly the tokens whose [`token_subject`] is some subject are
/// accepted; every rejection is the same generic kind.
pub fn validate(token: &str, now: usize, secret: &[u8]) -> (r: Result<String, ApiError>)
    ensures
        r matches Ok(s) ==> token_subject(token@, now as int, secret@) == Some(s@),
        r matches Err(e) ==> token_subject(token@, now as int, secret@) is None && e
            == ApiError::InvalidToken,
{
    match jwt_decode(token, secret) {
        Some(c) => {
            if now < c.exp {
                Ok(c.sub)
            } else {
                Err(ApiError::InvalidToken)
            }
        },
        None => Err(ApiError::InvalidToken),
    }
}

/// Law: a token carrying signed claims `(sub, iat, exp)` asserts `sub` at
/// every time strictly before `exp`, and asserts nothing from `exp` on.
/// In particular a token minted by [`issue`] keeps returning its subject
/// until the window elapses and fails afterwards.
pub proof fn lemma_issue_then_validate(
    token: Seq<char>,
    sub: Seq<char>,
    iat: int,
    exp: int,
    now: int,
    secret: Seq<u8>,
)
    requires
        jwt_claims_of(token, secret) == Some((sub, iat, exp)),
    ensures
        now < exp ==> token_subject(token, now, secret) == Some(sub),
        now >= exp ==> token_subject(token, now, secret) is None,
{
}

/// Law: a token is accepted only when its signature verifies under the
/// current signing secret; whatever does not decode under the secret —
/// a forged or tampered token — asserts no subject at any time.
pub proof fn lemma_unsigned_token_rejected(token: Seq<char>, now: int, secret: Seq<u8>)
    requires
        jwt_claims_of(token, secret) is None,
    ensures
        token_subject(token, now, secret) is None,
{
}

} // verus!
