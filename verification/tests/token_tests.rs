use authgate::errors::ApiError;
use authgate::token::issue;
use authgate::token::validate;
use authgate::token::TOKEN_TTL_SECONDS;

const SECRET: &[u8] = b"unit-test-signing-secret";

#[test]
fn issue_then_validate_returns_subject() {
    let token = issue("account-17", 1_700_000_000, SECRET).unwrap();
    let subject = validate(&token, 1_700_000_000, SECRET).unwrap();
    assert_eq!(subject, "account-17");
}

#[test]
fn token_valid_until_window_elapses() {
    let now = 1_700_000_000usize;
    let token = issue("acct", now, SECRET).unwrap();
    assert!(validate(&token, now + TOKEN_TTL_SECONDS - 1, SECRET).is_ok());
    assert_eq!(
        validate(&token, now + TOKEN_TTL_SECONDS, SECRET),
        Err(ApiError::InvalidToken)
    );
    assert_eq!(
        validate(&token, now + TOKEN_TTL_SECONDS + 1, SECRET),
        Err(ApiError::InvalidToken)
    );
}

#[test]
fn tampered_signature_rejected() {
    let now = 1_700_000_000usize;
    let token = issue("acct", now, SECRET).unwrap();
    let dot = token.rfind('.').unwrap();
    let (head, signature) = token.split_at(dot + 1);
    // Flip one bit of the first signature character by swapping it for a
    // different base64url character.
    let first = signature.as_bytes()[0];
    let flipped = if first == b'A' { b'B' } else { b'A' };
    let mut bytes = Vec::new();
    bytes.extend_from_slice(head.as_bytes());
    bytes.push(flipped);
    bytes.extend_from_slice(&signature.as_bytes()[1..]);
    let tampered = String::from_utf8(bytes).unwrap();
    assert_ne!(tampered, token);
    assert_eq!(validate(&tampered, now, SECRET), Err(ApiError::InvalidToken));
}

#[test]
fn wrong_secret_rejected() {
    let now = 1_700_000_000usize;
    let token = issue("acct", now, SECRET).unwrap();
    assert_eq!(
        validate(&token, now, b"another-secret"),
        Err(ApiError::InvalidToken)
    );
}

#[test]
fn garbage_tokens_rejected() {
    let now = 1_700_000_000usize;
    assert_eq!(validate("", now, SECRET), Err(ApiError::InvalidToken));
    assert_eq!(validate("abc", now, SECRET), Err(ApiError::InvalidToken));
    assert_eq!(
        validate("aaaa.bbbb.cccc", now, SECRET),
        Err(ApiError::InvalidToken)
    );
}
