use authgate::auth_guard::auth;
use authgate::auth_guard::bearer_token;
use authgate::auth_guard::resolve_user;
use authgate::errors::ApiError;
use authgate::ids::new_uuid;
use authgate::models::SignupModel;
use authgate::token::issue;

const SECRET: &[u8] = b"gateway-test-secret";

fn account(id: &str) -> SignupModel {
    SignupModel {
        id: String::from(id),
        full_name: String::from("A B"),
        username: String::from("ab"),
        password: String::from("$argon2id$placeholder"),
        created_at: 1_700_000_000,
        updated_at: 1_700_000_000,
    }
}

#[test]
fn bearer_token_extracts_suffix() {
    assert_eq!(
        bearer_token(Some("Bearer abc.def.ghi")),
        Some(String::from("abc.def.ghi"))
    );
    assert_eq!(bearer_token(Some("Bearer ")), Some(String::from("")));
}

#[test]
fn bearer_token_requires_prefix() {
    assert_eq!(bearer_token(None), None);
    assert_eq!(bearer_token(Some("")), None);
    assert_eq!(bearer_token(Some("Basic abc")), None);
    assert_eq!(bearer_token(Some("bearer abc")), None);
    assert_eq!(bearer_token(Some("Bearer")), None);
}

#[test]
fn auth_accepts_fresh_token() {
    let now = 1_700_000_000usize;
    let id = new_uuid();
    let token = issue(&id, now, SECRET).unwrap();
    let header = format!("Bearer {}", token);
    let subject = auth(Some(&header), now, SECRET).unwrap();
    assert_eq!(subject, id);
}

#[test]
fn auth_rejects_missing_header() {
    let r = auth(None, 1_700_000_000, SECRET);
    assert_eq!(r, Err(ApiError::NotLoggedIn));
    let e = r.unwrap_err();
    assert_eq!(e.status(), 401);
    assert_eq!(e.message(), "You are not logged in, please provide token");
}

#[test]
fn auth_rejects_header_without_bearer() {
    assert_eq!(
        auth(Some("Token xyz"), 1_700_000_000, SECRET),
        Err(ApiError::NotLoggedIn)
    );
}

#[test]
fn auth_rejects_invalid_token() {
    let r = auth(Some("Bearer not.a.token"), 1_700_000_000, SECRET);
    assert_eq!(r, Err(ApiError::InvalidToken));
    assert_eq!(r.unwrap_err().status(), 401);
}

#[test]
fn auth_rejects_expired_token() {
    let now = 1_700_000_000usize;
    let id = new_uuid();
    let token = issue(&id, now, SECRET).unwrap();
    let header = format!("Bearer {}", token);
    assert_eq!(
        auth(Some(&header), now + 3600, SECRET),
        Err(ApiError::InvalidToken)
    );
}

#[test]
fn auth_rejects_non_uuid_subject() {
    let now = 1_700_000_000usize;
    let token = issue("not-a-uuid", now, SECRET).unwrap();
    let header = format!("Bearer {}", token);
    assert_eq!(
        auth(Some(&header), now, SECRET),
        Err(ApiError::InvalidToken)
    );
}

#[test]
fn resolve_user_passes_existing_account() {
    let acc = account("11111111-2222-3333-4444-555555555555");
    let resolved = resolve_user(Some(acc)).unwrap();
    assert_eq!(resolved.id, "11111111-2222-3333-4444-555555555555");
}

#[test]
fn deleted_account_revokes_unexpired_token() {
    // A still-unexpired token whose account is gone must be rejected at
    // the resolution step.
    let now = 1_700_000_000usize;
    let id = new_uuid();
    let token = issue(&id, now, SECRET).unwrap();
    let header = format!("Bearer {}", token);
    let subject = auth(Some(&header), now + 1800, SECRET).unwrap();
    assert_eq!(subject, id);
    let r = resolve_user(None);
    assert!(r.is_err());
    let e = r.err().unwrap();
    assert_eq!(e, ApiError::UserGone);
    assert_eq!(e.status(), 401);
    assert_eq!(e.message(), "The user belonging to this token no longer exists");
}
