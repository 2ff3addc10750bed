use authgate::auth::login;
use authgate::auth::signup;
use authgate::errors::ApiError;
use authgate::models::LoginModel;
use authgate::ids::is_uuid_string;
use authgate::text::fold_username;
use authgate::token::validate;

const SECRET: &[u8] = b"flow-test-secret";
const NOW: usize = 1_700_000_000;

#[test]
fn signup_then_duplicate_with_other_case_is_taken() {
    // First signup: no account exists under "user1" yet.
    let acc = signup(None, "A B", "User1", "pw").unwrap();
    assert_eq!(acc.username, "user1");
    assert_eq!(acc.full_name, "A B");
    assert!(is_uuid_string(&acc.id));
    assert_eq!(acc.created_at, acc.updated_at);
    assert_ne!(acc.password, "pw");

    // Duplicate signup with a different case folds to the same username,
    // so the lookup finds the first account and the request is rejected.
    assert_eq!(fold_username("user1"), fold_username("User1"));
    let r = signup(Some(&acc), "A B", "user1", "pw");
    assert_eq!(r.clone().err().map(|e| e.status()), Some(400));
    let e = r.err().unwrap();
    assert_eq!(e, ApiError::UsernameTaken);
    assert_eq!(e.message(), "Username already taken");
}

#[test]
fn login_with_wrong_password_is_401() {
    let acc = signup(None, "A B", "user1", "pw").unwrap();
    let creds = LoginModel { username: String::from("user1"), password: String::from("wrong") };
    let r = login(Some(&acc), &creds, NOW, SECRET);
    assert_eq!(r, Err(ApiError::WrongPassword));
    let e = r.unwrap_err();
    assert_eq!(e.status(), 401);
    assert_eq!(e.message(), "Invalid email or password");
}

#[test]
fn login_with_unknown_username_is_400() {
    let creds = LoginModel { username: String::from("ghost"), password: String::from("pw") };
    let r = login(None, &creds, NOW, SECRET);
    assert_eq!(r, Err(ApiError::InvalidCredentials));
    let e = r.unwrap_err();
    assert_eq!(e.status(), 400);
    assert_eq!(e.message(), "Invalid email or password");
}

#[test]
fn login_with_correct_password_yields_token_for_account() {
    let acc = signup(None, "A B", "user1", "pw").unwrap();
    let creds = LoginModel { username: String::from("user1"), password: String::from("pw") };
    let token = login(Some(&acc), &creds, NOW, SECRET).unwrap();
    let subject = validate(&token, NOW, SECRET).unwrap();
    assert_eq!(subject, acc.id);
}

#[test]
fn signup_hash_verifies_only_its_password() {
    let acc = signup(None, "A B", "user1", "secret-pw").unwrap();
    assert!(authgate::password::verify("secret-pw", &acc.password));
    assert!(!authgate::password::verify("other", &acc.password));
}
