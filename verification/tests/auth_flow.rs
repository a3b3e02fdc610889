use catalog_core::auth::{AuthMutation, AuthService};
use catalog_core::credential::{hash_password, validate_password, worker_reply};
use catalog_core::errors::AppError;
use catalog_core::store::Store;

// A bcrypt digest of "password" at cost 4: cheap enough to verify in
// tests while still exercising the real hash routine.
const DIGEST_OF_PASSWORD: &str = "$2a$04$UuTkLRZZ6QofpDOlMz32MuuxEHA43WOemOYHPz6.SjsVsyO1tDU96";

#[test]
fn register_then_duplicate_username_conflicts() {
    let mut store = Store::new();
    let u = AuthService::register_user(
        &mut store,
        "ada".to_string(),
        "ada@example.com".to_string(),
        DIGEST_OF_PASSWORD.to_string(),
        100,
    )
    .expect("register");
    assert_eq!(u.id, 1);
    assert_eq!(u.username, "ada");
    let r = AuthService::register_user(
        &mut store,
        "ada".to_string(),
        "ada@example.com".to_string(),
        DIGEST_OF_PASSWORD.to_string(),
        110,
    );
    assert_eq!(r.err(), Some(AppError::DuplicateUsername));
    assert_eq!(AppError::DuplicateUsername.status(), 409);
}

#[test]
fn duplicate_email_conflicts() {
    let mut store = Store::new();
    AuthService::register_user(
        &mut store,
        "ada".to_string(),
        "ada@example.com".to_string(),
        DIGEST_OF_PASSWORD.to_string(),
        100,
    )
    .expect("register");
    let r = AuthService::register_user(
        &mut store,
        "grace".to_string(),
        "ada@example.com".to_string(),
        DIGEST_OF_PASSWORD.to_string(),
        110,
    );
    assert_eq!(r.err(), Some(AppError::DuplicateEmail));
    assert_eq!(AppError::DuplicateEmail.status(), 409);
}

#[test]
fn login_with_wrong_password_is_unauthorized() {
    let mut store = Store::new();
    AuthService::register_user(
        &mut store,
        "ada".to_string(),
        "ada@example.com".to_string(),
        DIGEST_OF_PASSWORD.to_string(),
        100,
    )
    .expect("register");
    let r = AuthService::login_user(&store, "ada@example.com".to_string(), "wrong".to_string());
    assert_eq!(r.err(), Some(AppError::WrongCredentials));
    assert_eq!(AppError::WrongCredentials.status(), 401);
}

#[test]
fn login_with_right_password_returns_the_user() {
    let mut store = Store::new();
    AuthService::register_user(
        &mut store,
        "ada".to_string(),
        "ada@example.com".to_string(),
        DIGEST_OF_PASSWORD.to_string(),
        100,
    )
    .expect("register");
    let u = AuthService::login_user(&store, "ada@example.com".to_string(), "password".to_string())
        .expect("login");
    assert_eq!(u.username, "ada");
    assert_eq!(u.id, 1);
}

#[test]
fn login_with_unknown_email_is_unauthorized() {
    let store = Store::new();
    let r = AuthService::login_user(&store, "nobody@example.com".to_string(), "password".to_string());
    assert_eq!(r.err(), Some(AppError::WrongCredentials));
}

#[test]
fn persistent_login_resolves_known_ids_only() {
    let mut store = Store::new();
    let u = AuthService::register_user(
        &mut store,
        "ada".to_string(),
        "ada@example.com".to_string(),
        DIGEST_OF_PASSWORD.to_string(),
        100,
    )
    .expect("register");
    let found = AuthService::persistent_login(&store, u.id).expect("persistent login");
    assert_eq!(found.email, "ada@example.com");
    let r = AuthService::persistent_login(&store, 99);
    assert_eq!(r.err(), Some(AppError::InvalidToken));
    assert_eq!(AppError::InvalidToken.status(), 401);
}

#[test]
fn bare_registration_inserts_without_duplicate_checks() {
    let mut store = Store::new();
    AuthMutation::register_user(
        &mut store,
        "ada".to_string(),
        "ada@example.com".to_string(),
        DIGEST_OF_PASSWORD.to_string(),
        100,
    )
    .expect("insert");
    let again = AuthMutation::register_user(
        &mut store,
        "ada".to_string(),
        "ada@example.com".to_string(),
        DIGEST_OF_PASSWORD.to_string(),
        110,
    )
    .expect("insert again");
    assert_eq!(again.id, 2);
}

#[test]
fn hash_password_produces_a_verifying_digest() {
    let digest = hash_password("hunter2AB34").expect("hash");
    assert_ne!(digest, "hunter2AB34");
    assert_eq!(digest.chars().count(), 60);
    assert_eq!(validate_password("hunter2AB34", &digest), Ok(true));
    assert_eq!(validate_password("hunter2AB35", &digest), Ok(false));
}

#[test]
fn login_against_a_malformed_stored_digest_is_an_internal_failure() {
    let mut store = Store::new();
    AuthMutation::register_user(
        &mut store,
        "ada".to_string(),
        "ada@example.com".to_string(),
        "not-a-digest".to_string(),
        100,
    )
    .expect("insert");
    let r = AuthService::login_user(&store, "ada@example.com".to_string(), "password".to_string());
    assert_eq!(r.err(), Some(AppError::HashingFailure));
}

#[test]
fn validate_password_rejects_malformed_digests() {
    let r = validate_password("password", "not-a-digest");
    assert_eq!(r.err(), Some(AppError::HashingFailure));
    assert_eq!(AppError::HashingFailure.status(), 500);
}

#[test]
fn worker_reply_maps_a_closed_channel_to_unavailable() {
    assert_eq!(worker_reply::<String>(None).err(), Some(AppError::WorkerUnavailable));
    assert_eq!(worker_reply(Some(Ok(5))), Ok(5));
    assert_eq!(
        worker_reply::<u32>(Some(Err(AppError::HashingFailure))).err(),
        Some(AppError::HashingFailure)
    );
    assert_eq!(AppError::WorkerUnavailable.status(), 500);
}
