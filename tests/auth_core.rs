use record_auth::credentials::{hash_password_with_cost, verify_password, HashingError};
use record_auth::guard::{bearer_token, resolve_principal, subject_for_request, DbError, Deny};
use record_auth::models::{Item, User};
use record_auth::token::{issue_token_at, validate_token, validate_token_at, TokenError, TOKEN_TTL_SECONDS};

const SECRET: &[u8] = b"test signing secret";
const NOW: i64 = 1_700_000_000;

fn user(id: &str) -> User {
    let mut u = User::new("alice".to_string(), "a@example.com".to_string(), "h".to_string(), 5);
    u.id = Some(id.to_string());
    u
}

#[test]
fn hash_then_verify_accepts_same_password() {
    let h = hash_password_with_cost("correct horse", 4).unwrap();
    assert_ne!(h, "correct horse");
    assert_eq!(verify_password("correct horse", &h), Ok(true));
}

#[test]
fn verify_rejects_other_password() {
    let h = hash_password_with_cost("correct horse", 4).unwrap();
    assert_eq!(verify_password("battery staple", &h), Ok(false));
}

#[test]
fn hashing_is_salted() {
    let a = hash_password_with_cost("pw", 4).unwrap();
    let b = hash_password_with_cost("pw", 4).unwrap();
    assert_ne!(a, b);
}

#[test]
fn verify_malformed_hash_is_error() {
    assert_eq!(verify_password("pw", "not-a-bcrypt-hash"), Err(HashingError::Failed));
}

#[test]
fn cost_out_of_range_is_error() {
    assert_eq!(hash_password_with_cost("pw", 3), Err(HashingError::Failed));
    assert_eq!(hash_password_with_cost("pw", 32), Err(HashingError::Failed));
}

#[test]
fn issued_token_validates_to_subject() {
    let t = issue_token_at(SECRET, "user-42", NOW).unwrap();
    assert_eq!(t.split('.').count(), 3);
    let c = validate_token_at(SECRET, &t, NOW).unwrap();
    assert_eq!(c.sub, "user-42");
    assert_eq!(c.iat, NOW);
    assert_eq!(c.exp, NOW + 86400);
    assert_eq!(TOKEN_TTL_SECONDS, 86400);
}

#[test]
fn token_valid_at_expiry_instant() {
    let t = issue_token_at(SECRET, "s", NOW).unwrap();
    assert!(validate_token_at(SECRET, &t, NOW + 86400).is_ok());
}

#[test]
fn expired_token_fails_as_expired() {
    let t = issue_token_at(SECRET, "s", NOW).unwrap();
    assert_eq!(validate_token_at(SECRET, &t, NOW + 86401).unwrap_err(), TokenError::Expired);
}

#[test]
fn token_under_other_secret_is_bad_signature() {
    let t = issue_token_at(SECRET, "s", NOW).unwrap();
    assert_eq!(validate_token_at(b"another secret", &t, NOW).unwrap_err(), TokenError::BadSignature);
}

#[test]
fn flipped_payload_never_validates() {
    let t = issue_token_at(SECRET, "user-42", NOW).unwrap();
    let parts: Vec<&str> = t.split('.').collect();
    let mut payload: Vec<char> = parts[1].chars().collect();
    payload[3] = if payload[3] == 'A' { 'B' } else { 'A' };
    let payload: String = payload.into_iter().collect();
    let forged = format!("{}.{}.{}", parts[0], payload, parts[2]);
    let e = validate_token_at(SECRET, &forged, NOW).unwrap_err();
    assert!(e == TokenError::BadSignature || e == TokenError::MalformedToken);
}

#[test]
fn garbage_token_is_malformed() {
    assert_eq!(validate_token_at(SECRET, "abc", NOW).unwrap_err(), TokenError::MalformedToken);
    assert_eq!(validate_token_at(SECRET, "", NOW).unwrap_err(), TokenError::MalformedToken);
}

#[test]
fn tokens_at_different_instants_differ_in_signature() {
    let a = issue_token_at(SECRET, "s", NOW).unwrap();
    let b = issue_token_at(SECRET, "s", NOW + 1).unwrap();
    assert_ne!(a.rsplit('.').next().unwrap(), b.rsplit('.').next().unwrap());
}

#[test]
fn issue_overflow_is_refused() {
    assert_eq!(issue_token_at(SECRET, "s", i64::MAX - 86399), Err(TokenError::TimestampOverflow));
    assert!(issue_token_at(SECRET, "s", i64::MAX - 86400).is_ok());
}

#[test]
fn fresh_token_validates_now() {
    let t = record_auth::token::generate_token(SECRET, "me").unwrap();
    assert_eq!(validate_token(SECRET, &t).unwrap().sub, "me");
}

#[test]
fn bearer_token_extraction() {
    assert_eq!(bearer_token(None), None);
    assert_eq!(bearer_token(Some("Token abc")), None);
    assert_eq!(bearer_token(Some("bearer abc")), None);
    assert_eq!(bearer_token(Some("Bearer  abc \t")), Some("abc".to_string()));
    assert_eq!(bearer_token(Some("Bearer Bearer x")), Some("Bearer x".to_string()));
}

#[test]
fn guard_valid_token_and_existing_user_yields_principal() {
    let t = issue_token_at(SECRET, "42", NOW).unwrap();
    let header = format!("Bearer {}", t);
    let sub = subject_for_request(Some(&header), SECRET, NOW + 10).unwrap();
    assert_eq!(sub, "42");
    let p = resolve_principal(Ok(Some(user(&sub)))).unwrap();
    assert_eq!(p.0.id, Some("42".to_string()));
}

#[test]
fn guard_missing_header_is_unauthorized() {
    assert_eq!(subject_for_request(None, SECRET, NOW), Err(Deny::Unauthorized));
}

#[test]
fn guard_wrong_scheme_is_unauthorized() {
    assert_eq!(subject_for_request(Some("Token abc"), SECRET, NOW), Err(Deny::Unauthorized));
}

#[test]
fn guard_expired_by_one_second_is_unauthorized() {
    let t = issue_token_at(SECRET, "42", NOW).unwrap();
    let header = format!("Bearer {}", t);
    assert_eq!(subject_for_request(Some(&header), SECRET, NOW + 86401), Err(Deny::Unauthorized));
}

#[test]
fn guard_deleted_user_is_unauthorized() {
    let t = issue_token_at(SECRET, "42", NOW).unwrap();
    let header = format!("Bearer {}", t);
    assert!(subject_for_request(Some(&header), SECRET, NOW).is_ok());
    assert_eq!(resolve_principal(Ok(None)).unwrap_err(), Deny::Unauthorized);
}

#[test]
fn guard_store_failure_is_internal_error() {
    let r = resolve_principal(Err(DbError::MongoError("connection refused".to_string())));
    assert_eq!(r.unwrap_err(), Deny::InternalServerError);
}

#[test]
fn new_records_carry_timestamps() {
    let u = User::new("bob".to_string(), "b@x".to_string(), "hash".to_string(), 77);
    assert_eq!((u.id, u.created_at, u.updated_at), (None, 77, 77));
    assert_eq!(u.username, "bob");
    let i = Item::new("u1".to_string(), "t".to_string(), "d".to_string(), 9);
    assert_eq!((i.id, i.created_at, i.updated_at), (None, 9, 9));
    assert_eq!(i.title, "t");
}

#[test]
fn guard_malformed_subject_id_is_unauthorized() {
    assert_eq!(resolve_principal(Err(DbError::InvalidId)).unwrap_err(), Deny::Unauthorized);
    assert_eq!(resolve_principal(Err(DbError::NotFound)).unwrap_err(), Deny::Unauthorized);
    let r = resolve_principal(Err(DbError::SerializationError("bad".to_string())));
    assert_eq!(r.unwrap_err(), Deny::InternalServerError);
}

#[test]
fn hash_has_bcrypt_shape() {
    let h = hash_password_with_cost("pw", 4).unwrap();
    assert_eq!(h.len(), 60);
    assert!(h.starts_with("$2b$04$"));
    assert!(h[7..].chars().all(|c| c == '.' || c == '/' || c.is_ascii_alphanumeric()));
}

#[test]
fn token_has_compact_hs256_shape() {
    let t = issue_token_at(SECRET, "a.b\"c\u{e9}", NOW).unwrap();
    assert!(t.starts_with("eyJ0eXAiOiJKV1QiLCJhbGciOiJIUzI1NiJ9."));
    assert_eq!(t.matches('.').count(), 2);
    assert!(t.chars().all(|c| c == '.' || c == '-' || c == '_' || c.is_ascii_alphanumeric()));
    assert_eq!(validate_token_at(SECRET, &t, NOW).unwrap().sub, "a.b\"c\u{e9}");
}

#[test]
fn token_with_one_dot_is_malformed() {
    assert_eq!(validate_token_at(SECRET, "a.b", NOW).unwrap_err(), TokenError::MalformedToken);
}

#[test]
fn token_with_other_algorithm_is_refused() {
    let t = issue_token_at(SECRET, "s", NOW).unwrap();
    let payload = t.split('.').nth(1).unwrap();
    // {"alg":"none","typ":"JWT"} with an empty signature
    let forged = format!("eyJhbGciOiJub25lIiwidHlwIjoiSldUIn0.{}.", payload);
    assert!(validate_token_at(SECRET, &forged, NOW).is_err());
}

#[test]
fn bad_signature_reported_before_expiry() {
    let t = issue_token_at(SECRET, "s", NOW).unwrap();
    assert_eq!(validate_token_at(b"other", &t, NOW + 1_000_000).unwrap_err(), TokenError::BadSignature);
}

#[test]
fn guard_trims_unicode_white_space() {
    let t = issue_token_at(SECRET, "7", NOW).unwrap();
    let header = format!("Bearer \u{3000} {}\u{a0}\n", t);
    assert_eq!(subject_for_request(Some(&header), SECRET, NOW), Ok("7".to_string()));
}
