use library_api::auth::{
    decode_jwt, generate_jwt, hash, locate_token, resolve, signing_secret, verify, AuthError,
    Claims, Decoded, RawClaims,
};
use library_api::error::Error;
use library_api::model::user::UserRole;

fn now() -> usize {
    std::time::SystemTime::now().duration_since(std::time::UNIX_EPOCH).unwrap().as_secs() as usize
}

fn hashed(password: &str) -> String {
    match hash(password) {
        Ok(h) => h,
        Err(_) => panic!("hashing failed"),
    }
}

fn token(claims: &Claims, secret: &str) -> String {
    match generate_jwt(claims, secret) {
        Ok(t) => t,
        Err(_) => panic!("signing failed"),
    }
}

#[test]
fn hash_is_verified_by_its_password_only() {
    let h = hashed("password");
    assert!(h.starts_with("$argon2id$v=19$"));
    assert!(verify(&h, "password").is_ok());
    assert!(matches!(verify(&h, "passwordx"), Err(Error::Argon2(_))));
    assert!(matches!(verify(&h, ""), Err(Error::Argon2(_))));
}

#[test]
fn hash_of_the_empty_password_round_trips() {
    let h = hashed("");
    assert!(verify(&h, "").is_ok());
    assert!(verify(&h, "x").is_err());
}

#[test]
fn hashes_of_one_password_differ_by_salt() {
    let a = hashed("password");
    let b = hashed("password");
    assert_ne!(a, b);
    assert!(verify(&a, "password").is_ok());
    assert!(verify(&b, "password").is_ok());
}

#[test]
fn verify_refuses_what_is_no_hash() {
    assert!(matches!(verify("password", "password"), Err(Error::Argon2(_))));
    assert!(matches!(verify("", ""), Err(Error::Argon2(_))));
}

#[test]
fn verify_refuses_a_hash_without_digest() {
    let known = "$argon2id$v=19$m=19456,t=2,p=1$YWJjZGVmZ2hpamtsbW5vcA$";
    assert!(verify(known, "password").is_err());
}

#[test]
fn error_message_is_the_cause() {
    match verify("nonsense", "password") {
        Err(e) => assert!(!e.message().is_empty()),
        Ok(_) => panic!("nonsense is no hash"),
    }
}

#[test]
fn jwt_round_trip() {
    for role in [UserRole::Member, UserRole::Issuer, UserRole::Admin] {
        let claims = Claims { user_id: 42, role, exp: now() + 3600 };
        let t = token(&claims, "secret");
        assert_eq!(t.split('.').count(), 3);
        assert_eq!(decode_jwt(&t, "secret"), Ok(claims));
    }
}

#[test]
fn jwt_round_trip_keeps_a_negative_subject() {
    let claims = Claims { user_id: -7, role: UserRole::Admin, exp: now() + 10_000 };
    assert_eq!(decode_jwt(&token(&claims, "k"), "k"), Ok(claims));
}

#[test]
fn jwt_is_a_function_of_claims_and_secret() {
    let claims = Claims { user_id: 1, role: UserRole::Member, exp: 2_000_000_000 };
    assert_eq!(token(&claims, "secret"), token(&claims, "secret"));
    assert_ne!(token(&claims, "secret"), token(&claims, "other"));
    let other = Claims { user_id: 2, role: UserRole::Member, exp: 2_000_000_000 };
    assert_ne!(token(&claims, "secret"), token(&other, "secret"));
}

#[test]
fn jwt_with_a_past_expiry_is_expired() {
    let claims = Claims { user_id: 42, role: UserRole::Member, exp: now() - 3600 };
    let t = token(&claims, "secret");
    assert_eq!(decode_jwt(&t, "secret"), Err(AuthError::ExpiredToken));
}

#[test]
fn jwt_with_a_wrong_secret_is_invalid() {
    let claims = Claims { user_id: 42, role: UserRole::Member, exp: now() + 3600 };
    let t = token(&claims, "secret");
    assert_eq!(decode_jwt(&t, "not the secret"), Err(AuthError::InvalidToken));
}

#[test]
fn jwt_that_is_no_token_is_invalid() {
    assert_eq!(decode_jwt("", "secret"), Err(AuthError::InvalidToken));
    assert_eq!(decode_jwt("a.b.c", "secret"), Err(AuthError::InvalidToken));
}

#[test]
fn bearer_comes_before_cookie() {
    assert_eq!(
        locate_token(Some("b".to_string()), Some("c".to_string())),
        Ok("b".to_string())
    );
    assert_eq!(locate_token(Some("b".to_string()), None), Ok("b".to_string()));
    assert_eq!(locate_token(None, Some("c".to_string())), Ok("c".to_string()));
    assert_eq!(locate_token(None, None), Err(AuthError::MissingCredentials));
}

#[test]
fn request_without_token_is_missing_credentials() {
    assert_eq!(Claims::from_request_parts(None, None, "secret"), Err(AuthError::MissingCredentials));
}

#[test]
fn request_with_token_resolves_to_claims() {
    let claims = Claims { user_id: 5, role: UserRole::Issuer, exp: now() + 3600 };
    let t = token(&claims, "secret");
    assert_eq!(Claims::from_request_parts(Some(t.clone()), None, "secret"), Ok(claims));
    assert_eq!(Claims::from_request_parts(None, Some(t.clone()), "secret"), Ok(claims));
    assert_eq!(
        Claims::from_request_parts(Some("junk".to_string()), Some(t), "secret"),
        Err(AuthError::InvalidToken)
    );
}

#[test]
fn request_with_expired_token_is_expired() {
    let claims = Claims { user_id: 5, role: UserRole::Issuer, exp: now() - 3600 };
    let t = token(&claims, "secret");
    assert_eq!(Claims::from_request_parts(Some(t), None, "secret"), Err(AuthError::ExpiredToken));
}

#[test]
fn resolve_reads_the_three_claims() {
    let raw = RawClaims { sub: Some(3), role: Some("admin".to_string()), exp: Some(99) };
    assert_eq!(
        resolve(Decoded::Valid(raw)),
        Ok(Claims { user_id: 3, role: UserRole::Admin, exp: 99 })
    );
    assert_eq!(resolve(Decoded::Expired), Err(AuthError::ExpiredToken));
    assert_eq!(resolve(Decoded::Invalid), Err(AuthError::InvalidToken));
}

#[test]
fn resolve_refuses_incomplete_claims() {
    let no_sub = RawClaims { sub: None, role: Some("admin".to_string()), exp: Some(99) };
    assert_eq!(resolve(Decoded::Valid(no_sub)), Err(AuthError::InvalidToken));
    let no_role = RawClaims { sub: Some(1), role: None, exp: Some(99) };
    assert_eq!(resolve(Decoded::Valid(no_role)), Err(AuthError::InvalidToken));
    let no_exp = RawClaims { sub: Some(1), role: Some("admin".to_string()), exp: None };
    assert_eq!(resolve(Decoded::Valid(no_exp)), Err(AuthError::InvalidToken));
    let bad_role = RawClaims { sub: Some(1), role: Some("Admin".to_string()), exp: Some(99) };
    assert_eq!(resolve(Decoded::Valid(bad_role)), Err(AuthError::InvalidToken));
}

#[test]
fn role_is_read_from_its_name() {
    assert_eq!(UserRole::parse("member"), Some(UserRole::Member));
    assert_eq!(UserRole::parse("issuer"), Some(UserRole::Issuer));
    assert_eq!(UserRole::parse("admin"), Some(UserRole::Admin));
    assert_eq!(UserRole::parse("Admin"), None);
    assert_eq!(UserRole::parse("admin "), None);
    assert_eq!(UserRole::parse(""), None);
    for role in [UserRole::Member, UserRole::Issuer, UserRole::Admin] {
        assert_eq!(UserRole::parse(role.as_str()), Some(role));
    }
}

#[test]
fn auth_error_words() {
    assert_eq!(AuthError::MissingCredentials.message(), "Missing credentials");
    assert_eq!(AuthError::InvalidToken.message(), "Invalid token");
    assert_eq!(AuthError::ExpiredToken.message(), "Expired token. Please login again");
    assert_eq!(AuthError::ExpiredToken.status(), 401);
    assert_eq!(AuthError::MissingCredentials.status(), 401);
    assert_eq!(AuthError::InvalidToken.status(), 401);
}

fn crafted(claims: &[(&str, serde_json::Value)], secret: &str) -> String {
    let mut object = serde_json::Map::new();
    for (name, value) in claims {
        object.insert(name.to_string(), value.clone());
    }
    jsonwebtoken::encode(
        &jsonwebtoken::Header::default(),
        &object,
        &jsonwebtoken::EncodingKey::from_secret(secret.as_bytes()),
    )
    .unwrap()
}

fn number(n: u64) -> serde_json::Value {
    serde_json::Value::from(n)
}

fn text(s: &str) -> serde_json::Value {
    serde_json::Value::from(s)
}

#[test]
fn token_whose_claims_are_not_a_callers_is_invalid() {
    let later = (now() + 3600) as u64;
    let unknown_role = crafted(&[("sub", number(1)), ("role", text("owner")), ("exp", number(later))], "s");
    assert_eq!(decode_jwt(&unknown_role, "s"), Err(AuthError::InvalidToken));
    let no_sub = crafted(&[("role", text("admin")), ("exp", number(later))], "s");
    assert_eq!(decode_jwt(&no_sub, "s"), Err(AuthError::InvalidToken));
    let no_role = crafted(&[("sub", number(1)), ("exp", number(later))], "s");
    assert_eq!(decode_jwt(&no_role, "s"), Err(AuthError::InvalidToken));
    let no_exp = crafted(&[("sub", number(1)), ("role", text("admin"))], "s");
    assert_eq!(decode_jwt(&no_exp, "s"), Err(AuthError::InvalidToken));
    let sub_as_text = crafted(&[("sub", text("1")), ("role", text("admin")), ("exp", number(later))], "s");
    assert_eq!(decode_jwt(&sub_as_text, "s"), Err(AuthError::InvalidToken));
    let good = crafted(&[("sub", number(1)), ("role", text("admin")), ("exp", number(later))], "s");
    assert_eq!(
        decode_jwt(&good, "s"),
        Ok(Claims { user_id: 1, role: UserRole::Admin, exp: later as usize })
    );
}

#[test]
fn ended_token_whose_claims_are_not_a_callers_is_invalid() {
    let earlier = (now() - 3600) as u64;
    let unknown_role =
        crafted(&[("sub", number(1)), ("role", text("owner")), ("exp", number(earlier))], "s");
    assert_eq!(decode_jwt(&unknown_role, "s"), Err(AuthError::InvalidToken));
    let no_sub = crafted(&[("role", text("admin")), ("exp", number(earlier))], "s");
    assert_eq!(decode_jwt(&no_sub, "s"), Err(AuthError::InvalidToken));
    let good = crafted(&[("sub", number(1)), ("role", text("admin")), ("exp", number(earlier))], "s");
    assert_eq!(decode_jwt(&good, "s"), Err(AuthError::ExpiredToken));
    assert_eq!(decode_jwt(&good, "other"), Err(AuthError::InvalidToken));
}

#[test]
fn token_for_another_audience_is_invalid() {
    let later = (now() + 3600) as u64;
    let token = crafted(
        &[("sub", number(1)), ("role", text("admin")), ("exp", number(later)), ("aud", text("x"))],
        "s",
    );
    assert_eq!(decode_jwt(&token, "s"), Err(AuthError::InvalidToken));
}

#[test]
fn bearer_token_is_the_one_that_is_checked() {
    let a = token(&Claims { user_id: 1, role: UserRole::Member, exp: now() + 3600 }, "secret");
    let b = token(&Claims { user_id: 2, role: UserRole::Admin, exp: now() + 7200 }, "secret");
    let both = Claims::from_request_parts(Some(a.clone()), Some(b.clone()), "secret");
    assert_eq!(both, Ok(Claims { user_id: 1, role: UserRole::Member, exp: now_of(&a) }));
    let cookie_only = Claims::from_request_parts(None, Some(b.clone()), "secret");
    assert_eq!(cookie_only, Ok(Claims { user_id: 2, role: UserRole::Admin, exp: now_of(&b) }));
    assert_eq!(
        Claims::from_request_parts(Some(a), Some(b), "another secret"),
        Err(AuthError::InvalidToken)
    );
}

fn now_of(token: &str) -> usize {
    match decode_jwt(token, "secret") {
        Ok(claims) => claims.exp,
        Err(_) => panic!("the token must pass"),
    }
}

#[test]
fn a_secret_must_be_configured() {
    assert_eq!(signing_secret(Some("s3cr3t".to_string())), Some("s3cr3t".to_string()));
    assert_eq!(signing_secret(Some("secret".to_string())), Some("secret".to_string()));
    assert_eq!(signing_secret(Some(String::new())), None);
    assert_eq!(signing_secret(None), None);
}

#[test]
fn ended_token_for_another_audience_has_ended() {
    let earlier = (now() - 3600) as u64;
    let token = crafted(
        &[("sub", number(1)), ("role", text("admin")), ("exp", number(earlier)), ("aud", text("x"))],
        "s",
    );
    assert_eq!(decode_jwt(&token, "s"), Err(AuthError::ExpiredToken));
}
