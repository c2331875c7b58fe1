//! Credentials: password hashes, signed tokens, and the resolution of a
//! request's token into the caller's claims.

use vstd::prelude::*;
use argon2::password_hash::rand_core::OsRng;
use argon2::password_hash::{PasswordHash, PasswordHasher, PasswordVerifier, SaltString};
use argon2::Argon2;
use jsonwebtoken::errors::ErrorKind;
use jsonwebtoken::{decode, encode, DecodingKey, EncodingKey, Header, Validation};
use crate::error::Error;
use crate::model::user::UserRole;

verus! {

/// Who is calling: the user's id, the user's role, and the second (since
/// the epoch) at which the token ends.
#[derive(Debug, Clone, Copy, PartialEq, Eq, Structural)]
pub struct Claims {
    pub user_id: i64,
    pub role: UserRole,
    pub exp: usize,
}

/// Why a request has no caller.
#[derive(Debug, Clone, Copy, PartialEq, Eq, Structural)]
pub enum AuthError {
    /// Neither a bearer token nor a token cookie came with the request.
    MissingCredentials,
    /// The token is malformed, wrongly signed, or its claims are not a caller's.
    InvalidToken,
    /// The token was valid once and has ended.
    ExpiredToken,
}

/// The claims of a token as they stand in it: each may be missing or of
/// another type.
#[derive(Debug)]
pub struct RawClaims {
    pub sub: Option<i64>,
    pub role: Option<String>,
    pub exp: Option<u64>,
}

/// The mathematical value of a [`RawClaims`].
pub struct RawClaimsView {
    pub sub: Option<i64>,
    pub role: Option<Seq<char>>,
    pub exp: Option<u64>,
}

impl View for RawClaims {
    type V = RawClaimsView;

    open spec fn view(&self) -> RawClaimsView {
        RawClaimsView {
            sub: self.sub,
            role: match self.role {
                Some(text) => Some(text@),
                None => None,
            },
            exp: self.exp,
        }
    }
}

/// What the check of a token's signature and end came to.
#[derive(Debug)]
pub enum Decoded {
    /// Signature and end are in order; these are the claims.
    Valid(RawClaims),
    /// The signature is in order, the end has passed.
    Expired,
    /// Anything else.
    Invalid,
}

/// Whether `argon2` accepts `password` for the encoded hash
/// `password_hash`: the text parses as a hash, and the digest of the
/// password under the hash's own salt and parameters is the hash's digest.
pub uninterp spec fn argon2_accepts(password_hash: Seq<char>, password: Seq<char>) -> bool;

/// The token that `jsonwebtoken` signs with HMAC-SHA256 and the default
/// header, under `secret`, from the object that holds `sub` under the
/// name `sub_key`, `role` under the name `role_key` and `exp` under the
/// registered name `exp`; `None` if it signs none.
pub uninterp spec fn signed_object(
    sub_key: Seq<char>,
    sub: i64,
    role_key: Seq<char>,
    role: Seq<char>,
    exp: usize,
    secret: Seq<char>,
) -> Option<Seq<char>>;

/// The claims that stand in the payload of `token` under the names
/// `sub_key`, `role_key` and `exp`, where `jsonwebtoken::decode` accepts
/// the token under `secret` with the end and the audience left
/// unchecked: the token is well formed, its signature under the secret
/// is in order, and it names an end. `None` where it does not. The clock
/// has no part in it.
pub uninterp spec fn claims_under(token: Seq<char>, secret: Seq<char>, sub_key: Seq<char>, role_key: Seq<char>) -> Option<
    RawClaimsView,
>;

/// The token that is signed for a subject, a role and an end under a
/// secret: the subject stands under `sub`, the role under `role`.
pub open spec fn signed_token(sub: i64, role: Seq<char>, exp: usize, secret: Seq<char>) -> Option<Seq<char>> {
    signed_object("sub"@, sub, "role"@, role, exp, secret)
}

/// The claims that a token carries under a secret: the subject under
/// `sub`, the role under `role`, and the end.
pub open spec fn carried_claims(token: Seq<char>, secret: Seq<char>) -> Option<RawClaimsView> {
    claims_under(token, secret, "sub"@, "role"@)
}

/// The names under which the subject and the role travel differ from one
/// another and from the names that `jsonwebtoken` reads itself.
pub proof fn claim_names_differ()
    ensures
        "sub"@ != "role"@,
        "sub"@ != "exp"@,
        "sub"@ != "aud"@,
        "role"@ != "exp"@,
        "role"@ != "aud"@,
{
    reveal_strlit("sub");
    reveal_strlit("role");
    reveal_strlit("exp");
    reveal_strlit("aud");
    assert("sub"@.len() == 3 && "role"@.len() == 4 && "exp"@.len() == 3 && "aud"@.len() == 3);
    assert("sub"@[0] == 's' && "exp"@[0] == 'e' && "aud"@[0] == 'a');
}

/// Whether the payload of `token` names an audience: it holds an `aud`
/// claim that `jsonwebtoken` reads as one, a text or a list of texts.
pub uninterp spec fn names_audience(token: Seq<char>) -> bool;

/// The raw claims under which a caller's claims are signed: the user's id
/// as the subject, the role's name, and the end.
pub open spec fn carried_by(claims: Claims) -> RawClaimsView {
    RawClaimsView {
        sub: Some(claims.user_id),
        role: Some(claims.role.name()),
        exp: Some(claims.exp as u64),
    }
}

/// Hashes with `Argon2::default().hash_password` under a salt that
/// `SaltString::generate` draws from the system. The salt differs from
/// call to call, and so does the text; whatever the salt, the text is the
/// encoded hash of this password, which `verify_password` accepts for
/// it, as it recomputes the digest from the password and the salt and
/// parameters that the text holds.
#[verifier::external_body]
fn argon2_hash(password: &str) -> (r: Result<String, String>)
    ensures
        r matches Ok(hashed) ==> argon2_accepts(hashed@, password@),
{
    let salt = SaltString::generate(&mut OsRng);
    match Argon2::default().hash_password(password.as_bytes(), &salt) {
        Ok(hashed) => Ok(hashed.to_string()),
        Err(e) => Err(e.to_string()),
    }
}

/// Parses with `PasswordHash::new` and checks with
/// `Argon2::default().verify_password`; a failure of either is a refusal,
/// and comes with the text of its cause.
#[verifier::external_body]
fn argon2_verify(password_hash: &str, password: &str) -> (r: Result<(), String>)
    ensures
        r is Ok <==> argon2_accepts(password_hash@, password@),
{
    let parsed = match PasswordHash::new(password_hash) {
        Ok(parsed) => parsed,
        Err(e) => return Err(e.to_string()),
    };
    Argon2::default().verify_password(password.as_bytes(), &parsed).map_err(|e| e.to_string())
}

/// Signs with `jsonwebtoken::encode`, under `Header::default()` and
/// `EncodingKey::from_secret`, the claims object that holds `sub` under
/// `sub_key`, `role` under `role_key` and `exp` under `exp`. A failure
/// comes with the text of its cause. The token that comes back carries
/// these three claims under the same secret: its payload is the object,
/// and its signature is the one that `decode` recomputes from the
/// header, the payload and the secret. The object holds these three
/// claims only, so the token names no audience.
#[verifier::external_body]
fn jwt_encode(sub_key: &str, sub: i64, role_key: &str, role: &str, exp: usize, secret: &str) -> (r: Result<
    String,
    String,
>)
    requires
        sub_key@ != role_key@,
        sub_key@ != "exp"@ && sub_key@ != "aud"@,
        role_key@ != "exp"@ && role_key@ != "aud"@,
    ensures
        match r {
            Ok(token) => signed_object(sub_key@, sub, role_key@, role@, exp, secret@) == Some(token@)
                && claims_under(token@, secret@, sub_key@, role_key@) == Some(
                RawClaimsView { sub: Some(sub), role: Some(role@), exp: Some(exp as u64) },
            ) && !names_audience(token@),
            Err(_) => signed_object(sub_key@, sub, role_key@, role@, exp, secret@) is None,
        },
{
    let mut claims = serde_json::Map::new();
    claims.insert(sub_key.to_string(), serde_json::Value::from(sub));
    claims.insert(role_key.to_string(), serde_json::Value::from(role));
    claims.insert("exp".to_string(), serde_json::Value::from(exp));
    let key = EncodingKey::from_secret(secret.as_bytes());
    encode(&Header::default(), &claims, &key).map_err(|e| e.to_string())
}

/// Reads with `jsonwebtoken::decode`, under `DecodingKey::from_secret`
/// and a `Validation::default()` whose checks of the end and of the
/// audience are switched off, the three claims that a token carries.
/// Nothing here reads the clock, so the outcome is the token's, the
/// secret's and the names' alone.
#[verifier::external_body]
fn jwt_claims(token: &str, secret: &str, sub_key: &str, role_key: &str) -> (r: Option<RawClaims>)
    ensures
        match r {
            Some(raw) => claims_under(token@, secret@, sub_key@, role_key@) == Some(raw@),
            None => claims_under(token@, secret@, sub_key@, role_key@) is None,
        },
{
    let key = DecodingKey::from_secret(secret.as_bytes());
    let mut lenient = Validation::default();
    lenient.validate_exp = false;
    lenient.validate_aud = false;
    match decode::<serde_json::Value>(token, &key, &lenient) {
        Ok(data) => Some(
            RawClaims {
                sub: data.claims.get(sub_key).and_then(|v| v.as_i64()),
                role: data.claims.get(role_key).and_then(|v| v.as_str()).map(|s| s.to_string()),
                exp: data.claims.get("exp").and_then(|v| v.as_u64()),
            },
        ),
        Err(_) => None,
    }
}

/// Checks with `jsonwebtoken::decode`, under `DecodingKey::from_secret`
/// and `Validation::default()`, and hands out the three claims as they
/// stand in the token. Whether a token has ended depends on the clock,
/// so nothing says which outcome comes; but the signature is checked and
/// the payload read before the end is looked at, so claims are handed
/// out, and a token is found to have ended, only where the token carries
/// claims under the secret. Of a token that carries claims the default
/// validation checks the end and then the audience and nothing else, and
/// it expects no audience; so such a token is refused, when it has not
/// ended, only where it names one.
#[verifier::external_body]
fn jwt_decode(token: &str, secret: &str, sub_key: &str, role_key: &str) -> (r: Decoded)
    ensures
        match r {
            Decoded::Valid(raw) => claims_under(token@, secret@, sub_key@, role_key@) == Some(raw@),
            Decoded::Expired => claims_under(token@, secret@, sub_key@, role_key@) is Some,
            Decoded::Invalid => claims_under(token@, secret@, sub_key@, role_key@) is None
                || names_audience(token@),
        },
{
    let key = DecodingKey::from_secret(secret.as_bytes());
    match decode::<serde_json::Value>(token, &key, &Validation::default()) {
        Ok(data) => Decoded::Valid(
            RawClaims {
                sub: data.claims.get(sub_key).and_then(|v| v.as_i64()),
                role: data.claims.get(role_key).and_then(|v| v.as_str()).map(|s| s.to_string()),
                exp: data.claims.get("exp").and_then(|v| v.as_u64()),
            },
        ),
        Err(e) => match e.kind() {
            ErrorKind::ExpiredSignature => Decoded::Expired,
            _ => Decoded::Invalid,
        },
    }
}

/// The claims that a token's raw claims amount to: a caller's claims when
/// the subject, a role's name and an end that fits are all there.
pub open spec fn read(raw: RawClaimsView) -> Option<Claims> {
    match (raw.sub, raw.role, raw.exp) {
        (Some(sub), Some(role), Some(exp)) => match UserRole::named(role) {
            Some(r) if exp <= usize::MAX => Some(Claims { user_id: sub, role: r, exp: exp as usize }),
            _ => None,
        },
        _ => None,
    }
}

/// The claims that a token's raw claims amount to.
pub open spec fn typed(raw: RawClaims) -> Option<Claims> {
    read(raw@)
}

/// What a checked token resolves to: its claims, `ExpiredToken` when its
/// end has passed, `InvalidToken` in every other case.
pub open spec fn resolved(decoded: Decoded) -> Result<Claims, AuthError> {
    match decoded {
        Decoded::Valid(raw) => match typed(raw) {
            Some(claims) => Ok(claims),
            None => Err(AuthError::InvalidToken),
        },
        Decoded::Expired => Err(AuthError::ExpiredToken),
        Decoded::Invalid => Err(AuthError::InvalidToken),
    }
}

/// The claims that a token carries for a caller are read back as that
/// caller's: the subject is the user's id, the role comes back from its
/// name, and the end is unchanged.
pub proof fn claims_read_back(claims: Claims, raw: RawClaims)
    requires
        raw.sub == Some(claims.user_id),
        raw.role matches Some(text) && text@ == claims.role.name(),
        raw.exp == Some(claims.exp as u64),
    ensures
        resolved(Decoded::Valid(raw)) == Ok::<Claims, AuthError>(claims),
{
    UserRole::names_round_trip(claims.role);
}

/// The raw claims under which a caller's claims are signed are read back
/// as that caller's claims.
pub proof fn signed_claims_read_back(claims: Claims)
    ensures
        read(carried_by(claims)) == Some(claims),
{
    UserRole::names_round_trip(claims.role);
}

/// What checking a token under a secret may come to. Claims come back
/// only where the token carries claims under the secret, and they are
/// those claims, read as a caller's. A token that carries none, or whose
/// claims are not a caller's, is `InvalidToken`. A token that carries a
/// caller's claims and names an audience is `InvalidToken` too, unless
/// it has ended. Of any other token that carries a caller's claims the
/// time of the call decides between the claims and `ExpiredToken`. The
/// failure is never `MissingCredentials`.
pub open spec fn checked(token: Seq<char>, secret: Seq<char>, r: Result<Claims, AuthError>) -> bool {
    match carried_claims(token, secret) {
        Some(raw) => match read(raw) {
            Some(claims) => r == Ok::<Claims, AuthError>(claims) || r == Err::<Claims, AuthError>(
                AuthError::ExpiredToken,
            ) || (names_audience(token) && r == Err::<Claims, AuthError>(AuthError::InvalidToken)),
            None => r == Err::<Claims, AuthError>(AuthError::InvalidToken),
        },
        None => r == Err::<Claims, AuthError>(AuthError::InvalidToken),
    }
}

/// A token that carries a caller's claims under a secret and names no
/// audience yields those claims when it is checked under that secret,
/// unless it has ended: it never yields other claims, and it is never
/// refused as invalid.
pub proof fn token_round_trip(claims: Claims, token: Seq<char>, secret: Seq<char>, r: Result<Claims, AuthError>)
    requires
        carried_claims(token, secret) == Some(carried_by(claims)),
        !names_audience(token),
        checked(token, secret, r),
    ensures
        r == Ok::<Claims, AuthError>(claims) || r == Err::<Claims, AuthError>(
            AuthError::ExpiredToken,
        ),
{
    signed_claims_read_back(claims);
}

/// Where a request's token is taken from: the bearer token of the
/// authorization header if there is one, else the `token` cookie.
pub open spec fn located(bearer: Option<String>, cookie: Option<String>) -> Result<String, AuthError> {
    match bearer {
        Some(token) => Ok(token),
        None => match cookie {
            Some(token) => Ok(token),
            None => Err(AuthError::MissingCredentials),
        },
    }
}

/// Picks a request's token: the bearer token first, the cookie second,
/// and `MissingCredentials` when there is neither.
pub fn locate_token(bearer: Option<String>, cookie: Option<String>) -> (r: Result<String, AuthError>)
    ensures
        r == located(bearer, cookie),
{
    match bearer {
        Some(token) => Ok(token),
        None => match cookie {
            Some(token) => Ok(token),
            None => Err(AuthError::MissingCredentials),
        },
    }
}

/// Resolves the outcome of a token's check into the caller's claims.
pub fn resolve(decoded: Decoded) -> (r: Result<Claims, AuthError>)
    ensures
        r == resolved(decoded),
{
    match decoded {
        Decoded::Valid(raw) => {
            let sub = match raw.sub {
                Some(sub) => sub,
                None => {
                    return Err(AuthError::InvalidToken);
                },
            };
            let role = match raw.role {
                Some(text) => match UserRole::parse(text.as_str()) {
                    Some(role) => role,
                    None => {
                        return Err(AuthError::InvalidToken);
                    },
                },
                None => {
                    return Err(AuthError::InvalidToken);
                },
            };
            match raw.exp {
                Some(exp) => {
                    if exp <= usize::MAX as u64 {
                        Ok(Claims { user_id: sub, role, exp: exp as usize })
                    } else {
                        Err(AuthError::InvalidToken)
                    }
                },
                None => Err(AuthError::InvalidToken),
            }
        },
        Decoded::Expired => Err(AuthError::ExpiredToken),
        Decoded::Invalid => Err(AuthError::InvalidToken),
    }
}

impl Claims {
    /// Resolves a request into its caller: picks the token, the bearer
    /// token before the cookie, checks it under `jwt_secret`, and reads
    /// its claims. With neither a bearer token nor a cookie the answer is
    /// `MissingCredentials`, and only then; with a token the answer is
    /// what checking that token comes to.
    pub fn from_request_parts(bearer: Option<String>, cookie: Option<String>, jwt_secret: &str) -> (r: Result<
        Claims,
        AuthError,
    >)
        ensures
            match located(bearer, cookie) {
                Ok(token) => checked(token@, jwt_secret@, r),
                Err(e) => r == Err::<Claims, AuthError>(e),
            },
            r == Err::<Claims, AuthError>(AuthError::MissingCredentials) <==> (bearer is None
                && cookie is None),
    {
        match locate_token(bearer, cookie) {
            Ok(token) => decode_jwt(token.as_str(), jwt_secret),
            Err(e) => Err(e),
        }
    }
}

impl AuthError {
    /// The words sent to the caller.
    pub open spec fn spec_message(self) -> Seq<char> {
        match self {
            AuthError::MissingCredentials => "Missing credentials"@,
            AuthError::InvalidToken => "Invalid token"@,
            AuthError::ExpiredToken => "Expired token. Please login again"@,
        }
    }

    /// The words sent to the caller.
    pub fn message(self) -> (r: &'static str)
        ensures
            r@ == self.spec_message(),
    {
        match self {
            AuthError::MissingCredentials => "Missing credentials",
            AuthError::InvalidToken => "Invalid token",
            AuthError::ExpiredToken => "Expired token. Please login again",
        }
    }

    /// The HTTP status sent to the caller: unauthorized, whatever the reason.
    pub fn status(self) -> (r: u16)
        ensures
            r == 401,
    {
        401
    }
}

/// The secret that a configuration provides for signing: the configured
/// text, and none where nothing or the empty text is configured. There
/// is no secret to fall back on.
pub fn signing_secret(configured: Option<String>) -> (r: Option<String>)
    ensures
        r == match configured {
            Some(secret) => if secret@.len() > 0 {
                Some(secret)
            } else {
                None
            },
            None => None,
        },
{
    match configured {
        Some(secret) => {
            if secret.as_str().unicode_len() > 0 {
                Some(secret)
            } else {
                None
            }
        },
        None => None,
    }
}

/// Signs `claims` under `jwt_secret`. The role travels under its
/// lower-case name. The token carries the claims under the secret and
/// names no audience, so a check of it under that secret yields `claims`
/// or finds that the token has ended.
pub fn generate_jwt(claims: &Claims, jwt_secret: &str) -> (r: Result<String, Error>)
    ensures
        match r {
            Ok(token) => signed_token(claims.user_id, claims.role.name(), claims.exp, jwt_secret@)
                == Some(token@) && carried_claims(token@, jwt_secret@) == Some(carried_by(*claims))
                && read(carried_by(*claims)) == Some(*claims) && !names_audience(token@),
            Err(e) => signed_token(claims.user_id, claims.role.name(), claims.exp, jwt_secret@)
                is None && e is Jwt,
        },
{
    proof {
        signed_claims_read_back(*claims);
    }
    proof {
        claim_names_differ();
    }
    match jwt_encode("sub", claims.user_id, "role", claims.role.as_str(), claims.exp, jwt_secret) {
        Ok(token) => Ok(token),
        Err(e) => Err(Error::Jwt(e)),
    }
}

/// Checks `token` under `jwt_secret` and reads its claims. The claims
/// are read first, so that a token whose claims are not a caller's is
/// `InvalidToken` whether or not it has ended; then the token's end is
/// checked against the time of the call.
pub fn decode_jwt(token: &str, jwt_secret: &str) -> (r: Result<Claims, AuthError>)
    ensures
        checked(token@, jwt_secret@, r),
{
    match jwt_claims(token, jwt_secret, "sub", "role") {
        Some(raw) => match resolve(Decoded::Valid(raw)) {
            Ok(_) => resolve(jwt_decode(token, jwt_secret, "sub", "role")),
            Err(e) => Err(e),
        },
        None => Err(AuthError::InvalidToken),
    }
}

/// Hashes `password` under a fresh random salt. The text that comes
/// back is an encoded hash that accepts this password, so `verify`
/// succeeds on the two. A failure is `Argon2`.
pub fn hash(password: &str) -> (r: Result<String, Error>)
    ensures
        match r {
            Ok(hashed) => argon2_accepts(hashed@, password@),
            Err(e) => e is Argon2,
        },
{
    match argon2_hash(password) {
        Ok(hashed) => Ok(hashed),
        Err(e) => Err(Error::Argon2(e)),
    }
}

/// Checks `password` against the encoded hash `password_hash`: `Ok`
/// exactly when the hash parses and accepts the password, else `Argon2`.
pub fn verify(password_hash: &str, password: &str) -> (r: Result<(), Error>)
    ensures
        r is Ok <==> argon2_accepts(password_hash@, password@),
        r matches Err(e) ==> e is Argon2,
{
    match argon2_verify(password_hash, password) {
        Ok(_) => Ok(()),
        Err(e) => Err(Error::Argon2(e)),
    }
}

} // verus!
