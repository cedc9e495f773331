//! Tokens and credentials: the claims of an access token, refresh tokens,
//! password hashes, and how authentication failures are answered.

use vstd::prelude::*;

use crate::clock::clock_millis;
use crate::model::User;
use crate::object_id::hex_encode;

verus! {

/// The claims of an access token: the user's identifier and the issue and
/// expiry instants in seconds since the Unix epoch.
#[derive(Debug, Clone, PartialEq, Eq)]
pub struct Claims {
    pub sub: String,
    pub iat: usize,
    pub exp: usize,
}

/// How long an access token lives, in seconds.
pub const ACCESS_TOKEN_SECONDS: usize = 900;

/// How long a refresh token lives, in milliseconds.
pub const REFRESH_TOKEN_MILLIS: i64 = 604_800_000;

/// The claims of an access token for `sub`, issued at `now` (seconds), valid
/// for fifteen minutes.
pub fn access_claims(sub: &str, now: usize) -> (res: Claims)
    requires
        now + ACCESS_TOKEN_SECONDS <= usize::MAX,
    ensures
        res.sub@ == sub@,
        res.iat == now,
        res.exp == now + ACCESS_TOKEN_SECONDS,
{
    Claims { sub: String::from_str(sub), iat: now, exp: now + ACCESS_TOKEN_SECONDS }
}

/// The text of the HS256 JSON Web Token that `jsonwebtoken::encode` makes,
/// under the default header, of the claims `sub`, `iat` and `exp` signed
/// with `secret`.
pub uninterp spec fn jwt_hs256(sub: Seq<char>, iat: usize, exp: usize, secret: Seq<u8>) -> Seq<char>;

/// The claims `sub`, `iat` and `exp` that a token carries when its header
/// names HS256, its HMAC-SHA256 signature verifies under `secret`, and its
/// payload holds them as a text and two non-negative integers; `None`
/// otherwise.
pub uninterp spec fn jwt_hs256_claims(token: Seq<char>, secret: Seq<u8>) -> Option<(Seq<char>, usize, usize)>;

/// Calls `jsonwebtoken::encode` with the default header (HS256) on a JSON
/// object of the three claims and an HMAC key made of `secret`. With an
/// HMAC key and algorithm it cannot fail: the header and a map of a text
/// and two numbers always serialise, and HMAC signing always succeeds. The
/// token is the name `jwt_hs256` of its arguments, and reading it back
/// under the same secret gives the claims, since the payload is their JSON
/// and the signature is recomputed from the same key. Note: the payload is
/// a `serde_json` map, whose key order need not be the order of the fields.
#[verifier::external_body]
fn encode_jwt(claims: &Claims, secret: &[u8]) -> (res: Option<String>)
    ensures
        res is Some,
        res matches Some(t) ==> t@ == jwt_hs256(claims.sub@, claims.iat, claims.exp, secret@),
        res matches Some(t) ==> jwt_hs256_claims(t@, secret@) == Some((claims.sub@, claims.iat, claims.exp)),
{
    let mut payload = serde_json::Map::new();
    payload.insert(String::from("sub"), serde_json::Value::from(claims.sub.as_str()));
    payload.insert(String::from("iat"), serde_json::Value::from(claims.iat));
    payload.insert(String::from("exp"), serde_json::Value::from(claims.exp));
    let key = jsonwebtoken::EncodingKey::from_secret(secret);
    jsonwebtoken::encode(&jsonwebtoken::Header::default(), &serde_json::Value::Object(payload), &key).ok()
}

/// Calls `jsonwebtoken::decode` with an HMAC key made of `secret` and the
/// default validation (HS256 only, `exp` required and not past, with a
/// minute's leeway, by the system clock), reading the payload as a JSON
/// object and taking its `sub` text and its `iat` and `exp` integers. The
/// expiry check rests on the clock, so the contract does not say when it
/// succeeds; when it does, the claims are those the token carries.
#[verifier::external_body]
fn decode_hs256(token: &str, secret: &[u8]) -> (res: Option<Claims>)
    ensures
        res matches Some(c) ==> jwt_hs256_claims(token@, secret@) == Some((c.sub@, c.iat, c.exp)),
{
    let key = jsonwebtoken::DecodingKey::from_secret(secret);
    let validation = jsonwebtoken::Validation::default();
    let data = jsonwebtoken::decode::<serde_json::Map<String, serde_json::Value>>(token, &key, &validation).ok()?;
    match (data.claims.get("sub"), data.claims.get("iat"), data.claims.get("exp")) {
        (Some(serde_json::Value::String(sub)), Some(serde_json::Value::Number(iat)), Some(serde_json::Value::Number(exp))) => {
            Some(Claims { sub: sub.clone(), iat: usize::try_from(iat.as_u64()?).ok()?, exp: usize::try_from(exp.as_u64()?).ok()? })
        },
        _ => None,
    }
}

/// Issues an access token for `sub` at `now` (seconds), valid for fifteen
/// minutes and signed with `secret`: the token of those claims, which
/// reads back as them under the same secret.
pub fn issue_jwt(sub: &str, now: usize, secret: &[u8]) -> (res: Result<String, AuthError>)
    requires
        now + ACCESS_TOKEN_SECONDS <= usize::MAX,
    ensures
        res is Ok,
        res matches Ok(t) ==> t@ == jwt_hs256(sub@, now, (now + ACCESS_TOKEN_SECONDS) as usize, secret@),
        res matches Ok(t) ==> jwt_hs256_claims(t@, secret@) == Some((sub@, now, (now + ACCESS_TOKEN_SECONDS) as usize)),
{
    let claims = access_claims(sub, now);
    match encode_jwt(&claims, secret) {
        Some(t) => Ok(t),
        None => Err(AuthError::TokenCreation),
    }
}

/// Reads an access token signed with `secret`: the claims it carries when
/// it is valid now, `InvalidToken` otherwise.
pub fn decode_jwt(token: &str, secret: &[u8]) -> (res: Result<Claims, AuthError>)
    ensures
        res matches Ok(c) ==> jwt_hs256_claims(token@, secret@) == Some((c.sub@, c.iat, c.exp)),
        res matches Err(e) ==> e == AuthError::InvalidToken,
        jwt_hs256_claims(token@, secret@) is None ==> res is Err,
{
    match decode_hs256(token, secret) {
        Some(c) => Ok(c),
        None => Err(AuthError::InvalidToken),
    }
}

/// A refresh token as stored: its text, expiry instant (milliseconds since
/// the Unix epoch), whether it was revoked, and its user.
#[derive(Debug, Clone, PartialEq, Eq)]
pub struct RefreshToken {
    pub token: String,
    pub exp: i64,
    pub revoked: bool,
    pub user_id: String,
}

/// A refresh token is accepted at `now` when it is not revoked and has not
/// expired.
pub open spec fn refresh_token_accepted(token: RefreshToken, now: int) -> bool {
    !token.revoked && token.exp >= now
}

/// Whether a refresh token is accepted at `now` (milliseconds).
pub fn refresh_token_valid(token: &RefreshToken, now: i64) -> (res: bool)
    ensures
        res == refresh_token_accepted(*token, now as int),
{
    !token.revoked && token.exp >= now
}

/// Whether a refresh token is accepted now, by the system clock. A revoked
/// token never is; an unrevoked one that never expires always is.
pub fn check_refresh_token(token: &RefreshToken) -> (res: bool)
    ensures
        token.revoked ==> !res,
        !token.revoked && token.exp == i64::MAX ==> res,
        res ==> exists|now: int| #[trigger] refresh_token_accepted(*token, now),
{
    let now = clock_millis();
    refresh_token_valid(token, now)
}

/// Whether a text has the shape of a hyphenated lowercase UUID.
pub open spec fn is_uuid_text(s: Seq<char>) -> bool {
    &&& s.len() == 36
    &&& forall|i: int|
        0 <= i < 36 ==> if i == 8 || i == 13 || i == 18 || i == 23 {
            #[trigger] s[i] == '-'
        } else {
            ('0' <= s[i] && s[i] <= '9') || ('a' <= s[i] && s[i] <= 'f')
        }
}

/// Whether a text is a version 4 UUID in hyphenated lowercase form: the
/// version digit `4` opens the third group and the variant digit (one of
/// `8`, `9`, `a`, `b`) opens the fourth.
pub open spec fn is_uuid_v4_text(s: Seq<char>) -> bool {
    &&& is_uuid_text(s)
    &&& s[14] == '4'
    &&& (s[19] == '8' || s[19] == '9' || s[19] == 'a' || s[19] == 'b')
}

/// Calls `uuid::Uuid::new_v4` and formats it with `to_string`, which writes
/// the hyphenated lowercase form. `new_v4` masks random bits so that the
/// version nibble is `4` and the variant bits are `10`. The value is
/// random; the contract claims only that form.
#[verifier::external_body]
fn random_token() -> (res: String)
    ensures
        is_uuid_v4_text(res@),
{
    uuid::Uuid::new_v4().to_string()
}

/// A fresh refresh token of `user_id`, issued at `now` (milliseconds) and
/// valid for seven days; `None` when that expiry does not fit in 64 bits.
pub fn refresh_token_at(token: String, user_id: &str, now: i64) -> (res: Option<RefreshToken>)
    ensures
        res is Some <==> now + REFRESH_TOKEN_MILLIS <= i64::MAX,
        res matches Some(t) ==> t.token == token && t.exp == now + REFRESH_TOKEN_MILLIS && !t.revoked
            && t.user_id@ == user_id@,
{
    if now > i64::MAX - REFRESH_TOKEN_MILLIS {
        None
    } else {
        Some(
            RefreshToken {
                token,
                exp: now + REFRESH_TOKEN_MILLIS,
                revoked: false,
                user_id: String::from_str(user_id),
            },
        )
    }
}

/// Issues a refresh token for `user_id`: a random UUID text, unrevoked,
/// expiring seven days after now; `None` when that expiry does not fit in
/// 64 bits.
pub fn issue_refresh_token(user_id: &str) -> (res: Option<RefreshToken>)
    ensures
        res matches Some(t) ==> is_uuid_v4_text(t.token@) && !t.revoked && t.user_id@ == user_id@
            && t.exp >= i64::MIN + REFRESH_TOKEN_MILLIS,
{
    let token = random_token();
    let now = clock_millis();
    refresh_token_at(token, user_id, now)
}

/// Whether `password` matches a stored PHC hash, as
/// `password_auth::verify_password` decides it.
pub uninterp spec fn password_verifies(password: Seq<char>, hash: Seq<char>) -> bool;

/// Calls `password_auth::verify_password`, which parses the hash and checks
/// the password with the algorithm it names; deterministic in its two
/// arguments. The contract claims: success is `password_verifies`.
#[verifier::external_body]
fn verify_password(password: &str, hash: &str) -> (res: bool)
    ensures
        res == password_verifies(password@, hash@),
{
    password_auth::verify_password(password, hash).is_ok()
}

/// The longest password, in UTF-8 bytes, that can be hashed: Argon2 takes
/// up to `0xFFFF_FFFF` bytes.
pub const MAX_PASSWORD_BYTES: usize = 0xFFFF_FFFF;

/// Calls `password_auth::generate_hash`, which hashes the password with a
/// random salt (Argon2 by default) and panics only when hashing fails, that
/// is for passwords over `0xFFFF_FFFF` bytes. The hash is random; the
/// contract claims only what the crate's documentation promises of it: the
/// password verifies against it.
#[verifier::external_body]
fn generate_hash(password: &str) -> (res: String)
    requires
        vstd::utf8::encode_utf8(password@).len() <= MAX_PASSWORD_BYTES,
    ensures
        password_verifies(password@, res@),
{
    password_auth::generate_hash(password)
}

/// A fresh hash of a password, against which the password verifies.
pub fn hash_password(password: &str) -> (res: String)
    requires
        vstd::utf8::encode_utf8(password@).len() <= MAX_PASSWORD_BYTES,
    ensures
        password_verifies(password@, res@),
{
    generate_hash(password)
}

/// Whether `password` matches the hash.
pub fn password_matches(password: &str, hash: &str) -> (res: bool)
    ensures
        res == password_verifies(password@, hash@),
{
    verify_password(password, hash)
}

/// Why a login is refused.
#[derive(Debug, Clone, Copy, PartialEq, Eq, Structural)]
pub enum LoginError {
    /// No such user, or the password does not match: 401.
    Unauthorized,
    /// The user has no identifier to issue tokens for: 500.
    MissingId,
}

/// The outcome of a login: the user's identifier in hexadecimal when a
/// user was found, the password verifies against their hash, and they have
/// an identifier.
pub open spec fn login_outcome(user: Option<User>, password: Seq<char>) -> Result<Seq<char>, LoginError> {
    match user {
        None => Err(LoginError::Unauthorized),
        Some(u) => if !password_verifies(password, u.password_hash@) {
            Err(LoginError::Unauthorized)
        } else {
            match u.id {
                Some(id) => Ok(hex_encode(id.bytes@)),
                None => Err(LoginError::MissingId),
            }
        },
    }
}

/// Checks login credentials against the user that the email found.
pub fn authenticate(user: &Option<User>, password: &str) -> (res: Result<String, LoginError>)
    ensures
        match (res, login_outcome(*user, password@)) {
            (Ok(id), Ok(expected)) => id@ == expected,
            (Err(e), Err(expected)) => e == expected,
            _ => false,
        },
{
    match user {
        None => Err(LoginError::Unauthorized),
        Some(u) => {
            if !password_matches(password, u.password_hash.as_str()) {
                Err(LoginError::Unauthorized)
            } else {
                match u.id {
                    Some(id) => Ok(id.to_hex()),
                    None => Err(LoginError::MissingId),
                }
            }
        },
    }
}

/// Why a request is refused authentication.
#[derive(Debug, Clone, Copy, PartialEq, Eq, Structural)]
pub enum AuthError {
    WrongCredentials,
    MissingCredentials,
    TokenCreation,
    InvalidToken,
    BadRequest,
}

impl AuthError {
    /// The HTTP status that answers the error.
    pub fn status_code(&self) -> (res: u16)
        ensures
            res == match *self {
                AuthError::WrongCredentials => 401u16,
                AuthError::MissingCredentials => 401u16,
                AuthError::TokenCreation => 500u16,
                AuthError::InvalidToken => 401u16,
                AuthError::BadRequest => 400u16,
            },
    {
        match self {
            AuthError::WrongCredentials => 401,
            AuthError::MissingCredentials => 401,
            AuthError::TokenCreation => 500,
            AuthError::InvalidToken => 401,
            AuthError::BadRequest => 400,
        }
    }

    /// The message that the error's JSON body carries under `error`.
    pub fn message(&self) -> (res: &'static str)
        ensures
            res@ == match *self {
                AuthError::WrongCredentials => "Wrong credentials"@,
                AuthError::MissingCredentials => "Missing credentials"@,
                AuthError::TokenCreation => "Token creation error"@,
                AuthError::InvalidToken => "Invalid token"@,
                AuthError::BadRequest => "Bad request"@,
            },
    {
        match self {
            AuthError::WrongCredentials => "Wrong credentials",
            AuthError::MissingCredentials => "Missing credentials",
            AuthError::TokenCreation => "Token creation error",
            AuthError::InvalidToken => "Invalid token",
            AuthError::BadRequest => "Bad request",
        }
    }
}

/// A refresh token issued at `now` is accepted at every instant from `now`
/// to seven days later and at none after; once revoked it is accepted at no
/// instant.
pub proof fn lemma_refresh_token_lifetime(t: RefreshToken, now: int, at: int)
    requires
        !t.revoked,
        t.exp == now + REFRESH_TOKEN_MILLIS,
    ensures
        now <= at <= now + REFRESH_TOKEN_MILLIS ==> refresh_token_accepted(t, at),
        at > now + REFRESH_TOKEN_MILLIS ==> !refresh_token_accepted(t, at),
        !refresh_token_accepted(RefreshToken { revoked: true, ..t }, at),
{
}

/// Login refuses a password that does not verify against the user's hash,
/// and a missing user.
pub proof fn lemma_login_refuses_wrong_password(user: User, password: Seq<char>)
    requires
        !password_verifies(password, user.password_hash@),
    ensures
        login_outcome(Some(user), password) == Err::<Seq<char>, LoginError>(LoginError::Unauthorized),
        login_outcome(None, password) == Err::<Seq<char>, LoginError>(LoginError::Unauthorized),
{
}
} // verus!
