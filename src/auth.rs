use vstd::prelude::*;

use crate::banned_token_store::HashsetBannedTokenStore;
use crate::email::Email;

verus! {

/// `jsonwebtoken::errors::Error`, carried only to be mapped to `TokenError`.
#[verifier::external_type_specification]
#[verifier::external_body]
pub struct ExJwtError(jsonwebtoken::errors::Error);

/// The name of the cookie that carries the bearer token.
pub const JWT_COOKIE_NAME: &'static str = "jwt";

/// How long, in seconds, an issued token is valid.
pub const TOKEN_TTL_SECONDS: i64 = 900;

/// The token that `jsonwebtoken::encode` produces for the claims {sub, exp}
/// signed with `secret`.
pub uninterp spec fn jwt_of(sub: Seq<char>, exp: int, secret: Seq<char>) -> Seq<char>;

/// `s` is three non-empty parts separated by two dots (header.payload.signature).
pub open spec fn has_three_segments(s: Seq<char>) -> bool {
    exists|i: int, j: int|
        #![trigger s[i], s[j]]
        0 < i && i + 1 < j && j + 1 < s.len() && s[i] == '.' && s[j] == '.' && forall|k: int|
            0 <= k < s.len() && k != i && k != j ==> #[trigger] s[k] != '.'
}

/// The latest second that chrono's `DateTime<Utc>` can hold is no later than this
/// (the end of year 262143).
pub const LATEST_TIMESTAMP: i64 = 8_210_298_412_799;

/// Relies on `chrono::Utc::now` and `DateTime::timestamp`: the current time in
/// seconds since the Unix epoch. Its source panics for a clock before the epoch
/// and unwraps `DateTime::from_timestamp`, so a returned value lies in chrono's
/// range.
#[verifier::external_body]
fn now_timestamp() -> (r: i64)
    ensures
        r >= 0,
        r <= LATEST_TIMESTAMP,
{
    chrono::Utc::now().timestamp()
}

/// Relies on `jsonwebtoken::encode` with the default header (HS256), the claims
/// object {"sub", "exp"} and an HMAC key from the secret's bytes. Its source
/// cannot fail here: the key family matches HS256, the header and a JSON map
/// always serialise, and HMAC signing never errs. Signing is deterministic, and
/// the result joins three URL-safe, unpadded base64 parts (none empty) with `.`.
#[verifier::external_body]
fn encode_token(sub: &str, exp: usize, secret: &str) -> (r: Result<String, jsonwebtoken::errors::Error>)
    ensures
        r is Ok,
        r matches Ok(t) ==> t@ == jwt_of(sub@, exp as int, secret@) && has_three_segments(t@),
{
    let mut claims = serde_json::Map::new();
    claims.insert("sub".to_string(), serde_json::Value::from(sub));
    claims.insert("exp".to_string(), serde_json::Value::from(exp));
    let key = jsonwebtoken::EncodingKey::from_secret(secret.as_bytes());
    jsonwebtoken::encode(&jsonwebtoken::Header::default(), &claims, &key)
}

/// A decoding outcome, where it is `Ok`, carries the claims `sub` and `exp`.
pub open spec fn decoded_as(
    r: Result<(Option<String>, Option<u64>), jsonwebtoken::errors::Error>,
    sub: Seq<char>,
    exp: int,
) -> bool {
    r matches Ok(p) ==> (p.0 matches Some(s) && s@ == sub && p.1 == Some(exp as u64))
}

/// Relies on `jsonwebtoken::decode` with `Validation::default()` (HS256 signature,
/// `exp` present and not past, with the crate's leeway) and an HMAC key from the
/// secret's bytes; of the claims it hands on `sub` as a string and `exp` as an
/// unsigned number, each where present. Whether it accepts depends on the clock.
/// Its source splits an accepted token at two dots into a base64 header, payload
/// and signature, none empty; and an accepted token made by `encode_token`
/// carries the claims that were signed.
#[verifier::external_body]
fn decode_token(token: &str, secret: &str) -> (r: Result<
    (Option<String>, Option<u64>),
    jsonwebtoken::errors::Error,
>)
    ensures
        r is Ok ==> has_three_segments(token@),
        forall|sub: Seq<char>, exp: int|
            #![trigger jwt_of(sub, exp, secret@)]
            0 <= exp <= usize::MAX && token@ == jwt_of(sub, exp, secret@) ==> decoded_as(r, sub, exp),
{
    let key = jsonwebtoken::DecodingKey::from_secret(secret.as_bytes());
    jsonwebtoken::decode::<serde_json::Value>(token, &key, &jsonwebtoken::Validation::default()).map(
        |data| (data.claims["sub"].as_str().map(String::from), data.claims["exp"].as_u64()),
    )
}

/// Why a token could not be issued or was refused.
#[derive(Debug, Clone, Copy, PartialEq, Eq, Structural)]
pub enum TokenError {
    /// The token is revoked, or its signature, expiry or shape is wrong; which
    /// check failed is not told.
    InvalidToken,
    /// The expiry time does not fit the claims.
    ExpiryOutOfRange,
    /// Signing failed.
    CreationFailed,
}

/// The claims of a token: its subject (an email address) and its expiry, in
/// seconds since the Unix epoch.
#[derive(Debug)]
pub struct Claims {
    pub sub: String,
    pub exp: usize,
}

/// Signs `claims` with `secret`.
pub fn create_token(claims: &Claims, secret: &str) -> (r: Result<String, TokenError>)
    ensures
        r matches Ok(t) && t@ == jwt_of(claims.sub@, claims.exp as int, secret@)
            && has_three_segments(t@),
{
    match encode_token(claims.sub.as_str(), claims.exp, secret) {
        Ok(t) => Ok(t),
        Err(_) => Err(TokenError::CreationFailed),
    }
}

/// The expiry of a token issued at `now`, if it fits both `i64` and `usize`.
pub open spec fn expiry_fits(now: int) -> bool {
    0 <= now + TOKEN_TTL_SECONDS <= i64::MAX && now + TOKEN_TTL_SECONDS <= usize::MAX
}

/// The token for `email`, issued at time `now` and valid for `TOKEN_TTL_SECONDS`.
pub fn auth_token_at(email: &Email, secret: &str, now: i64) -> (r: Result<String, TokenError>)
    ensures
        !expiry_fits(now as int) ==> r == Err::<String, TokenError>(TokenError::ExpiryOutOfRange),
        expiry_fits(now as int) ==> (r matches Ok(t) && t@ == jwt_of(
            email@,
            now + TOKEN_TTL_SECONDS,
            secret@,
        ) && has_three_segments(t@)),
{
    let exp = match now.checked_add(TOKEN_TTL_SECONDS) {
        Some(e) => e,
        None => return Err(TokenError::ExpiryOutOfRange),
    };
    if exp < 0 || exp as u64 > usize::MAX as u64 {
        return Err(TokenError::ExpiryOutOfRange);
    }
    let claims = Claims { sub: email.to_string_value(), exp: exp as usize };
    create_token(&claims, secret)
}

/// The expiry of any token issued by chrono's clock fits `usize` (true where
/// `usize` has 64 bits).
pub open spec fn clock_expiry_fits_usize() -> bool {
    LATEST_TIMESTAMP + TOKEN_TTL_SECONDS <= usize::MAX
}

/// `t` is a token for `email` issued at some time `now` of the clock.
pub open spec fn is_issued_token(t: Seq<char>, email: Seq<char>, secret: Seq<char>) -> bool {
    &&& has_three_segments(t)
    &&& exists|now: int|
        0 <= now <= LATEST_TIMESTAMP && t == #[trigger] jwt_of(email, now + TOKEN_TTL_SECONDS, secret)
}

/// A token for `email`, issued now.
pub fn generate_auth_token(email: &Email, secret: &str) -> (r: Result<String, TokenError>)
    ensures
        r matches Ok(t) ==> is_issued_token(t@, email@, secret@),
        clock_expiry_fits_usize() ==> r is Ok,
        r matches Err(e) ==> e == TokenError::ExpiryOutOfRange,
{
    let now = now_timestamp();
    let r = auth_token_at(email, secret, now);
    assert(r matches Ok(t) ==> t@ == jwt_of(email@, now + TOKEN_TTL_SECONDS, secret@));
    r
}

/// The `SameSite` attribute of a cookie.
#[derive(Debug, Clone, Copy, PartialEq, Eq, Structural)]
pub enum SameSite {
    Strict,
    Lax,
    /// Sent with cross-site requests too (`SameSite=None`).
    Unrestricted,
}

/// A cookie to set on the client.
#[derive(Debug)]
pub struct AuthCookie {
    pub name: String,
    pub value: String,
    pub path: Option<String>,
    pub http_only: Option<bool>,
    pub same_site: Option<SameSite>,
}

/// `c` is the auth cookie carrying `token`: named `jwt`, path `/`, HTTP-only,
/// `SameSite=Lax`.
pub open spec fn is_auth_cookie(c: AuthCookie, token: Seq<char>) -> bool {
    &&& c.name@ == JWT_COOKIE_NAME@
    &&& c.value@ == token
    &&& c.path matches Some(p) && p@ == "/"@
    &&& c.http_only == Some(true)
    &&& c.same_site == Some(SameSite::Lax)
}

/// `c` is an auth cookie with a token issued for `email` under `secret`.
pub open spec fn is_issued_cookie(c: AuthCookie, email: Seq<char>, secret: Seq<char>) -> bool {
    &&& is_auth_cookie(c, c.value@)
    &&& is_issued_token(c.value@, email, secret)
}

impl AuthCookie {
    pub fn name(&self) -> (r: &str)
        ensures
            r@ == self.name@,
    {
        self.name.as_str()
    }

    pub fn value(&self) -> (r: &str)
        ensures
            r@ == self.value@,
    {
        self.value.as_str()
    }

    pub fn path(&self) -> (r: Option<&str>)
        ensures
            r matches Some(p) ==> self.path matches Some(q) && p@ == q@,
            r is None <==> self.path is None,
    {
        match &self.path {
            Some(p) => Some(p.as_str()),
            None => None,
        }
    }

    pub fn http_only(&self) -> (r: Option<bool>)
        ensures
            r == self.http_only,
    {
        self.http_only
    }

    pub fn same_site(&self) -> (r: Option<SameSite>)
        ensures
            r == self.same_site,
    {
        self.same_site
    }
}

/// The auth cookie that carries `token`.
pub fn create_auth_cookie(token: String) -> (c: AuthCookie)
    ensures
        is_auth_cookie(c, token@),
{
    AuthCookie {
        name: JWT_COOKIE_NAME.to_string(),
        value: token,
        path: Some("/".to_string()),
        http_only: Some(true),
        same_site: Some(SameSite::Lax),
    }
}

/// The auth cookie for `email`, with a token issued now.
pub fn generate_auth_cookie(email: &Email, secret: &str) -> (r: Result<AuthCookie, TokenError>)
    ensures
        r matches Ok(c) ==> is_issued_cookie(c, email@, secret@),
        clock_expiry_fits_usize() ==> r is Ok,
        r matches Err(e) ==> e == TokenError::ExpiryOutOfRange,
{
    match generate_auth_token(email, secret) {
        Ok(token) => Ok(create_auth_cookie(token)),
        Err(e) => Err(e),
    }
}

/// The claims read from a decoded token, where it had both: `sub` as text and
/// `exp` as a number that fits `usize`.
pub fn claims_from_decoded(decoded: Option<(Option<String>, Option<u64>)>) -> (r: Result<
    Claims,
    TokenError,
>)
    ensures
        r is Ok <==> (decoded matches Some((Some(_), Some(exp))) && exp <= usize::MAX),
        r matches Ok(c) ==> decoded matches Some((Some(sub), Some(exp))) && c.sub@ == sub@
            && c.exp == exp,
        r matches Err(e) ==> e == TokenError::InvalidToken,
{
    match decoded {
        Some((Some(sub), Some(exp))) => {
            if exp as u128 <= usize::MAX as u128 {
                Ok(Claims { sub, exp: exp as usize })
            } else {
                Err(TokenError::InvalidToken)
            }
        },
        _ => Err(TokenError::InvalidToken),
    }
}

/// An accepted token's claims are `sub` and `exp`.
pub open spec fn claims_are(r: Result<Claims, TokenError>, sub: Seq<char>, exp: int) -> bool {
    r matches Ok(c) ==> (c.sub@ == sub && c.exp == exp)
}

/// Accepts `token` only if it is not banned and its signature and expiry check
/// out under `secret`; any refusal is the same `InvalidToken`.
pub fn validate_token(token: &str, banned_token_store: &HashsetBannedTokenStore, secret: &str) -> (r:
    Result<Claims, TokenError>)
    requires
        banned_token_store.wf(),
    ensures
        banned_token_store@.contains(token@) ==> r == Err::<Claims, TokenError>(
            TokenError::InvalidToken,
        ),
        r matches Err(e) ==> e == TokenError::InvalidToken,
        r is Ok ==> has_three_segments(token@),
        forall|sub: Seq<char>, exp: int|
            #![trigger jwt_of(sub, exp, secret@)]
            0 <= exp <= usize::MAX && token@ == jwt_of(sub, exp, secret@) ==> claims_are(r, sub, exp),
{
    match banned_token_store.contains_token(token) {
        Ok(true) => return Err(TokenError::InvalidToken),
        _ => {},
    }
    let decoded = match decode_token(token, secret) {
        Ok(p) => Some(p),
        Err(_) => None,
    };
    claims_from_decoded(decoded)
}

} // verus!
