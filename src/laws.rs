use vstd::prelude::*;

use crate::auth::AuthCookie;
use crate::error::AuthAPIError;
use crate::routes::{
    credentials_ok, login_spec, logout_spec, signup_spec, verify_2fa_spec, verify_token_spec,
    AuthModel, LoginResponse, SignupResponse,
};

verus! {

/// Signup rejects a repeated address: on a store without `email`, a first signup
/// with valid credentials succeeds, and a second one with the same address (and
/// any valid password) fails with `UserAlreadyExists`, leaving the state as it was.
pub proof fn signup_rejects_existing_address(
    s0: AuthModel,
    email: Seq<char>,
    password1: Seq<char>,
    require_2fa1: bool,
    r1: Result<SignupResponse, AuthAPIError>,
    s1: AuthModel,
    password2: Seq<char>,
    require_2fa2: bool,
    r2: Result<SignupResponse, AuthAPIError>,
    s2: AuthModel,
)
    requires
        !s0.users.contains_key(email),
        credentials_ok(email, password1),
        credentials_ok(email, password2),
        signup_spec(s0, email, password1, require_2fa1, r1, s1),
        signup_spec(s1, email, password2, require_2fa2, r2, s2),
    ensures
        r1 is Ok,
        r2 == Err::<SignupResponse, AuthAPIError>(AuthAPIError::UserAlreadyExists),
        s2 == s1,
{
    assert(s1.users.contains_key(email));
}

/// A second-factor challenge is single-use: once verification with
/// (`id`, `code`) has succeeded, the same request fails with
/// `IncorrectCredentials`.
pub proof fn two_fa_challenge_is_single_use(
    s0: AuthModel,
    email: Seq<char>,
    id: Seq<char>,
    code: Seq<char>,
    r1: Result<AuthCookie, AuthAPIError>,
    s1: AuthModel,
    r2: Result<AuthCookie, AuthAPIError>,
    s2: AuthModel,
)
    requires
        verify_2fa_spec(s0, email, id, code, r1, s1),
        r1 is Ok,
        verify_2fa_spec(s1, email, id, code, r2, s2),
    ensures
        r2 == Err::<AuthCookie, AuthAPIError>(AuthAPIError::IncorrectCredentials),
        s2 == s1,
{
    assert(!s1.challenges.contains_key(email));
}

/// A new login replaces the earlier challenge: after two logins of `email` that
/// both asked for a second factor, verifying with the first attempt's id and
/// code fails with `IncorrectCredentials`, unless the second login drew the very
/// same pair.
pub proof fn second_login_invalidates_first_challenge(
    s0: AuthModel,
    email: Seq<char>,
    password1: Seq<char>,
    r1: Result<LoginResponse, AuthAPIError>,
    s1: AuthModel,
    password2: Seq<char>,
    r2: Result<LoginResponse, AuthAPIError>,
    s2: AuthModel,
    r3: Result<AuthCookie, AuthAPIError>,
    s3: AuthModel,
)
    requires
        login_spec(s0, email, password1, r1, s1),
        login_spec(s1, email, password2, r2, s2),
        r1 matches Ok(LoginResponse::TwoFactorAuth { .. }),
        r2 matches Ok(LoginResponse::TwoFactorAuth { .. }),
        r1->Ok_0->response.login_attempt_id@ != r2->Ok_0->response.login_attempt_id@
            || r1->Ok_0->code@ != r2->Ok_0->code@,
        verify_2fa_spec(
            s2,
            email,
            r1->Ok_0->response.login_attempt_id@,
            r1->Ok_0->code@,
            r3,
            s3,
        ),
    ensures
        r3 == Err::<AuthCookie, AuthAPIError>(AuthAPIError::IncorrectCredentials),
        s3 == s2,
{
}

/// Logout revokes the token: after a successful logout with `token`, the token is
/// banned, verifying it fails with `InvalidToken`, and a second logout with it
/// fails with `InvalidToken`.
pub proof fn logout_revokes_token(
    s0: AuthModel,
    token: Seq<char>,
    s1: AuthModel,
    r_verify: Result<(), AuthAPIError>,
    r_logout: Result<(), AuthAPIError>,
    s2: AuthModel,
)
    requires
        logout_spec(s0, Some(token), Ok(()), s1),
        verify_token_spec(s1, token, r_verify),
        logout_spec(s1, Some(token), r_logout, s2),
    ensures
        s1.banned.contains(token),
        r_verify == Err::<(), AuthAPIError>(AuthAPIError::InvalidToken),
        r_logout == Err::<(), AuthAPIError>(AuthAPIError::InvalidToken),
        s2 == s1,
{
}

/// Logout without a cookie reports `MissingToken`, never `InvalidToken`, and
/// changes nothing.
pub proof fn logout_without_cookie_is_missing_token(
    s0: AuthModel,
    r: Result<(), AuthAPIError>,
    s1: AuthModel,
)
    requires
        logout_spec(s0, None, r, s1),
    ensures
        r == Err::<(), AuthAPIError>(AuthAPIError::MissingToken),
        r != Err::<(), AuthAPIError>(AuthAPIError::InvalidToken),
        s1 == s0,
{
}

} // verus!
