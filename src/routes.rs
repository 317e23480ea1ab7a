use vstd::prelude::*;

use crate::auth::{
    clock_expiry_fits_usize, generate_auth_cookie, has_three_segments, is_issued_cookie, validate_token, AuthCookie,
    Claims, TokenError,
};
use crate::banned_token_store::HashsetBannedTokenStore;
use crate::email::{validate_email_of, Email};
use crate::error::AuthAPIError;
use crate::password::{password_ok, Password};
use crate::two_fa::{two_fa_code_ok, uuid_text_of, LoginAttemptId, TwoFACode};
use crate::two_fa_code_store::HashmapTwoFACodeStore;
use crate::user::User;
use crate::user_store::HashmapUserStore;

verus! {

/// The shared state of the use cases: the three stores and the signing secret.
pub struct AppState {
    pub user_store: HashmapUserStore,
    pub banned_token_store: HashsetBannedTokenStore,
    pub two_fa_code_store: HashmapTwoFACodeStore,
    pub jwt_secret: String,
}

/// The abstract state: accounts (address to password and 2FA flag), banned
/// tokens, live challenges (address to attempt id and code), and the secret.
pub struct AuthModel {
    pub users: Map<Seq<char>, (Seq<char>, bool)>,
    pub banned: Set<Seq<char>>,
    pub challenges: Map<Seq<char>, (Seq<char>, Seq<char>)>,
    pub secret: Seq<char>,
}

impl View for AppState {
    type V = AuthModel;

    open spec fn view(&self) -> AuthModel {
        AuthModel {
            users: self.user_store@,
            banned: self.banned_token_store@,
            challenges: self.two_fa_code_store@,
            secret: self.jwt_secret@,
        }
    }
}

impl AppState {
    pub open spec fn wf(&self) -> bool {
        &&& self.user_store.wf()
        &&& self.banned_token_store.wf()
        &&& self.two_fa_code_store.wf()
    }

    /// Empty stores and the given signing secret.
    pub fn new(jwt_secret: String) -> (r: AppState)
        ensures
            r.wf(),
            r@.users == Map::<Seq<char>, (Seq<char>, bool)>::empty(),
            r@.banned == Set::<Seq<char>>::empty(),
            r@.challenges == Map::<Seq<char>, (Seq<char>, Seq<char>)>::empty(),
            r@.secret == jwt_secret@,
    {
        AppState {
            user_store: HashmapUserStore::new(),
            banned_token_store: HashsetBannedTokenStore::new(),
            two_fa_code_store: HashmapTwoFACodeStore::new(),
            jwt_secret,
        }
    }
}

pub struct SignupRequest {
    pub email: String,
    pub password: String,
    pub require_2fa: bool,
}

pub struct SignupResponse {
    pub message: String,
}

pub struct LoginRequest {
    pub email: String,
    pub password: String,
}

/// What the client learns when login asks for a second factor.
pub struct TwoFactorAuthResponse {
    pub message: String,
    pub login_attempt_id: String,
}

/// The outcome of a successful login.
pub enum LoginResponse {
    /// No second factor: the session cookie.
    RegularAuth(AuthCookie),
    /// A challenge was recorded: the response for the client, and the address and
    /// code to deliver out of band.
    TwoFactorAuth { response: TwoFactorAuthResponse, email: Email, code: TwoFACode },
}

pub struct Verify2FARequest {
    pub email: String,
    pub login_attempt_id: String,
    pub two_fa_code: String,
}

pub struct VerifyTokenRequest {
    pub token: String,
}

/// Both strings parse: a valid address and an acceptable password.
pub open spec fn credentials_ok(email: Seq<char>, password: Seq<char>) -> bool {
    validate_email_of(email) && password_ok(password)
}

/// `email` has an account whose password is `password`.
pub open spec fn password_matches(m: AuthModel, email: Seq<char>, password: Seq<char>) -> bool {
    m.users.contains_key(email) && m.users[email].0 == password
}

/// Signup: the result and the state after it.
pub open spec fn signup_spec(
    before: AuthModel,
    email: Seq<char>,
    password: Seq<char>,
    require_2fa: bool,
    r: Result<SignupResponse, AuthAPIError>,
    after: AuthModel,
) -> bool {
    if !credentials_ok(email, password) {
        r == Err::<SignupResponse, AuthAPIError>(AuthAPIError::InvalidCredentials) && after == before
    } else if before.users.contains_key(email) {
        r == Err::<SignupResponse, AuthAPIError>(AuthAPIError::UserAlreadyExists) && after == before
    } else {
        &&& r matches Ok(resp) && resp.message@ == "User created successfully!"@
        &&& after == AuthModel { users: before.users.insert(email, (password, require_2fa)), ..before }
    }
}

/// Login: the result and the state after it.
pub open spec fn login_spec(
    before: AuthModel,
    email: Seq<char>,
    password: Seq<char>,
    r: Result<LoginResponse, AuthAPIError>,
    after: AuthModel,
) -> bool {
    if !credentials_ok(email, password) {
        r == Err::<LoginResponse, AuthAPIError>(AuthAPIError::InvalidCredentials) && after == before
    } else if !password_matches(before, email, password) {
        r == Err::<LoginResponse, AuthAPIError>(AuthAPIError::IncorrectCredentials) && after
            == before
    } else if !before.users[email].1 {
        &&& after == before
        &&& r == Err::<LoginResponse, AuthAPIError>(AuthAPIError::UnexpectedError) || (r matches Ok(
            LoginResponse::RegularAuth(c),
        ) && is_issued_cookie(c, email, before.secret))
        &&& clock_expiry_fits_usize() ==> r is Ok
    } else {
        &&& r matches Ok(LoginResponse::TwoFactorAuth { response, email: e, code })
        &&& response.message@ == "2FA required"@
        &&& uuid_text_of(response.login_attempt_id@)
        &&& two_fa_code_ok(code@)
        &&& e@ == email
        &&& after == AuthModel {
            challenges: before.challenges.insert(email, (response.login_attempt_id@, code@)),
            ..before
        }
    }
}

/// The three strings of a second-factor request parse.
pub open spec fn two_fa_request_ok(email: Seq<char>, id: Seq<char>, code: Seq<char>) -> bool {
    validate_email_of(email) && uuid_text_of(id) && two_fa_code_ok(code)
}

/// Second-factor verification: the result and the state after it.
pub open spec fn verify_2fa_spec(
    before: AuthModel,
    email: Seq<char>,
    id: Seq<char>,
    code: Seq<char>,
    r: Result<AuthCookie, AuthAPIError>,
    after: AuthModel,
) -> bool {
    if !two_fa_request_ok(email, id, code) {
        r == Err::<AuthCookie, AuthAPIError>(AuthAPIError::InvalidCredentials) && after == before
    } else if !before.challenges.contains_key(email) || before.challenges[email] != (id, code) {
        r == Err::<AuthCookie, AuthAPIError>(AuthAPIError::IncorrectCredentials) && after == before
    } else {
        &&& after == AuthModel { challenges: before.challenges.remove(email), ..before }
        &&& r == Err::<AuthCookie, AuthAPIError>(AuthAPIError::UnexpectedError) || (r matches Ok(c)
            && is_issued_cookie(c, email, before.secret))
        &&& clock_expiry_fits_usize() ==> r is Ok
    }
}

/// Logout with the token of the `jwt` cookie, if there was one.
pub open spec fn logout_spec(
    before: AuthModel,
    jwt: Option<Seq<char>>,
    r: Result<(), AuthAPIError>,
    after: AuthModel,
) -> bool {
    match jwt {
        None => r == Err::<(), AuthAPIError>(AuthAPIError::MissingToken) && after == before,
        Some(t) => if before.banned.contains(t) {
            r == Err::<(), AuthAPIError>(AuthAPIError::InvalidToken) && after == before
        } else {
            ||| r == Err::<(), AuthAPIError>(AuthAPIError::InvalidToken) && after == before
            ||| r is Ok && after == AuthModel { banned: before.banned.insert(t), ..before }
        },
    }
}

/// Token verification: a banned token is refused, and refusal is always
/// `InvalidToken`.
pub open spec fn verify_token_spec(m: AuthModel, token: Seq<char>, r: Result<(), AuthAPIError>) -> bool {
    &&& m.banned.contains(token) ==> r == Err::<(), AuthAPIError>(AuthAPIError::InvalidToken)
    &&& r matches Err(e) ==> e == AuthAPIError::InvalidToken
    &&& r is Ok ==> has_three_segments(token)
}

/// Creates an account.
pub fn signup(state: &mut AppState, request: SignupRequest) -> (r: Result<SignupResponse, AuthAPIError>)
    requires
        old(state).wf(),
    ensures
        final(state).wf(),
        signup_spec(old(state)@, request.email@, request.password@, request.require_2fa, r, final(state)@),
{
    let email = match Email::parse(request.email) {
        Ok(e) => e,
        Err(_) => return Err(AuthAPIError::InvalidCredentials),
    };
    let password = match Password::parse(request.password) {
        Ok(p) => p,
        Err(_) => return Err(AuthAPIError::InvalidCredentials),
    };
    let user = User::new(email, password, request.require_2fa);
    if state.user_store.get_user(&user.email).is_ok() {
        return Err(AuthAPIError::UserAlreadyExists);
    }
    match state.user_store.add_user(user) {
        Ok(()) => {},
        Err(_) => return Err(AuthAPIError::UnexpectedError),
    }
    Ok(SignupResponse { message: "User created successfully!".to_string() })
}

/// Checks the credentials of a login; on success, the address and its 2FA flag.
fn authenticate(state: &AppState, request: LoginRequest) -> (r: Result<(Email, bool), AuthAPIError>)
    requires
        state.wf(),
    ensures
        !credentials_ok(request.email@, request.password@) ==> r == Err::<(Email, bool), AuthAPIError>(
            AuthAPIError::InvalidCredentials,
        ),
        credentials_ok(request.email@, request.password@) && !password_matches(
            state@,
            request.email@,
            request.password@,
        ) ==> r == Err::<(Email, bool), AuthAPIError>(AuthAPIError::IncorrectCredentials),
        credentials_ok(request.email@, request.password@) && password_matches(
            state@,
            request.email@,
            request.password@,
        ) ==> (r matches Ok((e, f)) && e@ == request.email@ && f == state@.users[request.email@].1),
{
    let email = match Email::parse(request.email) {
        Ok(e) => e,
        Err(_) => return Err(AuthAPIError::InvalidCredentials),
    };
    let password = match Password::parse(request.password) {
        Ok(p) => p,
        Err(_) => return Err(AuthAPIError::InvalidCredentials),
    };
    match state.user_store.validate_user(&email, &password) {
        Ok(()) => {},
        Err(_) => return Err(AuthAPIError::IncorrectCredentials),
    }
    match state.user_store.get_user(&email) {
        Ok(user) => Ok((email, user.require_2fa)),
        Err(_) => Err(AuthAPIError::IncorrectCredentials),
    }
}

/// Login without a second factor: the session cookie for `email`.
pub fn handle_no_2fa(email: &Email, secret: &str) -> (r: Result<LoginResponse, AuthAPIError>)
    ensures
        r == Err::<LoginResponse, AuthAPIError>(AuthAPIError::UnexpectedError) || (r matches Ok(
            LoginResponse::RegularAuth(c),
        ) && is_issued_cookie(c, email@, secret@)),
        clock_expiry_fits_usize() ==> r is Ok,
{
    match generate_auth_cookie(email, secret) {
        Ok(c) => Ok(LoginResponse::RegularAuth(c)),
        Err(_) => Err(AuthAPIError::UnexpectedError),
    }
}

/// Login with a second factor: records the challenge (`login_attempt_id`, `code`)
/// for `email`, replacing any earlier one, and hands out the attempt id.
pub fn handle_2fa(
    state: &mut AppState,
    email: Email,
    login_attempt_id: LoginAttemptId,
    code: TwoFACode,
) -> (r: Result<LoginResponse, AuthAPIError>)
    requires
        old(state).wf(),
    ensures
        final(state).wf(),
        r matches Ok(LoginResponse::TwoFactorAuth { response, email: e, code: c }) && response.message@
            == "2FA required"@ && response.login_attempt_id@ == login_attempt_id@ && e@ == email@ && c@
            == code@,
        uuid_text_of(login_attempt_id@),
        two_fa_code_ok(code@),
        final(state)@ == (AuthModel {
            challenges: old(state)@.challenges.insert(email@, (login_attempt_id@, code@)),
            ..old(state)@
        }),
{
    let response = TwoFactorAuthResponse {
        message: "2FA required".to_string(),
        login_attempt_id: login_attempt_id.as_str().to_string(),
    };
    let e = email.clone();
    let c = code.clone();
    match state.two_fa_code_store.add_code(email, login_attempt_id, code) {
        Ok(()) => Ok(LoginResponse::TwoFactorAuth { response, email: e, code: c }),
        Err(_) => Err(AuthAPIError::UnexpectedError),
    }
}

/// Logs in with an address and a password.
pub fn login(state: &mut AppState, request: LoginRequest) -> (r: Result<LoginResponse, AuthAPIError>)
    requires
        old(state).wf(),
    ensures
        final(state).wf(),
        login_spec(old(state)@, request.email@, request.password@, r, final(state)@),
{
    let (email, require_2fa) = match authenticate(state, request) {
        Ok(p) => p,
        Err(e) => return Err(e),
    };
    if require_2fa {
        let login_attempt_id = LoginAttemptId::default();
        let code = TwoFACode::default();
        handle_2fa(state, email, login_attempt_id, code)
    } else {
        handle_no_2fa(&email, state.jwt_secret.as_str())
    }
}

/// Completes a login with its second factor: the challenge of the address must
/// be exactly (attempt id, code); it is consumed, and the session cookie issued.
pub fn verify_2fa(state: &mut AppState, request: Verify2FARequest) -> (r: Result<AuthCookie, AuthAPIError>)
    requires
        old(state).wf(),
    ensures
        final(state).wf(),
        verify_2fa_spec(
            old(state)@,
            request.email@,
            request.login_attempt_id@,
            request.two_fa_code@,
            r,
            final(state)@,
        ),
{
    let email = match Email::parse(request.email) {
        Ok(e) => e,
        Err(_) => return Err(AuthAPIError::InvalidCredentials),
    };
    let login_attempt_id = match LoginAttemptId::parse(request.login_attempt_id) {
        Ok(i) => i,
        Err(_) => return Err(AuthAPIError::InvalidCredentials),
    };
    let code = match TwoFACode::parse(request.two_fa_code) {
        Ok(c) => c,
        Err(_) => return Err(AuthAPIError::InvalidCredentials),
    };
    let (stored_id, stored_code) = match state.two_fa_code_store.get_code(&email) {
        Ok(p) => p,
        Err(_) => return Err(AuthAPIError::IncorrectCredentials),
    };
    if !stored_id.matches(&login_attempt_id) || !stored_code.matches(&code) {
        return Err(AuthAPIError::IncorrectCredentials);
    }
    match state.two_fa_code_store.remove_code(&email) {
        Ok(()) => {},
        Err(_) => return Err(AuthAPIError::UnexpectedError),
    }
    match generate_auth_cookie(&email, state.jwt_secret.as_str()) {
        Ok(c) => Ok(c),
        Err(_) => Err(AuthAPIError::UnexpectedError),
    }
}

/// The text of the token in an optional cookie value.
pub open spec fn cookie_token(jwt: Option<String>) -> Option<Seq<char>> {
    match jwt {
        Some(t) => Some(t@),
        None => None,
    }
}

/// Completes a logout once `token` has been checked: an accepted token is banned
/// and the logout succeeds; a refused one gives `InvalidToken` and changes nothing.
pub fn logout_checked(state: &mut AppState, token: String, checked: Result<Claims, TokenError>) -> (r:
    Result<(), AuthAPIError>)
    requires
        old(state).wf(),
    ensures
        final(state).wf(),
        checked is Ok ==> r is Ok && final(state)@ == (AuthModel {
            banned: old(state)@.banned.insert(token@),
            ..old(state)@
        }),
        checked is Err ==> r == Err::<(), AuthAPIError>(AuthAPIError::InvalidToken) && final(state)@
            == old(state)@,
{
    match checked {
        Ok(_) => {},
        Err(_) => return Err(AuthAPIError::InvalidToken),
    }
    match state.banned_token_store.add_token(token) {
        Ok(()) => Ok(()),
        Err(_) => Err(AuthAPIError::UnexpectedError),
    }
}

/// Logs out: bans the token of the `jwt` cookie, if it is valid.
pub fn logout(state: &mut AppState, jwt: Option<String>) -> (r: Result<(), AuthAPIError>)
    requires
        old(state).wf(),
    ensures
        final(state).wf(),
        logout_spec(old(state)@, cookie_token(jwt), r, final(state)@),
{
    let token = match jwt {
        Some(t) => t,
        None => return Err(AuthAPIError::MissingToken),
    };
    let checked = validate_token(token.as_str(), &state.banned_token_store, state.jwt_secret.as_str());
    logout_checked(state, token, checked)
}

/// Checks a token: it must not be banned, and its signature and expiry must
/// check out.
pub fn verify_token(state: &AppState, request: VerifyTokenRequest) -> (r: Result<(), AuthAPIError>)
    requires
        state.wf(),
    ensures
        verify_token_spec(state@, request.token@, r),
{
    match validate_token(request.token.as_str(), &state.banned_token_store, state.jwt_secret.as_str()) {
        Ok(_) => Ok(()),
        Err(_) => Err(AuthAPIError::InvalidToken),
    }
}

} // verus!
