use crate::domain::data_stores::is_login_attempt_id;
use crate::domain::data_stores::is_two_fa_code;
use crate::domain::data_stores::EmailClient;
use crate::domain::data_stores::IdentityRecord;
use crate::domain::data_stores::LoginAttemptId;
use crate::domain::data_stores::PendingChallenge;
use crate::domain::data_stores::SentEmail;
use crate::domain::data_stores::TwoFACode;
use crate::domain::data_stores::TwoFACodeStore;
use crate::domain::data_stores::TwoFACodeStoreError;
use crate::domain::user::User;
use crate::domain::data_stores::UserStore;
use crate::domain::data_stores::UserStoreError;
use crate::domain::email::email_syntax_valid;
use crate::domain::email::Email;
use crate::domain::error::AuthAPIError;
use crate::domain::password::acceptable_password;
use crate::domain::password::Password;
use crate::domain::secret::SecretString;
use crate::routes::verify_token::STATUS_OK;
use crate::services::postgres_user_store::hash_verifies;
use crate::utils::auth::expiry_at;
use crate::utils::auth::generate_auth_cookie_at;
use crate::utils::auth::issued_token;
use crate::utils::auth::jwt_verified;
use crate::utils::auth::AuthCookie;
use crate::utils::auth::SameSite;
use crate::utils::auth::TokenError;
use crate::utils::constants::JWT_COOKIE_NAME;
use vstd::prelude::*;
use vstd::string::StringExecFns;

verus! {

/// The status of a login that waits for its second factor.
pub const STATUS_PARTIAL_CONTENT: u16 = 206;

/// How long a challenge stays pending, in seconds.
pub const CHALLENGE_TTL_SECONDS: u64 = 600;

pub struct LoginRequest {
    pub email: String,
    pub password: String,
}

/// If the identity asks for a second factor, this is what a login answers.
#[derive(Debug)]
pub struct TwoFactorAuthResponse {
    pub message: String,
    pub login_attempt_id: String,
}

/// The two answers of a login that went through.
#[derive(Debug)]
pub enum LoginResponse {
    RegularAuth,
    TwoFactorAuth(TwoFactorAuthResponse),
}

/// Whether `email` and `password` are well formed.
pub open spec fn credentials_well_formed(email: Seq<char>, password: Seq<char>) -> bool {
    email_syntax_valid(email) && acceptable_password(password)
}

/// Whether `email` is registered in `users` and `password` verifies against
/// its hash.
pub open spec fn credentials_accepted(
    users: Map<Seq<char>, IdentityRecord>,
    email: Seq<char>,
    password: Seq<char>,
) -> bool {
    &&& credentials_well_formed(email, password)
    &&& users.contains_key(email)
    &&& hash_verifies(users[email].password_hash, password)
}

/// Whether `cookie` is the session cookie issued to `email` at `now`.
pub open spec fn is_session_cookie(
    cookie: AuthCookie,
    email: Seq<char>,
    secret: Seq<char>,
    now: i64,
) -> bool {
    &&& issued_token(email, secret, now) == Some(cookie.value@)
    &&& jwt_verified(cookie.value@, secret) == Some((email, expiry_at(now)->0))
    &&& cookie.name@ == JWT_COOKIE_NAME@
    &&& cookie.path@ == "/"@
    &&& cookie.http_only
    &&& cookie.same_site == SameSite::Lax
}

/// Whether `after` is `before` with a fresh challenge under `email`, in
/// place of the one that may have been there.
pub open spec fn challenge_put(
    before: Map<Seq<char>, PendingChallenge>,
    email: Seq<char>,
    after: Map<Seq<char>, PendingChallenge>,
) -> bool {
    &&& after == before.insert(email, after[email])
    &&& is_login_attempt_id(after[email].login_attempt_id)
    &&& is_two_fa_code(after[email].code)
    &&& after[email].ttl_seconds == CHALLENGE_TTL_SECONDS
}

/// What issuing a challenge to `email` does and answers.
pub open spec fn handle_2fa_post(
    before: Map<Seq<char>, PendingChallenge>,
    sent_before: Seq<SentEmail>,
    email: Seq<char>,
    after: Map<Seq<char>, PendingChallenge>,
    sent_after: Seq<SentEmail>,
    r: (Option<AuthCookie>, Result<(u16, LoginResponse), AuthAPIError>),
) -> bool {
    &&& r.0 is None
    &&& r.1 matches Ok((status, LoginResponse::TwoFactorAuth(answer)))
    &&& status == STATUS_PARTIAL_CONTENT
    &&& answer.message@ == "2FA required"@
    &&& challenge_put(before, email, after)
    &&& answer.login_attempt_id@ == after[email].login_attempt_id
    &&& sent_after == sent_before.push(
        SentEmail { recipient: email, subject: "2FA Code"@, content: after[email].code },
    )
}

/// What issuing a session to `email` at `now` answers.
pub open spec fn handle_no_2fa_post(
    email: Seq<char>,
    secret: Seq<char>,
    now: i64,
    r: (Option<AuthCookie>, Result<(u16, LoginResponse), AuthAPIError>),
) -> bool {
    match r.1 {
        Ok((status, LoginResponse::RegularAuth)) => {
            &&& status == STATUS_OK
            &&& r.0 matches Some(cookie)
            &&& is_session_cookie(cookie, email, secret, now)
        },
        Err(AuthAPIError::UnexpectedError(_)) => r.0 is None && issued_token(email, secret, now)
            is None,
        _ => false,
    }
}

/// The answer to a login that is refused with `error`.
pub open spec fn refused(
    r: (Option<AuthCookie>, Result<(u16, LoginResponse), AuthAPIError>),
    error: AuthAPIError,
) -> bool {
    r.0 is None && r.1 == Err::<(u16, LoginResponse), _>(error)
}

/// What a login does and answers.
pub open spec fn login_post(
    users: Map<Seq<char>, IdentityRecord>,
    before: Map<Seq<char>, PendingChallenge>,
    sent_before: Seq<SentEmail>,
    email: Seq<char>,
    password: Seq<char>,
    secret: Seq<char>,
    now: i64,
    after: Map<Seq<char>, PendingChallenge>,
    sent_after: Seq<SentEmail>,
    r: (Option<AuthCookie>, Result<(u16, LoginResponse), AuthAPIError>),
) -> bool {
    let untouched = after == before && sent_after == sent_before;
    if !credentials_well_formed(email, password) {
        refused(r, AuthAPIError::InvalidCredentials) && untouched
    } else if !credentials_accepted(users, email, password) {
        refused(r, AuthAPIError::IncorrectCredentials) && untouched
    } else if users[email].requires_2fa {
        handle_2fa_post(before, sent_before, email, after, sent_after, r)
    } else {
        handle_no_2fa_post(email, secret, now, r) && untouched
    }
}

/// What the store's answer to a new challenge means for the login: where the
/// challenge was not kept the login is refused, and nothing is sent.
pub fn challenge_stored(stored: Result<(), TwoFACodeStoreError>) -> (r: Result<(), AuthAPIError>)
    ensures
        match stored {
            Ok(()) => r == Ok::<(), AuthAPIError>(()),
            Err(_) => r == Err::<(), _>(AuthAPIError::TwoFACodeStoreError),
        },
{
    match stored {
        Ok(()) => Ok(()),
        Err(_) => Err(AuthAPIError::TwoFACodeStoreError),
    }
}

/// The answer to a login with a second factor, given what the e-mail client
/// said to the code: the id of the challenge where the code went out, the
/// client's error where it did not.
pub fn challenge_sent(sent: Result<(), String>, login_attempt_id: &LoginAttemptId) -> (r: Result<
    (u16, LoginResponse),
    AuthAPIError,
>)
    ensures
        match sent {
            Ok(()) => {
                &&& r matches Ok((status, LoginResponse::TwoFactorAuth(answer)))
                &&& status == STATUS_PARTIAL_CONTENT
                &&& answer.message@ == "2FA required"@
                &&& answer.login_attempt_id@ == login_attempt_id@
            },
            Err(cause) => r == Err::<(u16, LoginResponse), _>(AuthAPIError::UnexpectedError(cause)),
        },
{
    match sent {
        Ok(()) => {
            let answer = TwoFactorAuthResponse {
                message: String::from_str("2FA required"),
                login_attempt_id: String::from_str(login_attempt_id.as_ref()),
            };
            Ok((STATUS_PARTIAL_CONTENT, LoginResponse::TwoFactorAuth(answer)))
        },
        Err(cause) => Err(AuthAPIError::UnexpectedError(cause)),
    }
}

/// What the lookup of the identity means for a login: whether the identity
/// asks for a second factor, where it was found; the refusal that a wrong
/// password gets too, where it was not; the store's failure with its cause.
pub fn identity_found(found: Result<User, UserStoreError>) -> (r: Result<bool, AuthAPIError>)
    ensures
        match found {
            Ok(user) => r == Ok::<bool, AuthAPIError>(user.requires_2fa),
            Err(UserStoreError::UnexpectedError(cause)) => r == Err::<bool, _>(
                AuthAPIError::UnexpectedError(cause),
            ),
            Err(_) => r == Err::<bool, _>(AuthAPIError::IncorrectCredentials),
        },
{
    match found {
        Ok(user) => Ok(user.requires_2fa),
        Err(UserStoreError::UnexpectedError(cause)) => Err(AuthAPIError::UnexpectedError(cause)),
        Err(_) => Err(AuthAPIError::IncorrectCredentials),
    }
}

/// What the check of the password means for a login: only a password that
/// the store accepted lets the login go on.
pub fn password_checked(checked: Result<(), UserStoreError>) -> (r: Result<(), AuthAPIError>)
    ensures
        match checked {
            Ok(()) => r == Ok::<(), AuthAPIError>(()),
            Err(UserStoreError::UnexpectedError(cause)) => r == Err::<(), _>(
                AuthAPIError::UnexpectedError(cause),
            ),
            Err(_) => r == Err::<(), _>(AuthAPIError::IncorrectCredentials),
        },
{
    match checked {
        Ok(()) => Ok(()),
        Err(UserStoreError::UnexpectedError(cause)) => Err(AuthAPIError::UnexpectedError(cause)),
        Err(_) => Err(AuthAPIError::IncorrectCredentials),
    }
}

/// Opens a second-factor challenge for `email`: a fresh id and a fresh code
/// go to the store for `CHALLENGE_TTL_SECONDS`, in place of the challenge
/// that may be pending, and the code goes out by e-mail. Where the e-mail
/// fails the answer is an error and the challenge stays in the store, where
/// the next login replaces it.
pub fn handle_2fa<C: TwoFACodeStore, M: EmailClient>(
    email: Email,
    two_fa_code_store: &mut C,
    email_client: &mut M,
) -> (r: (Option<AuthCookie>, Result<(u16, LoginResponse), AuthAPIError>))
    ensures
        final(two_fa_code_store).reliable() == old(two_fa_code_store).reliable(),
        final(email_client).reliable() == old(email_client).reliable(),
        old(two_fa_code_store).reliable() && old(email_client).reliable() ==> handle_2fa_post(
            old(two_fa_code_store).challenges(),
            old(email_client).sent(),
            email@,
            final(two_fa_code_store).challenges(),
            final(email_client).sent(),
            r,
        ),
        r.0 is None,
{
    let login_attempt_id = LoginAttemptId::default();
    let two_fa_code = TwoFACode::default();
    let stored = two_fa_code_store.add_code(
        email.clone(),
        login_attempt_id.clone(),
        two_fa_code.clone(),
        CHALLENGE_TTL_SECONDS,
    );
    if let Err(e) = challenge_stored(stored) {
        return (None, Err(e));
    }
    let sent = email_client.send_email(&email, "2FA Code", two_fa_code.as_ref());
    (None, challenge_sent(sent, &login_attempt_id))
}

/// Opens a session for `email` at `now`.
pub fn handle_no_2fa(email: &Email, jwt_secret: &SecretString, now: i64) -> (r: (
    Option<AuthCookie>,
    Result<(u16, LoginResponse), AuthAPIError>,
))
    ensures
        handle_no_2fa_post(email@, jwt_secret@, now, r),
{
    match generate_auth_cookie_at(email, jwt_secret, now) {
        Ok(cookie) => (Some(cookie), Ok((STATUS_OK, LoginResponse::RegularAuth))),
        Err(TokenError::UnexpectedError(cause)) => (
            None,
            Err(AuthAPIError::UnexpectedError(cause)),
        ),
        Err(_) => (None, Err(AuthAPIError::UnexpectedError(String::from_str("token error")))),
    }
}

/// Logs an identity in. The request is validated before any store is
/// touched. An address that is not registered and a password that does not
/// verify get the same answer. An identity without a second factor gets its
/// session at once; one with a second factor gets a challenge and no session.
pub fn login<U: UserStore, C: TwoFACodeStore, M: EmailClient>(
    user_store: &U,
    two_fa_code_store: &mut C,
    email_client: &mut M,
    request: LoginRequest,
    jwt_secret: &SecretString,
    now: i64,
) -> (r: (Option<AuthCookie>, Result<(u16, LoginResponse), AuthAPIError>))
    ensures
        final(two_fa_code_store).reliable() == old(two_fa_code_store).reliable(),
        final(email_client).reliable() == old(email_client).reliable(),
        user_store.reliable() && old(two_fa_code_store).reliable() && old(email_client).reliable()
            ==> login_post(
            user_store.users(),
            old(two_fa_code_store).challenges(),
            old(email_client).sent(),
            request.email@,
            request.password@,
            jwt_secret@,
            now,
            final(two_fa_code_store).challenges(),
            final(email_client).sent(),
            r,
        ),
        !credentials_well_formed(request.email@, request.password@) ==> refused(
            r,
            AuthAPIError::InvalidCredentials,
        ) && final(two_fa_code_store).challenges() == old(two_fa_code_store).challenges()
            && final(email_client).sent() == old(email_client).sent(),
        r.0 matches Some(cookie) ==> is_session_cookie(cookie, request.email@, jwt_secret@, now),
        r.1 is Err ==> r.0 is None,
{
    let email = match Email::parse(SecretString::new(request.email)) {
        Ok(email) => email,
        Err(_) => {
            return (None, Err(AuthAPIError::InvalidCredentials));
        },
    };
    let password = match Password::parse(SecretString::new(request.password)) {
        Ok(password) => password,
        Err(_) => {
            return (None, Err(AuthAPIError::InvalidCredentials));
        },
    };
    let requires_2fa = match identity_found(user_store.get_user(&email)) {
        Ok(requires_2fa) => requires_2fa,
        Err(e) => {
            return (None, Err(e));
        },
    };
    if let Err(e) = password_checked(user_store.validate_user(&email, &password)) {
        return (None, Err(e));
    }
    if requires_2fa {
        handle_2fa(email, two_fa_code_store, email_client)
    } else {
        handle_no_2fa(&email, jwt_secret, now)
    }
}

/// A login with the right password opens the session at once where the
/// identity asks for no second factor, at every moment that gives a token its
/// expiry, and opens a challenge and no session where it asks for one.
pub proof fn lemma_login_with_right_password(
    users: Map<Seq<char>, IdentityRecord>,
    before: Map<Seq<char>, PendingChallenge>,
    sent_before: Seq<SentEmail>,
    email: Seq<char>,
    password: Seq<char>,
    secret: Seq<char>,
    now: i64,
    after: Map<Seq<char>, PendingChallenge>,
    sent_after: Seq<SentEmail>,
    r: (Option<AuthCookie>, Result<(u16, LoginResponse), AuthAPIError>),
)
    requires
        credentials_accepted(users, email, password),
        expiry_at(now) is Some,
        login_post(users, before, sent_before, email, password, secret, now, after, sent_after, r),
    ensures
        !users[email].requires_2fa ==> {
            &&& r.1 matches Ok((status, LoginResponse::RegularAuth))
            &&& status == STATUS_OK
            &&& r.0 matches Some(cookie)
            &&& is_session_cookie(cookie, email, secret, now)
            &&& after == before
            &&& sent_after == sent_before
        },
        users[email].requires_2fa ==> {
            &&& r.0 is None
            &&& r.1 matches Ok((status, LoginResponse::TwoFactorAuth(answer)))
            &&& status == STATUS_PARTIAL_CONTENT
            &&& after.contains_key(email)
            &&& answer.login_attempt_id@ == after[email].login_attempt_id
            &&& sent_after.len() == sent_before.len() + 1
            &&& sent_after.last().recipient == email
            &&& sent_after.last().content == after[email].code
        },
{
}

} // verus!
