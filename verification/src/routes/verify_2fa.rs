use crate::domain::data_stores::is_two_fa_code;
use crate::domain::data_stores::uuid_canonical_text;
use crate::domain::data_stores::LoginAttemptId;
use crate::domain::data_stores::PendingChallenge;
use crate::domain::data_stores::TwoFACode;
use crate::domain::data_stores::TwoFACodeStore;
use crate::domain::data_stores::TwoFACodeStoreError;
use crate::domain::email::email_syntax_valid;
use crate::domain::email::Email;
use crate::domain::error::AuthAPIError;
use crate::domain::secret::SecretString;
use crate::domain::data_stores::SentEmail;
use crate::routes::login::handle_2fa_post;
use crate::routes::login::is_session_cookie;
use crate::routes::login::LoginResponse;
use crate::routes::verify_token::STATUS_OK;
use crate::utils::auth::generate_auth_cookie_at;
use crate::utils::auth::expiry_at;
use crate::utils::auth::issued_token;
use crate::utils::auth::AuthCookie;
use crate::utils::auth::TokenError;
use vstd::prelude::*;
use vstd::string::StringExecFns;

verus! {

pub struct Verify2FARequest {
    pub email: String,
    pub login_attempt_id: String,
    pub two_fa_code: String,
}

/// Whether the three texts of a verification are well formed.
pub open spec fn verification_well_formed(
    email: Seq<char>,
    login_attempt_id: Seq<char>,
    code: Seq<char>,
) -> bool {
    &&& email_syntax_valid(email)
    &&& uuid_canonical_text(login_attempt_id) is Some
    &&& is_two_fa_code(code)
}

/// Whether the challenge that is pending for `email` is the one with this id
/// and this code.
pub open spec fn challenge_matches(
    challenges: Map<Seq<char>, PendingChallenge>,
    email: Seq<char>,
    login_attempt_id: Seq<char>,
    code: Seq<char>,
) -> bool {
    &&& challenges.contains_key(email)
    &&& Some(challenges[email].login_attempt_id) == uuid_canonical_text(login_attempt_id)
    &&& challenges[email].code == code
}

/// What a verification does to the challenges `before` and answers. Only
/// where the token cannot be issued is the answer `UnexpectedError`; the
/// challenge is spent then.
pub open spec fn verify_2fa_post(
    before: Map<Seq<char>, PendingChallenge>,
    email: Seq<char>,
    login_attempt_id: Seq<char>,
    code: Seq<char>,
    secret: Seq<char>,
    now: i64,
    after: Map<Seq<char>, PendingChallenge>,
    r: (Option<AuthCookie>, Result<u16, AuthAPIError>),
) -> bool {
    let well_formed = verification_well_formed(email, login_attempt_id, code);
    let matches = challenge_matches(before, email, login_attempt_id, code);
    match r.1 {
        Ok(status) => {
            &&& status == STATUS_OK
            &&& well_formed
            &&& matches
            &&& after == before.remove(email)
            &&& r.0 matches Some(cookie)
            &&& is_session_cookie(cookie, email, secret, now)
        },
        Err(AuthAPIError::InvalidCredentials) => !well_formed && after == before && r.0 is None,
        Err(AuthAPIError::IncorrectCredentials) => well_formed && !matches && after == before
            && r.0 is None,
        Err(AuthAPIError::UnexpectedError(_)) => {
            &&& well_formed
            &&& matches
            &&& r.0 is None
            &&& after == before.remove(email)
            &&& issued_token(email, secret, now) is None
        },
        Err(_) => false,
    }
}

/// What the lookup of the pending challenge means for a verification with
/// `login_attempt_id` and `code`: it goes on only where a challenge was
/// found and both are its own. A challenge that is not there and one that
/// does not match get the same refusal; a failure of the store is passed on
/// with its cause.
pub fn challenge_found(
    fetched: Result<(LoginAttemptId, TwoFACode), TwoFACodeStoreError>,
    login_attempt_id: &LoginAttemptId,
    code: &TwoFACode,
) -> (r: Result<(), AuthAPIError>)
    ensures
        match fetched {
            Ok((pending_id, pending_code)) => if pending_id@ == login_attempt_id@ && pending_code@
                == code@ {
                r == Ok::<(), AuthAPIError>(())
            } else {
                r == Err::<(), _>(AuthAPIError::IncorrectCredentials)
            },
            Err(TwoFACodeStoreError::LoginAttemptIdNotFound) => r == Err::<(), _>(
                AuthAPIError::IncorrectCredentials,
            ),
            Err(TwoFACodeStoreError::UnexpectedError(cause)) => r == Err::<(), _>(
                AuthAPIError::UnexpectedError(cause),
            ),
        },
{
    match fetched {
        Ok((pending_id, pending_code)) => {
            if pending_id != *login_attempt_id || pending_code != *code {
                Err(AuthAPIError::IncorrectCredentials)
            } else {
                Ok(())
            }
        },
        Err(TwoFACodeStoreError::LoginAttemptIdNotFound) => Err(AuthAPIError::IncorrectCredentials),
        Err(TwoFACodeStoreError::UnexpectedError(cause)) => Err(
            AuthAPIError::UnexpectedError(cause),
        ),
    }
}

/// What the removal of the challenge means for a verification: the session
/// is opened only where the challenge is known to be gone.
pub fn challenge_removed(removed: Result<(), TwoFACodeStoreError>) -> (r: Result<(), AuthAPIError>)
    ensures
        match removed {
            Ok(()) => r == Ok::<(), AuthAPIError>(()),
            Err(TwoFACodeStoreError::UnexpectedError(cause)) => r == Err::<(), _>(
                AuthAPIError::UnexpectedError(cause),
            ),
            Err(_) => r matches Err(AuthAPIError::UnexpectedError(_)),
        },
{
    match removed {
        Ok(()) => Ok(()),
        Err(TwoFACodeStoreError::UnexpectedError(cause)) => Err(
            AuthAPIError::UnexpectedError(cause),
        ),
        Err(_) => Err(
            AuthAPIError::UnexpectedError(String::from_str("failed to remove the challenge")),
        ),
    }
}

/// Answers a second-factor challenge. The request is validated before the
/// store is touched. The id and the code must be those of the challenge that
/// is pending for the address; then the challenge is removed, so that it
/// serves once, and the session is opened at `now`. A challenge that is
/// unknown and one that does not match get the same answer.
pub fn verify_2fa<C: TwoFACodeStore>(
    two_fa_code_store: &mut C,
    request: Verify2FARequest,
    jwt_secret: &SecretString,
    now: i64,
) -> (r: (Option<AuthCookie>, Result<u16, AuthAPIError>))
    ensures
        final(two_fa_code_store).reliable() == old(two_fa_code_store).reliable(),
        old(two_fa_code_store).reliable() ==> verify_2fa_post(
            old(two_fa_code_store).challenges(),
            request.email@,
            request.login_attempt_id@,
            request.two_fa_code@,
            jwt_secret@,
            now,
            final(two_fa_code_store).challenges(),
            r,
        ),
        !verification_well_formed(request.email@, request.login_attempt_id@, request.two_fa_code@)
            ==> r.0 is None && r.1 == Err::<u16, _>(AuthAPIError::InvalidCredentials) && final(two_fa_code_store).challenges() == old(two_fa_code_store).challenges(),
        r.0 matches Some(cookie) ==> is_session_cookie(cookie, request.email@, jwt_secret@, now),
        r.1 is Err ==> r.0 is None,
{
    let email = match Email::parse(SecretString::new(request.email)) {
        Ok(email) => email,
        Err(_) => {
            return (None, Err(AuthAPIError::InvalidCredentials));
        },
    };
    let login_attempt_id = match LoginAttemptId::parse(request.login_attempt_id) {
        Ok(login_attempt_id) => login_attempt_id,
        Err(_) => {
            return (None, Err(AuthAPIError::InvalidCredentials));
        },
    };
    let two_fa_code = match TwoFACode::parse(request.two_fa_code) {
        Ok(two_fa_code) => two_fa_code,
        Err(_) => {
            return (None, Err(AuthAPIError::InvalidCredentials));
        },
    };
    let fetched = two_fa_code_store.get_code(&email);
    if let Err(e) = challenge_found(fetched, &login_attempt_id, &two_fa_code) {
        return (None, Err(e));
    }
    if let Err(e) = challenge_removed(two_fa_code_store.remove_code(&email)) {
        return (None, Err(e));
    }
    match generate_auth_cookie_at(&email, jwt_secret, now) {
        Ok(cookie) => (Some(cookie), Ok(STATUS_OK)),
        Err(TokenError::UnexpectedError(cause)) => (
            None,
            Err(AuthAPIError::UnexpectedError(cause)),
        ),
        Err(_) => (None, Err(AuthAPIError::UnexpectedError(String::from_str("token error")))),
    }
}

/// A challenge serves once. Where a well-formed verification names the
/// pending challenge, it opens the session, at every moment that gives a
/// token its expiry; the challenge is gone then, and the same verification
/// made again is refused and changes nothing.
pub proof fn lemma_challenge_serves_once(
    before: Map<Seq<char>, PendingChallenge>,
    email: Seq<char>,
    login_attempt_id: Seq<char>,
    code: Seq<char>,
    secret: Seq<char>,
    first_now: i64,
    between: Map<Seq<char>, PendingChallenge>,
    first: (Option<AuthCookie>, Result<u16, AuthAPIError>),
    second_now: i64,
    after: Map<Seq<char>, PendingChallenge>,
    second: (Option<AuthCookie>, Result<u16, AuthAPIError>),
)
    requires
        verification_well_formed(email, login_attempt_id, code),
        challenge_matches(before, email, login_attempt_id, code),
        verify_2fa_post(before, email, login_attempt_id, code, secret, first_now, between, first),
        verify_2fa_post(between, email, login_attempt_id, code, secret, second_now, after, second),
    ensures
        first.1 is Ok <==> expiry_at(first_now) is Some,
        expiry_at(first_now) is Some ==> first.1 == Ok::<u16, AuthAPIError>(STATUS_OK),
        first.1 is Ok ==> (first.0 matches Some(cookie) && is_session_cookie(
            cookie,
            email,
            secret,
            first_now,
        )),
        !between.contains_key(email),
        second.0 is None,
        second.1 == Err::<u16, _>(AuthAPIError::IncorrectCredentials),
        after == between,
{
}

/// A refused verification leaves the challenge as it was. Where a
/// verification with a wrong code is refused, the challenge is still pending,
/// and the verification with its id and its code that follows opens the
/// session, at every moment that gives a token its expiry.
pub proof fn lemma_wrong_code_leaves_challenge(
    before: Map<Seq<char>, PendingChallenge>,
    email: Seq<char>,
    login_attempt_id: Seq<char>,
    code: Seq<char>,
    wrong_code: Seq<char>,
    secret: Seq<char>,
    first_now: i64,
    between: Map<Seq<char>, PendingChallenge>,
    first: (Option<AuthCookie>, Result<u16, AuthAPIError>),
    second_now: i64,
    after: Map<Seq<char>, PendingChallenge>,
    second: (Option<AuthCookie>, Result<u16, AuthAPIError>),
)
    requires
        verification_well_formed(email, login_attempt_id, code),
        is_two_fa_code(wrong_code),
        wrong_code != code,
        challenge_matches(before, email, login_attempt_id, code),
        expiry_at(second_now) is Some,
        verify_2fa_post(
            before,
            email,
            login_attempt_id,
            wrong_code,
            secret,
            first_now,
            between,
            first,
        ),
        verify_2fa_post(between, email, login_attempt_id, code, secret, second_now, after, second),
    ensures
        first.0 is None,
        first.1 == Err::<u16, _>(AuthAPIError::IncorrectCredentials),
        between == before,
        second.1 == Ok::<u16, AuthAPIError>(STATUS_OK),
        second.0 matches Some(cookie) && is_session_cookie(cookie, email, secret, second_now),
        !after.contains_key(email),
{
}

/// A new challenge takes the place of the old one. After two logins of the
/// same identity, each of which opened a challenge, the second challenge is
/// the one that is pending, the other identities' challenges are as before,
/// and a verification with the id and the code of the first is refused,
/// provided the two draws did not give the same id and code twice.
pub proof fn lemma_second_challenge_replaces_first(
    before: Map<Seq<char>, PendingChallenge>,
    sent_before: Seq<SentEmail>,
    email: Seq<char>,
    between: Map<Seq<char>, PendingChallenge>,
    sent_between: Seq<SentEmail>,
    first: (Option<AuthCookie>, Result<(u16, LoginResponse), AuthAPIError>),
    after: Map<Seq<char>, PendingChallenge>,
    sent_after: Seq<SentEmail>,
    second: (Option<AuthCookie>, Result<(u16, LoginResponse), AuthAPIError>),
    secret: Seq<char>,
    now: i64,
    last: Map<Seq<char>, PendingChallenge>,
    verdict: (Option<AuthCookie>, Result<u16, AuthAPIError>),
)
    requires
        email_syntax_valid(email),
        handle_2fa_post(before, sent_before, email, between, sent_between, first),
        handle_2fa_post(between, sent_between, email, after, sent_after, second),
        between[email].login_attempt_id != after[email].login_attempt_id || between[email].code
            != after[email].code,
        verify_2fa_post(
            after,
            email,
            between[email].login_attempt_id,
            between[email].code,
            secret,
            now,
            last,
            verdict,
        ),
    ensures
        after.contains_key(email),
        second.1 matches Ok((_, LoginResponse::TwoFactorAuth(answer))) && answer.login_attempt_id@
            == after[email].login_attempt_id,
        after.remove(email) == before.remove(email),
        verdict.0 is None,
        verdict.1 == Err::<u16, _>(AuthAPIError::IncorrectCredentials),
        last == after,
{
    assert(after.remove(email) =~= before.remove(email));
}

} // verus!
