use crate::domain::data_stores::BannedTokenStore;
use crate::domain::error::AuthAPIError;
use crate::domain::secret::SecretString;
use crate::routes::verify_token::token_in_force;
use crate::routes::verify_token::STATUS_OK;
use crate::utils::auth::expiry_at;
use crate::utils::auth::generate_auth_token_post;
use crate::utils::auth::jwt_verified;
use crate::utils::auth::signature_verdict_post;
use crate::utils::auth::validate_token_post;
use crate::utils::auth::Claims;
use crate::utils::auth::TOKEN_TTL_SECONDS;
use crate::domain::data_stores::BannedTokenStoreError;
use crate::routes::verify_token::token_refusal;
use crate::utils::auth::revocation_ttl;
use crate::utils::auth::token_revocation_ttl;
use crate::utils::auth::validate_token_at;
use crate::utils::auth::TokenError;
use vstd::prelude::*;
use vstd::string::StringExecFns;

verus! {

/// What a logout does to the revoked tokens `before` and answers.
pub open spec fn logout_post(
    before: Map<Seq<char>, u64>,
    token: Option<Seq<char>>,
    secret: Seq<char>,
    now: i64,
    after: Map<Seq<char>, u64>,
    r: Result<u16, AuthAPIError>,
) -> bool {
    match r {
        Ok(status) => {
            &&& status == STATUS_OK
            &&& token matches Some(presented)
            &&& token_in_force(before, presented, secret, now)
            &&& jwt_verified(presented, secret) matches Some((_, exp))
            &&& after == before.insert(presented, revocation_ttl(exp, now))
        },
        Err(AuthAPIError::MissingToken) => token is None && after == before,
        Err(AuthAPIError::InvalidToken) => (token matches Some(presented) && !token_in_force(
            before,
            presented,
            secret,
            now,
        )) && after == before,
        Err(_) => false,
    }
}

/// The text of the token, if one was presented.
pub open spec fn presented_text(token: Option<String>) -> Option<Seq<char>> {
    match token {
        Some(presented) => Some(presented@),
        None => None,
    }
}

/// The answer to a logout, given what the store said to the revocation: the
/// logout went through only if the revocation was written.
pub fn revocation_written(written: Result<(), BannedTokenStoreError>) -> (r: Result<
    u16,
    AuthAPIError,
>)
    ensures
        match written {
            Ok(()) => r == Ok::<u16, AuthAPIError>(STATUS_OK),
            Err(BannedTokenStoreError::UnexpectedError(cause)) => r == Err::<u16, _>(
                AuthAPIError::UnexpectedError(cause),
            ),
            Err(_) => r matches Err(AuthAPIError::UnexpectedError(_)),
        },
{
    match written {
        Ok(()) => Ok(STATUS_OK),
        Err(BannedTokenStoreError::UnexpectedError(cause)) => Err(
            AuthAPIError::UnexpectedError(cause),
        ),
        Err(_) => Err(AuthAPIError::UnexpectedError(String::from_str("failed to ban the token"))),
    }
}

/// Ends a session: a token that is in force at `now` is revoked for the rest
/// of its lifetime, and the caller drops its cookie. A token that is missing
/// or no longer in force, be it revoked already, is refused, and nothing is
/// revoked.
pub fn logout<B: BannedTokenStore>(
    banned_token_store: &mut B,
    token: Option<String>,
    jwt_secret: &SecretString,
    now: i64,
) -> (r: Result<u16, AuthAPIError>)
    ensures
        final(banned_token_store).reliable() == old(banned_token_store).reliable(),
        old(banned_token_store).reliable() ==> logout_post(
            old(banned_token_store).banned(),
            presented_text(token),
            jwt_secret@,
            now,
            final(banned_token_store).banned(),
            r,
        ),
        token is None ==> r == Err::<u16, _>(AuthAPIError::MissingToken),
{
    let token = match token {
        Some(token) => token,
        None => {
            return Err(AuthAPIError::MissingToken);
        },
    };
    let claims = match validate_token_at(token.as_str(), &*banned_token_store, jwt_secret, now) {
        Ok(claims) => claims,
        Err(e) => {
            return Err(token_refusal(e));
        },
    };
    let ttl_seconds = token_revocation_ttl(claims.exp, now);
    revocation_written(banned_token_store.add_banned_token(SecretString::new(token), ttl_seconds))
}

/// A token is in force from its issuance until it is revoked. A token
/// issued at `issued` and not revoked is accepted at every moment `now` up
/// to its expiry, with the address it was issued to; a logout with it at
/// that moment succeeds; and from then on validation refuses it as revoked,
/// though its signature holds and it has not expired.
pub proof fn lemma_token_in_force_until_logout(
    email: Seq<char>,
    secret: Seq<char>,
    issued: i64,
    token: String,
    now: i64,
    before: Map<Seq<char>, u64>,
    first: Result<Claims, TokenError>,
    after: Map<Seq<char>, u64>,
    left: Result<u16, AuthAPIError>,
    second: Result<Claims, TokenError>,
)
    requires
        generate_auth_token_post(email, secret, issued, Ok(token)),
        issued <= now <= issued + TOKEN_TTL_SECONDS,
        !before.contains_key(token@),
        validate_token_post(before.contains_key(token@), jwt_verified(token@, secret), now, first),
        logout_post(before, Some(token@), secret, now, after, left),
        validate_token_post(after.contains_key(token@), jwt_verified(token@, secret), now, second),
    ensures
        first matches Ok(claims) && claims.sub@ == email && Some(claims.exp) == expiry_at(issued),
        left == Ok::<u16, AuthAPIError>(STATUS_OK),
        after.contains_key(token@),
        second == Err::<Claims, _>(TokenError::BannedTokenError),
        signature_verdict_post(jwt_verified(token@, secret), now, first),
{
}

} // verus!
