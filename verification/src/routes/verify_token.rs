use crate::domain::data_stores::BannedTokenStore;
use crate::domain::error::AuthAPIError;
use crate::domain::secret::SecretString;
use crate::utils::auth::is_expired;
use crate::utils::auth::jwt_verified;
use crate::utils::auth::validate_token_at;
use crate::utils::auth::TokenError;
use vstd::prelude::*;
use vstd::string::StringExecFns;

verus! {

/// The status of a request that went through.
pub const STATUS_OK: u16 = 200;

pub struct VerifyTokenRequest {
    pub token: String,
}

pub struct VerifyTokenResponse {
    pub message: String,
}

/// Whether `token` is in force at `now`: not revoked, signed with `secret`,
/// not expired.
pub open spec fn token_in_force(
    banned: Map<Seq<char>, u64>,
    token: Seq<char>,
    secret: Seq<char>,
    now: i64,
) -> bool {
    &&& !banned.contains_key(token)
    &&& jwt_verified(token, secret) matches Some((_, exp))
    &&& !is_expired(exp, now)
}

/// What the check of a token answers.
pub open spec fn verify_token_post(
    banned: Map<Seq<char>, u64>,
    token: Seq<char>,
    secret: Seq<char>,
    now: i64,
    r: Result<(u16, VerifyTokenResponse), AuthAPIError>,
) -> bool {
    match r {
        Ok((status, response)) => {
            &&& status == STATUS_OK
            &&& response.message@ == "Success verifying token"@
            &&& token_in_force(banned, token, secret, now)
        },
        Err(AuthAPIError::InvalidToken) => !token_in_force(banned, token, secret, now),
        Err(_) => false,
    }
}

/// The refusal that answers a token which validation did not accept: a
/// failure of a collaborator is passed on with its cause, every other verdict
/// is `InvalidToken`.
pub fn token_refusal(error: TokenError) -> (r: AuthAPIError)
    ensures
        match error {
            TokenError::UnexpectedError(cause) => r == AuthAPIError::UnexpectedError(cause),
            _ => r == AuthAPIError::InvalidToken,
        },
{
    match error {
        TokenError::UnexpectedError(cause) => AuthAPIError::UnexpectedError(cause),
        _ => AuthAPIError::InvalidToken,
    }
}

/// Says whether the presented token is in force at `now`. Whatever the store
/// answers, a token is confirmed only if its signature holds and it has not
/// expired.
pub fn verify_token<B: BannedTokenStore>(
    banned_token_store: &B,
    request: VerifyTokenRequest,
    jwt_secret: &SecretString,
    now: i64,
) -> (r: Result<(u16, VerifyTokenResponse), AuthAPIError>)
    ensures
        banned_token_store.reliable() ==> verify_token_post(
            banned_token_store.banned(),
            request.token@,
            jwt_secret@,
            now,
            r,
        ),
        r is Ok ==> (jwt_verified(request.token@, jwt_secret@) matches Some((_, exp))
            && !is_expired(exp, now)),
{
    match validate_token_at(request.token.as_str(), banned_token_store, jwt_secret, now) {
        Ok(_) => Ok(
            (STATUS_OK, VerifyTokenResponse { message: String::from_str("Success verifying token") }),
        ),
        Err(e) => Err(token_refusal(e)),
    }
}

} // verus!
