use crate::domain::data_stores::BannedTokenStore;
use crate::domain::data_stores::BannedTokenStoreError;
use crate::domain::email::Email;
use crate::domain::secret::SecretString;
use crate::utils::constants::JWT_COOKIE_NAME;
use vstd::prelude::*;
use vstd::string::StringExecFns;

verus! {

/// How long a session token is valid, in seconds.
pub const TOKEN_TTL_SECONDS: i64 = 600;

/// How many seconds past its expiry a token is still accepted, to allow for
/// clocks that differ.
pub const TOKEN_LEEWAY_SECONDS: i64 = 60;

/// What a session token carries: the address it was issued to, and the
/// second, counted from the Unix epoch, at which it expires.
#[derive(Debug)]
pub struct Claims {
    pub sub: String,
    pub exp: usize,
}

impl Clone for Claims {
    fn clone(&self) -> (r: Claims)
        ensures
            r.sub@ == self.sub@,
            r.exp == self.exp,
    {
        Claims { sub: self.sub.clone(), exp: self.exp }
    }
}

/// Why a token was not issued or not accepted.
#[derive(Debug)]
pub enum TokenError {
    /// The token is past its expiry.
    Expired,
    /// The text is no token signed with the service's secret.
    BadSignature,
    /// The token was revoked.
    BannedTokenError,
    /// A collaborator failed; the text is the cause, for the log only.
    UnexpectedError(String),
}

#[derive(Debug, Clone, Copy, PartialEq, Eq, Structural)]
pub enum SameSite {
    Strict,
    Lax,
    Unrestricted,
}

/// The cookie that hands a session token to the browser.
#[derive(Debug)]
pub struct AuthCookie {
    pub name: String,
    pub value: String,
    pub path: String,
    pub http_only: bool,
    pub same_site: SameSite,
}

impl Clone for AuthCookie {
    fn clone(&self) -> (r: AuthCookie)
        ensures
            r.name@ == self.name@,
            r.value@ == self.value@,
            r.path@ == self.path@,
            r.http_only == self.http_only,
            r.same_site == self.same_site,
    {
        AuthCookie {
            name: self.name.clone(),
            value: self.value.clone(),
            path: self.path.clone(),
            http_only: self.http_only,
            same_site: self.same_site,
        }
    }
}

/// The token that signing the claims `sub` and `exp` with `secret` gives.
pub uninterp spec fn jwt_signed(sub: Seq<char>, exp: usize, secret: Seq<char>) -> Seq<char>;

/// The claims `sub` and `exp` of `token`, where `token` is a well-formed token
/// that carries both and its signature is the one that `secret` gives.
pub uninterp spec fn jwt_verified(token: Seq<char>, secret: Seq<char>) -> Option<(Seq<char>, usize)>;

/// `jsonwebtoken::encode` with the default header (HS256), the claims `sub`
/// and `exp` as a JSON object, and `secret` as the HMAC key. With HS256 and a
/// key made from a secret the crate has no failing path: header and claims
/// are written as JSON, and the HMAC is computed. The token verifies under
/// the same secret and yields the same claims.
#[verifier::external_body]
fn jwt_encode(sub: &str, exp: usize, secret: &str) -> (r: Result<String, String>)
    ensures
        match r {
            Ok(token) => token@ == jwt_signed(sub@, exp, secret@) && jwt_verified(
                token@,
                secret@,
            ) == Some((sub@, exp)),
            Err(_) => false,
        },
{
    let mut claims = serde_json::Map::new();
    claims.insert("sub".to_string(), serde_json::Value::from(sub));
    claims.insert("exp".to_string(), serde_json::Value::from(exp));
    let key = jsonwebtoken::EncodingKey::from_secret(secret.as_bytes());
    jsonwebtoken::encode(&jsonwebtoken::Header::default(), &claims, &key).map_err(
        |e| e.to_string(),
    )
}

/// `jsonwebtoken::decode` with `secret` as the HMAC key and the default
/// validation (HS256, `exp` required) but for the check of `exp` against the
/// clock, which is switched off: what comes out depends on the token and the
/// secret alone. The claims are read as a JSON object, of which `sub` must be
/// a string and `exp` a number that fits. A text without a `.` has no
/// signature to part from the rest, and is no token.
#[verifier::external_body]
fn jwt_decode(token: &str, secret: &str) -> (r: Option<(String, usize)>)
    ensures
        match r {
            Some((sub, exp)) => jwt_verified(token@, secret@) == Some((sub@, exp)),
            None => jwt_verified(token@, secret@) is None,
        },
        !token@.contains('.') ==> r is None,
{
    let mut validation = jsonwebtoken::Validation::default();
    validation.validate_exp = false;
    let key = jsonwebtoken::DecodingKey::from_secret(secret.as_bytes());
    let data = jsonwebtoken::decode::<serde_json::Value>(token, &key, &validation).ok()?;
    let sub = data.claims.get("sub")?.as_str()?.to_string();
    let exp = usize::try_from(data.claims.get("exp")?.as_u64()?).ok()?;
    Some((sub, exp))
}

/// `chrono::Utc::now().timestamp()`: the seconds since the Unix epoch, by the
/// machine's clock.
#[verifier::external_body]
fn current_timestamp() -> (r: i64) {
    chrono::Utc::now().timestamp()
}

/// The expiry of a token issued at `now`; `None` where that second is before
/// the epoch or beyond what the machine counts.
pub open spec fn expiry_at(now: i64) -> Option<usize> {
    if 0 <= now + TOKEN_TTL_SECONDS <= i64::MAX && now + TOKEN_TTL_SECONDS <= usize::MAX {
        Some((now + TOKEN_TTL_SECONDS) as usize)
    } else {
        None
    }
}

/// The token issued to `sub` at `now`; `None` where `now` gives no expiry.
pub open spec fn issued_token(sub: Seq<char>, secret: Seq<char>, now: i64) -> Option<Seq<char>> {
    match expiry_at(now) {
        Some(exp) => Some(jwt_signed(sub, exp, secret)),
        None => None,
    }
}

/// Whether a token that expires at `exp` is refused at `now`.
pub open spec fn is_expired(exp: usize, now: i64) -> bool {
    exp + TOKEN_LEEWAY_SECONDS < now
}

/// The seconds for which the revocation of a token that expires at `exp` is
/// kept when it is revoked at `now`: the lifetime that is left to the token,
/// and one second at the least, since an entry kept for no time is none.
pub open spec fn revocation_ttl(exp: usize, now: i64) -> u64 {
    if remaining_lifetime(exp, now) == 0 {
        1
    } else {
        remaining_lifetime(exp, now)
    }
}

/// What validation answers at `now` on the answer `lookup` of the revocation
/// store, for a token that verifies to `verified`: a token that is revoked
/// is refused, a failure of the store is an error and stands neither for
/// "revoked" nor for "not revoked", and only a token that is not revoked goes
/// on to the check of signature and expiry.
pub open spec fn token_verdict_post(
    lookup: Result<bool, BannedTokenStoreError>,
    verified: Option<(Seq<char>, usize)>,
    now: i64,
    r: Result<Claims, TokenError>,
) -> bool {
    match lookup {
        Ok(false) => signature_verdict_post(verified, now, r),
        Ok(true) => r == Err::<Claims, _>(TokenError::BannedTokenError),
        Err(_) => r matches Err(TokenError::UnexpectedError(_)),
    }
}

/// The seconds for which a token that expires at `exp` can still be
/// accepted at `now`, as far as a `u64` counts.
pub open spec fn remaining_lifetime(exp: usize, now: i64) -> u64 {
    if is_expired(exp, now) {
        0
    } else if exp + TOKEN_LEEWAY_SECONDS - now > u64::MAX {
        u64::MAX
    } else {
        (exp + TOKEN_LEEWAY_SECONDS - now) as u64
    }
}

/// What the check of signature and expiry answers at `now` on a token that
/// verifies to `verified`.
pub open spec fn signature_verdict_post(
    verified: Option<(Seq<char>, usize)>,
    now: i64,
    r: Result<Claims, TokenError>,
) -> bool {
    match r {
        Ok(claims) => verified == Some((claims.sub@, claims.exp)) && !is_expired(claims.exp, now),
        Err(TokenError::BadSignature) => verified is None,
        Err(TokenError::Expired) => verified matches Some((_, exp)) && is_expired(exp, now),
        Err(_) => false,
    }
}

/// What validation answers at `now` on a token that is revoked or not
/// (`banned`) and that verifies to `verified`.
pub open spec fn validate_token_post(
    banned: bool,
    verified: Option<(Seq<char>, usize)>,
    now: i64,
    r: Result<Claims, TokenError>,
) -> bool {
    if banned {
        r == Err::<Claims, _>(TokenError::BannedTokenError)
    } else {
        signature_verdict_post(verified, now, r)
    }
}

/// Signs the claims as they are.
pub fn create_token(claims: &Claims, secret: &SecretString) -> (r: Result<String, TokenError>)
    ensures
        match r {
            Ok(token) => token@ == jwt_signed(claims.sub@, claims.exp, secret@) && jwt_verified(
                token@,
                secret@,
            ) == Some((claims.sub@, claims.exp)),
            Err(_) => false,
        },
{
    match jwt_encode(claims.sub.as_str(), claims.exp, secret.expose_secret().as_str()) {
        Ok(token) => Ok(token),
        Err(cause) => Err(TokenError::UnexpectedError(cause)),
    }
}

/// What issuing a token to `sub` at `now` answers: the token, which
/// verifies to `sub` and the expiry, or an error where `now` gives no expiry.
pub open spec fn generate_auth_token_post(
    sub: Seq<char>,
    secret: Seq<char>,
    now: i64,
    r: Result<String, TokenError>,
) -> bool {
    match r {
        Ok(token) => issued_token(sub, secret, now) == Some(token@) && jwt_verified(
            token@,
            secret,
        ) == Some((sub, expiry_at(now)->0)),
        Err(TokenError::UnexpectedError(_)) => issued_token(sub, secret, now) is None,
        Err(_) => false,
    }
}

/// Issues a token to `email` that expires `TOKEN_TTL_SECONDS` after `now`.
pub fn generate_auth_token_at(email: &Email, secret: &SecretString, now: i64) -> (r: Result<
    String,
    TokenError,
>)
    ensures
        generate_auth_token_post(email@, secret@, now, r),
{
    let exp = match now.checked_add(TOKEN_TTL_SECONDS) {
        Some(exp) => exp,
        None => {
            return Err(
                TokenError::UnexpectedError(
                    String::from_str("failed to add 10 minutes to current time"),
                ),
            );
        },
    };
    if exp < 0 || exp as u64 > usize::MAX as u64 {
        return Err(
            TokenError::UnexpectedError(String::from_str("failed to cast exp time to usize")),
        );
    }
    let claims = Claims { sub: email.as_ref().expose_secret().clone(), exp: exp as usize };
    create_token(&claims, secret)
}

/// Issues a token to `email` at the second that the clock shows.
pub fn generate_auth_token(email: &Email, secret: &SecretString) -> (r: Result<String, TokenError>)
    ensures
        match r {
            Ok(token) => exists|now: i64| issued_token(email@, secret@, now) == Some(token@),
            Err(TokenError::UnexpectedError(_)) => true,
            Err(_) => false,
        },
{
    generate_auth_token_at(email, secret, current_timestamp())
}

/// What the answer of the revocation store means for a token: a token that
/// is revoked is refused, and so is every token while the store fails. A
/// failure is passed on as an error; it is taken neither for "revoked" nor
/// for "not revoked".
pub fn revocation_verdict(lookup: Result<bool, BannedTokenStoreError>) -> (r: Result<
    (),
    TokenError,
>)
    ensures
        match lookup {
            Ok(false) => r is Ok,
            Ok(true) => r == Err::<(), _>(TokenError::BannedTokenError),
            Err(_) => r matches Err(TokenError::UnexpectedError(_)),
        },
{
    match lookup {
        Ok(false) => Ok(()),
        Ok(true) => Err(TokenError::BannedTokenError),
        Err(BannedTokenStoreError::UnexpectedError(cause)) => Err(
            TokenError::UnexpectedError(cause),
        ),
        Err(_) => Err(TokenError::UnexpectedError(String::from_str("banned token store error"))),
    }
}

/// The check of signature and expiry at `now`, on what verifying the token
/// gave.
pub fn signature_verdict(decoded: Option<(String, usize)>, now: i64) -> (r: Result<
    Claims,
    TokenError,
>)
    ensures
        signature_verdict_post(
            match decoded {
                Some((sub, exp)) => Some((sub@, exp)),
                None => None,
            },
            now,
            r,
        ),
{
    match decoded {
        Some((sub, exp)) => {
            if token_is_expired(exp, now) {
                Err(TokenError::Expired)
            } else {
                Ok(Claims { sub, exp })
            }
        },
        None => Err(TokenError::BadSignature),
    }
}

/// The verdict on a token at `now`, given the answer of the revocation
/// store. The signature is looked at only where the store says that the token
/// is not revoked.
pub fn token_verdict(
    lookup: Result<bool, BannedTokenStoreError>,
    token: &str,
    secret: &SecretString,
    now: i64,
) -> (r: Result<Claims, TokenError>)
    ensures
        token_verdict_post(lookup, jwt_verified(token@, secret@), now, r),
{
    match revocation_verdict(lookup) {
        Ok(()) => signature_verdict(jwt_decode(token, secret.expose_secret().as_str()), now),
        Err(e) => Err(e),
    }
}

/// Decides at `now` whether `token` is a session token in force: it asks the
/// store whether the token is revoked and hands the answer to
/// `token_verdict`. Whatever the store answers, a token is accepted only if
/// its signature holds and it has not expired.
pub fn validate_token_at<B: BannedTokenStore>(
    token: &str,
    banned_token_store: &B,
    secret: &SecretString,
    now: i64,
) -> (r: Result<Claims, TokenError>)
    ensures
        banned_token_store.reliable() ==> validate_token_post(
            banned_token_store.banned().contains_key(token@),
            jwt_verified(token@, secret@),
            now,
            r,
        ),
        exists|lookup: Result<bool, BannedTokenStoreError>|
            token_verdict_post(lookup, jwt_verified(token@, secret@), now, r),
        !(r matches Err(TokenError::BannedTokenError)) && !(r matches Err(
            TokenError::UnexpectedError(_),
        )) ==> signature_verdict_post(jwt_verified(token@, secret@), now, r),
{
    let presented = SecretString::new(String::from_str(token));
    let lookup = banned_token_store.is_token_banned(&presented);
    let ghost answered = lookup;
    let r = token_verdict(lookup, token, secret, now);
    assert(token_verdict_post(answered, jwt_verified(token@, secret@), now, r));
    r
}

/// Decides whether `token` is in force at the second that the clock shows.
pub fn validate_token<B: BannedTokenStore>(
    token: &str,
    banned_token_store: &B,
    secret: &SecretString,
) -> (r: Result<Claims, TokenError>)
    ensures
        banned_token_store.reliable() ==> exists|now: i64|
            validate_token_post(
                banned_token_store.banned().contains_key(token@),
                jwt_verified(token@, secret@),
                now,
                r,
            ),
        r matches Ok(claims) ==> jwt_verified(token@, secret@) == Some((claims.sub@, claims.exp)),
{
    let now = current_timestamp();
    let r = validate_token_at(token, banned_token_store, secret, now);
    assert(banned_token_store.reliable() ==> validate_token_post(
        banned_token_store.banned().contains_key(token@),
        jwt_verified(token@, secret@),
        now,
        r,
    ));
    r
}

/// Whether a token that expires at `exp` is refused at `now`.
pub fn token_is_expired(exp: usize, now: i64) -> (r: bool)
    ensures
        r == is_expired(exp, now),
{
    if now <= TOKEN_LEEWAY_SECONDS {
        false
    } else {
        (exp as u64) < ((now - TOKEN_LEEWAY_SECONDS) as u64)
    }
}

/// The seconds for which a token that expires at `exp` can still be accepted
/// at `now`: the time for which its revocation has to be kept.
pub fn token_remaining_lifetime(exp: usize, now: i64) -> (r: u64)
    ensures
        r == remaining_lifetime(exp, now),
{
    if token_is_expired(exp, now) {
        0
    } else {
        let limit = (exp as u64) as i128 + (TOKEN_LEEWAY_SECONDS as i128);
        let left = limit - (now as i128);
        if left > u64::MAX as i128 {
            u64::MAX
        } else {
            left as u64
        }
    }
}

/// The seconds for which the revocation of a token that expires at `exp` is
/// kept when it is revoked at `now`.
pub fn token_revocation_ttl(exp: usize, now: i64) -> (r: u64)
    ensures
        r == revocation_ttl(exp, now),
{
    let left = token_remaining_lifetime(exp, now);
    if left == 0 {
        1
    } else {
        left
    }
}

/// The cookie that carries `token`.
pub fn create_auth_cookie(token: String) -> (r: AuthCookie)
    ensures
        r.name@ == JWT_COOKIE_NAME@,
        r.value@ == token@,
        r.path@ == "/"@,
        r.http_only,
        r.same_site == SameSite::Lax,
{
    AuthCookie {
        name: String::from_str(JWT_COOKIE_NAME),
        value: token,
        path: String::from_str("/"),
        http_only: true,
        same_site: SameSite::Lax,
    }
}

/// Issues a token to `email` at `now`, in its cookie.
pub fn generate_auth_cookie_at(email: &Email, secret: &SecretString, now: i64) -> (r: Result<
    AuthCookie,
    TokenError,
>)
    ensures
        match r {
            Ok(cookie) => {
                &&& issued_token(email@, secret@, now) == Some(cookie.value@)
                &&& jwt_verified(cookie.value@, secret@) == Some((email@, expiry_at(now)->0))
                &&& cookie.name@ == JWT_COOKIE_NAME@
                &&& cookie.path@ == "/"@
                &&& cookie.http_only
                &&& cookie.same_site == SameSite::Lax
            },
            Err(TokenError::UnexpectedError(_)) => issued_token(email@, secret@, now) is None,
            Err(_) => false,
        },
{
    match generate_auth_token_at(email, secret, now) {
        Ok(token) => Ok(create_auth_cookie(token)),
        Err(e) => Err(e),
    }
}

/// Issues a token to `email` at the second that the clock shows, in its
/// cookie.
pub fn generate_auth_cookie(email: &Email, secret: &SecretString) -> (r: Result<
    AuthCookie,
    TokenError,
>)
    ensures
        match r {
            Ok(cookie) => {
                &&& exists|now: i64| issued_token(email@, secret@, now) == Some(cookie.value@)
                &&& cookie.name@ == JWT_COOKIE_NAME@
                &&& cookie.path@ == "/"@
                &&& cookie.http_only
                &&& cookie.same_site == SameSite::Lax
            },
            Err(TokenError::UnexpectedError(_)) => true,
            Err(_) => false,
        },
{
    generate_auth_cookie_at(email, secret, current_timestamp())
}

} // verus!
