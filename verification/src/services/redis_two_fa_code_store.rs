use crate::domain::data_stores::is_two_fa_code;
use crate::domain::data_stores::uuid_canonical_text;
use crate::domain::data_stores::LoginAttemptId;
use crate::domain::data_stores::TwoFACode;
use crate::domain::data_stores::TwoFACodeStoreError;
use crate::domain::email::Email;
use vstd::prelude::*;
use vstd::string::StringExecFns;

verus! {

/// What the keys of pending challenges begin with.
pub const TWO_FA_CODE_PREFIX: &'static str = "two_fa_code:";

/// The key under which the cache keeps the challenge of `email`.
pub fn get_key(email: &Email) -> (r: String)
    ensures
        r@ == TWO_FA_CODE_PREFIX@ + email@,
{
    let mut key = String::from_str(TWO_FA_CODE_PREFIX);
    key.append(email.as_ref().expose_secret().as_str());
    key
}

/// The JSON text of a pair of strings, an array of two.
pub uninterp spec fn json_pair_text(first: Seq<char>, second: Seq<char>) -> Seq<char>;

/// The pair of strings that a JSON text holds, where it is an array of
/// exactly two strings.
pub uninterp spec fn json_pair_read(text: Seq<char>) -> Option<(Seq<char>, Seq<char>)>;

/// `serde_json::to_string` on a pair of strings. Strings are always written,
/// and into memory, so that nothing fails. What it writes reads back as the
/// same pair.
#[verifier::external_body]
fn json_write_pair(first: &str, second: &str) -> (r: Result<String, String>)
    ensures
        match r {
            Ok(text) => text@ == json_pair_text(first@, second@) && json_pair_read(text@) == Some(
                (first@, second@),
            ),
            Err(_) => false,
        },
{
    serde_json::to_string(&(first, second)).map_err(|e| e.to_string())
}

/// `serde_json::from_str` for a pair of strings. The error is the crate's
/// message.
#[verifier::external_body]
fn json_read_pair(text: &str) -> (r: Result<(String, String), String>)
    ensures
        match r {
            Ok((first, second)) => json_pair_read(text@) == Some((first@, second@)),
            Err(_) => json_pair_read(text@) is None,
        },
{
    serde_json::from_str::<(String, String)>(text).map_err(|e| e.to_string())
}

/// Whether `value` is the text of a challenge: a JSON pair of a UUID and a
/// one-time code.
pub open spec fn is_challenge_text(value: Seq<char>) -> bool {
    json_pair_read(value) matches Some((id, code)) && uuid_canonical_text(id) is Some
        && is_two_fa_code(code)
}

/// The value that the cache keeps for a challenge.
pub fn encode_challenge(login_attempt_id: &LoginAttemptId, code: &TwoFACode) -> (r: Result<
    String,
    TwoFACodeStoreError,
>)
    ensures
        match r {
            Ok(value) => value@ == json_pair_text(login_attempt_id@, code@) && json_pair_read(
                value@,
            ) == Some((login_attempt_id@, code@)) && is_challenge_text(value@),
            Err(_) => false,
        },
{
    match json_write_pair(login_attempt_id.as_ref(), code.as_ref()) {
        Ok(value) => Ok(value),
        Err(cause) => Err(TwoFACodeStoreError::UnexpectedError(cause)),
    }
}

/// The challenge that a value of the cache holds. A value that is no
/// challenge text is an unexpected error: the store wrote something else.
pub fn decode_challenge(value: &str) -> (r: Result<
    (LoginAttemptId, TwoFACode),
    TwoFACodeStoreError,
>)
    ensures
        match r {
            Ok((login_attempt_id, code)) => is_challenge_text(value@) && (json_pair_read(value@)
                matches Some((id_text, code_text)) && uuid_canonical_text(id_text) == Some(
                login_attempt_id@,
            ) && code@ == code_text),
            Err(TwoFACodeStoreError::UnexpectedError(_)) => !is_challenge_text(value@),
            Err(_) => false,
        },
{
    let (id_text, code_text) = match json_read_pair(value) {
        Ok(pair) => pair,
        Err(cause) => {
            return Err(TwoFACodeStoreError::UnexpectedError(cause));
        },
    };
    let login_attempt_id = match LoginAttemptId::parse(id_text) {
        Ok(login_attempt_id) => login_attempt_id,
        Err(_) => {
            return Err(
                TwoFACodeStoreError::UnexpectedError(String::from_str("Invalid login attempt id")),
            );
        },
    };
    let code = match TwoFACode::parse(code_text) {
        Ok(code) => code,
        Err(_) => {
            return Err(TwoFACodeStoreError::UnexpectedError(String::from_str("Invalid 2FA code")));
        },
    };
    Ok((login_attempt_id, code))
}

/// The challenge that a lookup in the cache gave, where `fetched` is `None`
/// if there is nothing under the key, be it that the challenge has expired.
pub fn read_challenge(fetched: Option<String>) -> (r: Result<
    (LoginAttemptId, TwoFACode),
    TwoFACodeStoreError,
>)
    ensures
        match fetched {
            None => r == Err::<(LoginAttemptId, TwoFACode), _>(
                TwoFACodeStoreError::LoginAttemptIdNotFound,
            ),
            Some(value) => match r {
                Ok((login_attempt_id, code)) => is_challenge_text(value@) && (json_pair_read(value@)
                    matches Some((id_text, code_text)) && uuid_canonical_text(id_text) == Some(
                    login_attempt_id@,
                ) && code@ == code_text),
                Err(TwoFACodeStoreError::UnexpectedError(_)) => !is_challenge_text(value@),
                Err(_) => false,
            },
        },
{
    match fetched {
        Some(value) => decode_challenge(value.as_str()),
        None => Err(TwoFACodeStoreError::LoginAttemptIdNotFound),
    }
}

} // verus!
