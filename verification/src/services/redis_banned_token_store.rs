use vstd::prelude::*;
use vstd::string::StringExecFns;

verus! {

/// What the keys of revoked tokens begin with, so that they do not meet the
/// keys of another store in the same cache.
pub const BANNED_TOKEN_KEY_PREFIX: &'static str = "banned_token:";

/// The key under which the cache keeps the revocation of `token`.
pub fn get_key(token: &str) -> (r: String)
    ensures
        r@ == BANNED_TOKEN_KEY_PREFIX@ + token@,
{
    let mut key = String::from_str(BANNED_TOKEN_KEY_PREFIX);
    key.append(token);
    key
}

} // verus!
