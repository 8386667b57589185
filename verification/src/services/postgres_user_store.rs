use crate::domain::data_stores::credential_accepted;
use crate::domain::data_stores::is_decimal_digit;
use crate::domain::data_stores::stored_for;
use crate::domain::data_stores::UserStoreError;
use crate::domain::email::email_syntax_valid;
use crate::domain::email::Email;
use crate::domain::password::Password;
use crate::domain::secret::SecretString;
use crate::domain::user::User;
use argon2::password_hash::SaltString;
use argon2::Algorithm;
use argon2::Argon2;
use argon2::Params;
use argon2::PasswordHash;
use argon2::PasswordHasher;
use argon2::PasswordVerifier;
use argon2::Version;
use vstd::prelude::*;
use vstd::std_specs::iter::IteratorSpec;
use vstd::string::StringExecFns;

verus! {

/// The cost of one password hash: memory in KiB, passes, lanes.
pub const HASH_MEMORY_KIB: u32 = 15000;

pub const HASH_PASSES: u32 = 2;

pub const HASH_LANES: u32 = 1;

/// The most lanes that Argon2 takes.
pub const MAX_HASH_LANES: u32 = 0x00FF_FFFF;

/// Whether `candidate` is a password that `hash` was computed from, where
/// `hash` is a hash in the PHC string format.
pub uninterp spec fn password_hash_matches(hash: Seq<char>, candidate: Seq<char>) -> bool;

/// The PHC string of the Argon2id hash, version 0x13, of `password` under
/// `salt`, a salt in unpadded Base64, at the given costs; `None` where the
/// salt or the costs are refused or hashing fails.
pub uninterp spec fn argon2id_hash(
    password: Seq<char>,
    salt: Seq<char>,
    memory_kib: u32,
    passes: u32,
    lanes: u32,
) -> Option<Seq<char>>;

/// Whether a `p=` begins at `i` in `text` and nine decimal digits follow it.
pub open spec fn lanes_too_long_at(text: Seq<char>, i: int) -> bool {
    &&& 0 <= i
    &&& i + 11 <= text.len()
    &&& text[i] == 'p'
    &&& text[i + 1] == '='
    &&& forall|j: int| i + 2 <= j < i + 11 ==> is_decimal_digit(#[trigger] text[j])
}

/// Whether every lanes field that `text` may hold, read as a PHC string, is
/// a number of at most eight digits. Argon2 takes no more than
/// `MAX_HASH_LANES` lanes, which has eight, so a text that is not so bounded
/// is no hash that anything verifies against.
pub open spec fn phc_lanes_bounded(text: Seq<char>) -> bool {
    forall|i: int| !lanes_too_long_at(text, i)
}

/// Whether `candidate` verifies against the stored text `hash`.
pub open spec fn hash_verifies(hash: Seq<char>, candidate: Seq<char>) -> bool {
    phc_lanes_bounded(hash) && password_hash_matches(hash, candidate)
}

/// Whether `hash` is the hash of `password` under `salt` at the service's
/// cost.
pub open spec fn hashed_under(password: Seq<char>, salt: Seq<char>, hash: Seq<char>) -> bool {
    argon2id_hash(password, salt, HASH_MEMORY_KIB, HASH_PASSES, HASH_LANES) == Some(hash)
}

/// Whether `password` has no hash under `salt` at the service's cost.
pub open spec fn unhashable_under(password: Seq<char>, salt: Seq<char>) -> bool {
    argon2id_hash(password, salt, HASH_MEMORY_KIB, HASH_PASSES, HASH_LANES) is None
}

/// Whether `hash` is what the service keeps for `password`: its Argon2id hash
/// at the service's cost under some salt, which the password verifies
/// against.
pub open spec fn is_service_hash(hash: Seq<char>, password: Seq<char>) -> bool {
    hash_verifies(hash, password) && exists|salt: Seq<char>| hashed_under(password, salt, hash)
}

/// Whether there is a salt under which `password` has no hash.
pub open spec fn hashing_can_fail(password: Seq<char>) -> bool {
    exists|salt: Seq<char>| unhashable_under(password, salt)
}

/// What hashing `password` under `salt` at the service's cost answers: the
/// hash, which the password verifies against, or an error where there is
/// none.
pub open spec fn password_hash_post(
    password: Seq<char>,
    salt: Seq<char>,
    r: Result<String, String>,
) -> bool {
    match r {
        Ok(hash) => hashed_under(password, salt, hash@) && hash_verifies(hash@, password),
        Err(_) => unhashable_under(password, salt),
    }
}

/// `argon2::Argon2::hash_password` with Argon2id, version 0x13, the given
/// costs and the salt that `SaltString::from_b64` reads from `salt`, rendered
/// as a PHC string. With the salt given, what comes out depends on the
/// arguments alone. Every hash that comes out verifies against the password
/// it was made from; it reads `$argon2id$v=19$m=..,t=..,p=..$salt$hash` with
/// `lanes` after its one `p=`, salt and hash being Base64 without `=`. More
/// lanes than Argon2 takes are left out: the crate multiplies them before it
/// compares them. The error is the crate's message.
#[verifier::external_body]
fn argon2_hash(password: &str, salt: &str, memory_kib: u32, passes: u32, lanes: u32) -> (r: Result<
    String,
    String,
>)
    requires
        lanes <= MAX_HASH_LANES,
    ensures
        match r {
            Ok(hash) => argon2id_hash(password@, salt@, memory_kib, passes, lanes) == Some(hash@)
                && password_hash_matches(hash@, password@) && phc_lanes_bounded(hash@),
            Err(_) => argon2id_hash(password@, salt@, memory_kib, passes, lanes) is None,
        },
{
    let salt = SaltString::from_b64(salt).map_err(|e| e.to_string())?;
    let params = Params::new(memory_kib, passes, lanes, None).map_err(|e| e.to_string())?;
    Argon2::new(Algorithm::Argon2id, Version::V0x13, params)
        .hash_password(password.as_bytes(), &salt)
        .map(|hash| hash.to_string())
        .map_err(|e| e.to_string())
}

/// `SaltString::generate` on the thread's generator: the text of a random
/// salt of the recommended length.
#[verifier::external_body]
fn random_salt() -> (r: String) {
    SaltString::generate(&mut rand::thread_rng()).as_str().to_string()
}

/// `argon2::PasswordHash::new` on the stored text, then
/// `Argon2::default().verify_password` with the candidate. A stored text that
/// is no PHC string matches nothing. The crate reads the lanes from each
/// parameter `p` of the text, a number in decimal digits, and multiplies
/// them by eight before it compares them; a text in which nine digits follow
/// a `p=` is left out, so that the product fits. The error is the crate's
/// message.
#[verifier::external_body]
fn argon2_verify(expected_password_hash: &str, password_candidate: &str) -> (r: Result<(), String>)
    requires
        phc_lanes_bounded(expected_password_hash@),
    ensures
        r is Ok == password_hash_matches(expected_password_hash@, password_candidate@),
{
    let parsed = PasswordHash::new(expected_password_hash).map_err(|e| e.to_string())?;
    Argon2::default().verify_password(password_candidate.as_bytes(), &parsed).map_err(
        |e| e.to_string(),
    )
}

/// The characters of `s`, one by one.
pub fn collect_chars(s: &str) -> (r: Vec<char>)
    ensures
        r@ == s@,
{
    let mut chars: Vec<char> = Vec::new();
    for c in it: s.chars()
        invariant
            it.seq() == s@,
            chars@ == s@.take(it.index()),
    {
        chars.push(c);
        assert(chars@ =~= s@.take(it.index() + 1));
    }
    assert(chars@ =~= s@);
    chars
}

fn is_digit(c: char) -> (r: bool)
    ensures
        r == is_decimal_digit(c),
{
    let code_point = c as u32;
    48 <= code_point && code_point <= 57
}

/// Whether every lanes field that `text` may hold is a number of at most
/// eight digits.
pub fn lanes_are_bounded(text: &str) -> (r: bool)
    ensures
        r == phc_lanes_bounded(text@),
{
    let chars = collect_chars(text);
    let n = chars.len();
    let mut i: usize = 0;
    while i < n
        invariant
            i <= n,
            n == chars@.len(),
            chars@ == text@,
            forall|j: int| 0 <= j < i ==> !lanes_too_long_at(text@, j),
        decreases n - i,
    {
        if n - i >= 11 && chars[i] == 'p' && chars[i + 1] == '=' {
            let mut k: usize = 2;
            let mut digits = true;
            while k < 11
                invariant
                    2 <= k <= 11,
                    i + 11 <= n,
                    n == chars@.len(),
                    digits == forall|j: int|
                        i + 2 <= j < i + k ==> is_decimal_digit(#[trigger] chars@[j]),
                decreases 11 - k,
            {
                let ghost before = digits;
                if !is_digit(chars[i + k]) {
                    digits = false;
                }
                proof {
                    assert(digits == (before && is_decimal_digit(chars@[i + k])));
                    if digits {
                        assert forall|j: int| i + 2 <= j < i + k + 1 implies is_decimal_digit(
                            #[trigger] chars@[j],
                        ) by {
                            if j == i + k {
                            }
                        }
                    }
                }
                k = k + 1;
            }
            if digits {
                assert(lanes_too_long_at(text@, i as int));
                return false;
            }
        }
        assert(!lanes_too_long_at(text@, i as int));
        i = i + 1;
    }
    assert forall|j: int| !lanes_too_long_at(text@, j) by {
        if 0 <= j < n {
        }
    }
    true
}

/// Hashes a password for storage under the salt given.
pub fn hash_password_with_salt(password: &str, salt: &str) -> (r: Result<String, String>)
    ensures
        password_hash_post(password@, salt@, r),
{
    argon2_hash(password, salt, HASH_MEMORY_KIB, HASH_PASSES, HASH_LANES)
}

/// Hashes a password for storage under a fresh random salt, at the cost that
/// the constants above fix: the answer is that of `hash_password_with_salt`
/// for some salt. The salt is random, so two calls differ.
pub fn compute_password_hash(password: &str) -> (r: Result<String, String>)
    ensures
        exists|salt: Seq<char>| password_hash_post(password@, salt, r),
        match r {
            Ok(hash) => is_service_hash(hash@, password@),
            Err(_) => hashing_can_fail(password@),
        },
{
    let salt = random_salt();
    let r = hash_password_with_salt(password, salt.as_str());
    proof {
        assert(password_hash_post(password@, salt@, r));
        if r is Ok {
            assert(hashed_under(password@, salt@, r->Ok_0@));
        } else {
            assert(unhashable_under(password@, salt@));
        }
    }
    r
}

/// Succeeds exactly when the candidate verifies against the stored text. A
/// text whose lanes are not bounded is refused before it is looked at any
/// further.
pub fn verify_password_hash(expected_password_hash: &str, password_candidate: &str) -> (r: Result<
    (),
    String,
>)
    ensures
        r is Ok == hash_verifies(expected_password_hash@, password_candidate@),
{
    if !lanes_are_bounded(expected_password_hash) {
        return Err(String::from_str("too many lanes"));
    }
    argon2_verify(expected_password_hash, password_candidate)
}

/// What to keep for an identity that asks to be registered, where
/// `already_registered` says whether its address is taken: a hash that is at
/// hand as it is, for a plaintext its fresh hash at the service's cost. Only
/// where hashing fails is the answer `UnexpectedError`.
pub fn hash_for_storage(user: &User, already_registered: bool) -> (r: Result<
    String,
    UserStoreError,
>)
    ensures
        match r {
            Ok(hash) => !already_registered && stored_for(user.password, hash@),
            Err(UserStoreError::UserAlreadyExists) => already_registered,
            Err(UserStoreError::UnexpectedError(_)) => !already_registered
                && !user.password.is_hash() && hashing_can_fail(user.password@),
            Err(_) => false,
        },
{
    if already_registered {
        return Err(UserStoreError::UserAlreadyExists);
    }
    if user.password.is_hashed() {
        return Ok(user.password.as_ref().expose_secret().clone());
    }
    match compute_password_hash(user.password.as_ref().expose_secret().as_str()) {
        Ok(hash) => Ok(hash),
        Err(cause) => Err(UserStoreError::UnexpectedError(cause)),
    }
}

/// Checks a candidate against the hash that is stored for an address, where
/// `stored_hash` is `None` if the address is not registered.
pub fn check_credential(stored_hash: Option<&String>, password: &Password) -> (r: Result<
    (),
    UserStoreError,
>)
    ensures
        match r {
            Ok(()) => stored_hash matches Some(hash) && credential_accepted(hash@, *password),
            Err(UserStoreError::UserNotFound) => stored_hash is None,
            Err(UserStoreError::InvalidCredentials) => stored_hash matches Some(hash)
                && !credential_accepted(hash@, *password),
            Err(_) => false,
        },
{
    let hash = match stored_hash {
        Some(hash) => hash,
        None => {
            return Err(UserStoreError::UserNotFound);
        },
    };
    if password.is_hashed() {
        return Err(UserStoreError::InvalidCredentials);
    }
    match verify_password_hash(hash.as_str(), password.as_ref().expose_secret().as_str()) {
        Ok(()) => Ok(()),
        Err(_) => Err(UserStoreError::InvalidCredentials),
    }
}

/// The identity that a lookup in the table gave, where `row` is `None` if
/// there is no row for the address. A row whose address is not valid is an
/// unexpected error: the store wrote something else.
pub fn user_from_row(row: Option<(String, String, bool)>) -> (r: Result<User, UserStoreError>)
    ensures
        match row {
            None => r == Err::<User, _>(UserStoreError::UserNotFound),
            Some((email, password_hash, requires_2fa)) => match r {
                Ok(user) => {
                    &&& email_syntax_valid(email@)
                    &&& user.email@ == email@
                    &&& user.password.is_hash()
                    &&& user.password@ == password_hash@
                    &&& user.requires_2fa == requires_2fa
                },
                Err(UserStoreError::UnexpectedError(_)) => !email_syntax_valid(email@),
                Err(_) => false,
            },
        },
{
    let (email, password_hash, requires_2fa) = match row {
        Some(row) => row,
        None => {
            return Err(UserStoreError::UserNotFound);
        },
    };
    let email = match Email::parse(SecretString::new(email)) {
        Ok(email) => email,
        Err(_) => {
            return Err(UserStoreError::UnexpectedError(String::from_str("invalid email in store")));
        },
    };
    Ok(User { email, password: Password::from_hash(SecretString::new(password_hash)), requires_2fa })
}

} // verus!
