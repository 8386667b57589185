use crate::domain::email::Email;
use crate::domain::password::Password;
use crate::domain::secret::SecretString;
use crate::domain::user::User;
use crate::services::postgres_user_store::hash_verifies;
use crate::services::postgres_user_store::hashing_can_fail;
use crate::services::postgres_user_store::is_service_hash;
use rand::Rng;
use vstd::prelude::*;
use vstd::string::StrSliceExecFns;
use vstd::string::StringExecFns;

verus! {

/// The smallest and the largest number that a one-time code may be.
pub const MIN_TWO_FA_CODE: u32 = 100_000;

pub const MAX_TWO_FA_CODE: u32 = 999_999;

/// Why a string is no challenge id.
#[derive(Debug, Clone, Copy, PartialEq, Eq, Structural)]
pub enum LoginAttemptIdError {
    NotAUuid,
}

/// Why a string is no one-time code.
#[derive(Debug, Clone, Copy, PartialEq, Eq, Structural)]
pub enum TwoFACodeError {
    NotSixDigitsInRange,
}

pub open spec fn is_lower_hex(c: char) -> bool {
    ('0' <= c && c <= '9') || ('a' <= c && c <= 'f')
}

/// The canonical text of a UUID: 36 characters, hyphens after the 8th, 12th,
/// 16th and 20th hexadecimal digit, digits in lower case.
pub open spec fn is_canonical_uuid(text: Seq<char>) -> bool {
    &&& text.len() == 36
    &&& forall|i: int|
        0 <= i < 36 ==> if i == 8 || i == 13 || i == 18 || i == 23 {
            text[i] == '-'
        } else {
            is_lower_hex(#[trigger] text[i])
        }
}

/// The canonical text of the UUID that `text` denotes, in any of the forms
/// that the `uuid` crate reads; `None` where it denotes none.
pub uninterp spec fn uuid_canonical_text(text: Seq<char>) -> Option<Seq<char>>;

/// What the text of a challenge id is: the canonical text of a UUID, which
/// denotes that UUID.
pub open spec fn is_login_attempt_id(text: Seq<char>) -> bool {
    is_canonical_uuid(text) && uuid_canonical_text(text) == Some(text)
}

/// `uuid::Uuid::parse_str` followed by `to_string`. What comes out is in
/// canonical form and denotes the same UUID, and a text that is in canonical
/// form already comes out unchanged.
#[verifier::external_body]
fn uuid_canonicalize(text: &str) -> (r: Option<String>)
    ensures
        match r {
            Some(canonical) => uuid_canonical_text(text@) == Some(canonical@)
                && is_login_attempt_id(canonical@),
            None => uuid_canonical_text(text@) is None,
        },
        is_canonical_uuid(text@) ==> r is Some && r->0@ == text@,
{
    uuid::Uuid::parse_str(text).ok().map(|id| id.to_string())
}

/// `uuid::Uuid::new_v4` followed by `to_string`: the canonical text of a
/// random UUID.
#[verifier::external_body]
fn uuid_random() -> (r: String)
    ensures
        is_login_attempt_id(r@),
{
    uuid::Uuid::new_v4().to_string()
}

/// `rand::Rng::gen_range` on the thread's generator, over `low..=high`.
#[verifier::external_body]
fn random_in_range(low: u32, high: u32) -> (r: u32)
    requires
        low <= high,
    ensures
        low <= r <= high,
{
    rand::thread_rng().gen_range(low..=high)
}

/// The id of one login attempt that waits for its second factor.
#[derive(Debug)]
pub struct LoginAttemptId(SecretString);

impl View for LoginAttemptId {
    type V = Seq<char>;

    closed spec fn view(&self) -> Seq<char> {
        self.0@
    }
}

impl LoginAttemptId {
    #[verifier::type_invariant]
    spec fn valid(self) -> bool {
        is_login_attempt_id(self.0@)
    }

    /// Accepts every text that denotes a UUID and keeps its canonical form.
    pub fn parse(id: String) -> (r: Result<LoginAttemptId, LoginAttemptIdError>)
        ensures
            match r {
                Ok(parsed) => uuid_canonical_text(id@) == Some(parsed@) && is_login_attempt_id(
                    parsed@,
                ),
                Err(_) => uuid_canonical_text(id@) is None,
            },
            is_canonical_uuid(id@) ==> r is Ok && r->Ok_0@ == id@,
    {
        match uuid_canonicalize(id.as_str()) {
            Some(canonical) => Ok(LoginAttemptId(SecretString::new(canonical))),
            None => Err(LoginAttemptIdError::NotAUuid),
        }
    }

    pub fn as_ref(&self) -> (r: &str)
        ensures
            r@ == self@,
            is_login_attempt_id(self@),
    {
        proof {
            use_type_invariant(self);
        }
        self.0.expose_secret().as_str()
    }
}

impl Default for LoginAttemptId {
    /// A fresh random id.
    fn default() -> (r: LoginAttemptId)
        ensures
            is_login_attempt_id(r@),
    {
        LoginAttemptId(SecretString::new(uuid_random()))
    }
}

impl Clone for LoginAttemptId {
    fn clone(&self) -> (r: LoginAttemptId)
        ensures
            r@ == self@,
    {
        proof {
            use_type_invariant(self);
        }
        LoginAttemptId(self.0.clone())
    }
}

impl PartialEq for LoginAttemptId {
    fn eq(&self, other: &Self) -> (r: bool) {
        *self.0.expose_secret() == *other.0.expose_secret()
    }
}

impl vstd::std_specs::cmp::PartialEqSpecImpl for LoginAttemptId {
    open spec fn obeys_eq_spec() -> bool {
        true
    }

    open spec fn eq_spec(&self, other: &Self) -> bool {
        self@ == other@
    }
}

pub open spec fn is_decimal_digit(c: char) -> bool {
    '0' <= c && c <= '9'
}

pub open spec fn digit_value(c: char) -> int {
    c as int - '0' as int
}

/// The number that six decimal digits write.
pub open spec fn six_digit_value(text: Seq<char>) -> int {
    digit_value(text[0]) * 100_000 + digit_value(text[1]) * 10_000 + digit_value(text[2]) * 1_000
        + digit_value(text[3]) * 100 + digit_value(text[4]) * 10 + digit_value(text[5])
}

/// A one-time code: six decimal digits that write a number from 100000 to
/// 999999.
pub open spec fn is_two_fa_code(text: Seq<char>) -> bool {
    &&& text.len() == 6
    &&& forall|i: int| 0 <= i < 6 ==> is_decimal_digit(#[trigger] text[i])
    &&& MIN_TWO_FA_CODE <= six_digit_value(text) <= MAX_TWO_FA_CODE
}

/// The character that writes the digit `d`.
pub open spec fn digit_char(d: int) -> char {
    if d == 0 {
        '0'
    } else if d == 1 {
        '1'
    } else if d == 2 {
        '2'
    } else if d == 3 {
        '3'
    } else if d == 4 {
        '4'
    } else if d == 5 {
        '5'
    } else if d == 6 {
        '6'
    } else if d == 7 {
        '7'
    } else if d == 8 {
        '8'
    } else {
        '9'
    }
}

/// The six digits that write `number`, most significant first.
pub open spec fn six_digits_of(number: int) -> Seq<char> {
    let tens = number / 10;
    let hundreds = tens / 10;
    let thousands = hundreds / 10;
    let ten_thousands = thousands / 10;
    let hundred_thousands = ten_thousands / 10;
    seq![
        digit_char(hundred_thousands % 10),
        digit_char(ten_thousands % 10),
        digit_char(thousands % 10),
        digit_char(hundreds % 10),
        digit_char(tens % 10),
        digit_char(number % 10),
    ]
}

proof fn lemma_digit_char(d: int)
    requires
        0 <= d < 10,
    ensures
        is_decimal_digit(digit_char(d)),
        digit_value(digit_char(d)) == d,
{
}

/// The six digits of a number from 100000 to 999999 are a one-time code, and
/// they write that number.
pub proof fn lemma_six_digits_write_number(number: int)
    requires
        MIN_TWO_FA_CODE <= number <= MAX_TWO_FA_CODE,
    ensures
        is_two_fa_code(six_digits_of(number)),
        six_digit_value(six_digits_of(number)) == number,
{
    let tens = number / 10;
    let hundreds = tens / 10;
    let thousands = hundreds / 10;
    let ten_thousands = thousands / 10;
    let hundred_thousands = ten_thousands / 10;
    let d0 = hundred_thousands % 10;
    let d1 = ten_thousands % 10;
    let d2 = thousands % 10;
    let d3 = hundreds % 10;
    let d4 = tens % 10;
    let d5 = number % 10;
    assert(hundred_thousands == d0);
    lemma_digit_char(d0);
    lemma_digit_char(d1);
    lemma_digit_char(d2);
    lemma_digit_char(d3);
    lemma_digit_char(d4);
    lemma_digit_char(d5);
    let text = six_digits_of(number);
    assert(text[0] == digit_char(d0));
    assert(text[1] == digit_char(d1));
    assert(text[2] == digit_char(d2));
    assert(text[3] == digit_char(d3));
    assert(text[4] == digit_char(d4));
    assert(text[5] == digit_char(d5));
    assert(six_digit_value(text) == d0 * 100_000 + d1 * 10_000 + d2 * 1_000 + d3 * 100 + d4 * 10
        + d5);
    assert forall|i: int| 0 <= i < 6 implies is_decimal_digit(#[trigger] text[i]) by {
        if i == 0 {
        } else if i == 1 {
        } else if i == 2 {
        } else if i == 3 {
        } else if i == 4 {
        } else {
        }
    }
}

fn digit_text(d: u32) -> (r: &'static str)
    requires
        d < 10,
    ensures
        r@ == seq![digit_char(d as int)],
{
    proof {
        reveal_strlit("0");
        reveal_strlit("1");
        reveal_strlit("2");
        reveal_strlit("3");
        reveal_strlit("4");
        reveal_strlit("5");
        reveal_strlit("6");
        reveal_strlit("7");
        reveal_strlit("8");
        reveal_strlit("9");
    }
    let r = if d == 0 {
        "0"
    } else if d == 1 {
        "1"
    } else if d == 2 {
        "2"
    } else if d == 3 {
        "3"
    } else if d == 4 {
        "4"
    } else if d == 5 {
        "5"
    } else if d == 6 {
        "6"
    } else if d == 7 {
        "7"
    } else if d == 8 {
        "8"
    } else {
        "9"
    };
    assert(r@ =~= seq![digit_char(d as int)]);
    r
}

/// A one-time code for the second factor.
#[derive(Debug)]
pub struct TwoFACode(SecretString);

impl View for TwoFACode {
    type V = Seq<char>;

    closed spec fn view(&self) -> Seq<char> {
        self.0@
    }
}

impl TwoFACode {
    #[verifier::type_invariant]
    spec fn valid(self) -> bool {
        is_two_fa_code(self.0@)
    }

    /// Accepts exactly the texts of six decimal digits that write a number
    /// from 100000 to 999999.
    pub fn parse(code: String) -> (r: Result<TwoFACode, TwoFACodeError>)
        ensures
            match r {
                Ok(parsed) => is_two_fa_code(code@) && parsed@ == code@,
                Err(_) => !is_two_fa_code(code@),
            },
    {
        let text = code.as_str();
        if text.unicode_len() != 6 {
            return Err(TwoFACodeError::NotSixDigitsInRange);
        }
        let mut value: u32 = 0;
        let mut i: usize = 0;
        while i < 6
            invariant
                i <= 6,
                text@ == code@,
                text@.len() == 6,
                forall|j: int| 0 <= j < i ==> is_decimal_digit(#[trigger] text@[j]),
                i == 0 ==> value == 0,
                i == 1 ==> value == digit_value(text@[0]),
                i == 2 ==> value == digit_value(text@[0]) * 10 + digit_value(text@[1]),
                i == 3 ==> value == digit_value(text@[0]) * 100 + digit_value(text@[1]) * 10
                    + digit_value(text@[2]),
                i == 4 ==> value == digit_value(text@[0]) * 1_000 + digit_value(text@[1]) * 100
                    + digit_value(text@[2]) * 10 + digit_value(text@[3]),
                i == 5 ==> value == digit_value(text@[0]) * 10_000 + digit_value(text@[1]) * 1_000
                    + digit_value(text@[2]) * 100 + digit_value(text@[3]) * 10 + digit_value(
                    text@[4],
                ),
                i == 6 ==> value == six_digit_value(text@),
            decreases 6 - i,
        {
            let c = text.get_char(i);
            let code_point = c as u32;
            if code_point < 48 || code_point > 57 {
                assert(!is_decimal_digit(text@[i as int]));
                return Err(TwoFACodeError::NotSixDigitsInRange);
            }
            value = value * 10 + (code_point - 48);
            i = i + 1;
        }
        if value < MIN_TWO_FA_CODE || value > MAX_TWO_FA_CODE {
            return Err(TwoFACodeError::NotSixDigitsInRange);
        }
        Ok(TwoFACode(SecretString::new(code)))
    }

    /// The code that writes `number`, where `number` is in the range of
    /// one-time codes.
    pub fn from_number(number: u32) -> (r: Result<TwoFACode, TwoFACodeError>)
        ensures
            match r {
                Ok(code) => MIN_TWO_FA_CODE <= number <= MAX_TWO_FA_CODE && code@ == six_digits_of(
                    number as int,
                ) && six_digit_value(code@) == number,
                Err(_) => !(MIN_TWO_FA_CODE <= number <= MAX_TWO_FA_CODE),
            },
    {
        if number < MIN_TWO_FA_CODE || number > MAX_TWO_FA_CODE {
            return Err(TwoFACodeError::NotSixDigitsInRange);
        }
        let tens = number / 10;
        let hundreds = tens / 10;
        let thousands = hundreds / 10;
        let ten_thousands = thousands / 10;
        let hundred_thousands = ten_thousands / 10;
        let mut text = String::from_str(digit_text(hundred_thousands % 10));
        text.append(digit_text(ten_thousands % 10));
        text.append(digit_text(thousands % 10));
        text.append(digit_text(hundreds % 10));
        text.append(digit_text(tens % 10));
        text.append(digit_text(number % 10));
        proof {
            assert(text@ =~= six_digits_of(number as int));
            lemma_six_digits_write_number(number as int);
        }
        Ok(TwoFACode(SecretString::new(text)))
    }

    pub fn as_ref(&self) -> (r: &str)
        ensures
            r@ == self@,
            is_two_fa_code(self@),
    {
        proof {
            use_type_invariant(self);
        }
        self.0.expose_secret().as_str()
    }
}

impl Default for TwoFACode {
    /// A fresh random code.
    fn default() -> (r: TwoFACode)
        ensures
            is_two_fa_code(r@),
    {
        let number = random_in_range(MIN_TWO_FA_CODE, MAX_TWO_FA_CODE);
        match TwoFACode::from_number(number) {
            Ok(code) => {
                proof {
                    use_type_invariant(&code);
                }
                code
            },
            Err(_) => {
                proof {
                    assert(false);
                }
                TwoFACode(SecretString::new(String::from_str("100000")))
            },
        }
    }
}

impl Clone for TwoFACode {
    fn clone(&self) -> (r: TwoFACode)
        ensures
            r@ == self@,
    {
        proof {
            use_type_invariant(self);
        }
        TwoFACode(self.0.clone())
    }
}

impl PartialEq for TwoFACode {
    fn eq(&self, other: &Self) -> (r: bool) {
        *self.0.expose_secret() == *other.0.expose_secret()
    }
}

impl vstd::std_specs::cmp::PartialEqSpecImpl for TwoFACode {
    open spec fn obeys_eq_spec() -> bool {
        true
    }

    open spec fn eq_spec(&self, other: &Self) -> bool {
        self@ == other@
    }
}

/// What the identity store keeps of one identity.
pub struct IdentityRecord {
    pub password_hash: Seq<char>,
    pub requires_2fa: bool,
}

/// What the challenge store keeps of one pending challenge.
pub struct PendingChallenge {
    pub login_attempt_id: Seq<char>,
    pub code: Seq<char>,
    pub ttl_seconds: u64,
}

/// One message handed to the e-mail client.
pub struct SentEmail {
    pub recipient: Seq<char>,
    pub subject: Seq<char>,
    pub content: Seq<char>,
}

#[derive(Debug)]
pub enum UserStoreError {
    UserAlreadyExists,
    UserNotFound,
    InvalidCredentials,
    /// The backend failed; the text is the cause, for the log only.
    UnexpectedError(String),
}

impl PartialEq for UserStoreError {
    /// Two errors are equal when they are of the same kind.
    fn eq(&self, other: &Self) -> (r: bool) {
        match (self, other) {
            (UserStoreError::UserAlreadyExists, UserStoreError::UserAlreadyExists) => true,
            (UserStoreError::UserNotFound, UserStoreError::UserNotFound) => true,
            (UserStoreError::InvalidCredentials, UserStoreError::InvalidCredentials) => true,
            (UserStoreError::UnexpectedError(_), UserStoreError::UnexpectedError(_)) => true,
            _ => false,
        }
    }
}

impl vstd::std_specs::cmp::PartialEqSpecImpl for UserStoreError {
    open spec fn obeys_eq_spec() -> bool {
        true
    }

    open spec fn eq_spec(&self, other: &Self) -> bool {
        match (self, other) {
            (UserStoreError::UserAlreadyExists, UserStoreError::UserAlreadyExists) => true,
            (UserStoreError::UserNotFound, UserStoreError::UserNotFound) => true,
            (UserStoreError::InvalidCredentials, UserStoreError::InvalidCredentials) => true,
            (UserStoreError::UnexpectedError(_), UserStoreError::UnexpectedError(_)) => true,
            _ => false,
        }
    }
}

#[derive(Debug)]
pub enum BannedTokenStoreError {
    TokenAlreadyBanned,
    TokenNotFound,
    /// The backend failed; the text is the cause, for the log only.
    UnexpectedError(String),
}

impl PartialEq for BannedTokenStoreError {
    /// Two errors are equal when they are of the same kind.
    fn eq(&self, other: &Self) -> (r: bool) {
        match (self, other) {
            (
                BannedTokenStoreError::TokenAlreadyBanned,
                BannedTokenStoreError::TokenAlreadyBanned,
            ) => true,
            (BannedTokenStoreError::TokenNotFound, BannedTokenStoreError::TokenNotFound) => true,
            (
                BannedTokenStoreError::UnexpectedError(_),
                BannedTokenStoreError::UnexpectedError(_),
            ) => true,
            _ => false,
        }
    }
}

impl vstd::std_specs::cmp::PartialEqSpecImpl for BannedTokenStoreError {
    open spec fn obeys_eq_spec() -> bool {
        true
    }

    open spec fn eq_spec(&self, other: &Self) -> bool {
        match (self, other) {
            (
                BannedTokenStoreError::TokenAlreadyBanned,
                BannedTokenStoreError::TokenAlreadyBanned,
            ) => true,
            (BannedTokenStoreError::TokenNotFound, BannedTokenStoreError::TokenNotFound) => true,
            (
                BannedTokenStoreError::UnexpectedError(_),
                BannedTokenStoreError::UnexpectedError(_),
            ) => true,
            _ => false,
        }
    }
}

#[derive(Debug)]
pub enum TwoFACodeStoreError {
    LoginAttemptIdNotFound,
    /// The backend failed; the text is the cause, for the log only.
    UnexpectedError(String),
}

impl PartialEq for TwoFACodeStoreError {
    /// Two errors are equal when they are of the same kind.
    fn eq(&self, other: &Self) -> (r: bool) {
        match (self, other) {
            (
                TwoFACodeStoreError::LoginAttemptIdNotFound,
                TwoFACodeStoreError::LoginAttemptIdNotFound,
            ) => true,
            (TwoFACodeStoreError::UnexpectedError(_), TwoFACodeStoreError::UnexpectedError(_)) => true,
            _ => false,
        }
    }
}

impl vstd::std_specs::cmp::PartialEqSpecImpl for TwoFACodeStoreError {
    open spec fn obeys_eq_spec() -> bool {
        true
    }

    open spec fn eq_spec(&self, other: &Self) -> bool {
        match (self, other) {
            (
                TwoFACodeStoreError::LoginAttemptIdNotFound,
                TwoFACodeStoreError::LoginAttemptIdNotFound,
            ) => true,
            (TwoFACodeStoreError::UnexpectedError(_), TwoFACodeStoreError::UnexpectedError(_)) => true,
            _ => false,
        }
    }
}

/// What the store keeps for `password`: a hash as it is, for a plaintext its
/// hash at the service's cost.
pub open spec fn stored_for(password: Password, hash: Seq<char>) -> bool {
    if password.is_hash() {
        hash == password@
    } else {
        is_service_hash(hash, password@)
    }
}

/// Whether the store accepts `candidate` for an identity with `hash`: only a
/// plaintext that verifies against the hash.
pub open spec fn credential_accepted(hash: Seq<char>, candidate: Password) -> bool {
    !candidate.is_hash() && hash_verifies(hash, candidate@)
}

/// What `add_user` of a reliable store does to the identities `before` and
/// answers.
pub open spec fn add_user_post(
    before: Map<Seq<char>, IdentityRecord>,
    user: User,
    after: Map<Seq<char>, IdentityRecord>,
    r: Result<(), UserStoreError>,
) -> bool {
    match r {
        Ok(()) => {
            &&& !before.contains_key(user.email@)
            &&& after == before.insert(user.email@, after[user.email@])
            &&& after[user.email@].requires_2fa == user.requires_2fa
            &&& stored_for(user.password, after[user.email@].password_hash)
        },
        Err(UserStoreError::UserAlreadyExists) => before.contains_key(user.email@) && after
            == before,
        Err(UserStoreError::UnexpectedError(_)) => !before.contains_key(user.email@)
            && !user.password.is_hash() && hashing_can_fail(user.password@) && after == before,
        Err(_) => false,
    }
}

/// A reliable store registers an address once. Where the address is free,
/// `add_user` goes through, unless hashing a plaintext fails; after that a
/// second `add_user` with the same address is refused as
/// `UserAlreadyExists` and changes nothing.
pub proof fn lemma_add_user_once(
    before: Map<Seq<char>, IdentityRecord>,
    first_user: User,
    between: Map<Seq<char>, IdentityRecord>,
    first: Result<(), UserStoreError>,
    second_user: User,
    after: Map<Seq<char>, IdentityRecord>,
    second: Result<(), UserStoreError>,
)
    requires
        !before.contains_key(first_user.email@),
        second_user.email@ == first_user.email@,
        add_user_post(before, first_user, between, first),
        add_user_post(between, second_user, after, second),
    ensures
        first is Ok || first matches Err(UserStoreError::UnexpectedError(_)),
        first_user.password.is_hash() ==> first is Ok,
        first is Ok ==> second == Err::<(), _>(UserStoreError::UserAlreadyExists) && after
            == between,
{
}

/// What `get_user` of a reliable store answers on the identities `users`.
pub open spec fn get_user_post(
    users: Map<Seq<char>, IdentityRecord>,
    email: Seq<char>,
    r: Result<User, UserStoreError>,
) -> bool {
    match r {
        Ok(user) => {
            &&& users.contains_key(email)
            &&& user.email@ == email
            &&& user.password.is_hash()
            &&& user.password@ == users[email].password_hash
            &&& user.requires_2fa == users[email].requires_2fa
        },
        Err(UserStoreError::UserNotFound) => !users.contains_key(email),
        Err(_) => false,
    }
}

/// What `validate_user` of a reliable store answers on the identities
/// `users`.
pub open spec fn validate_user_post(
    users: Map<Seq<char>, IdentityRecord>,
    email: Seq<char>,
    password: Password,
    r: Result<(), UserStoreError>,
) -> bool {
    match r {
        Ok(()) => users.contains_key(email) && credential_accepted(
            users[email].password_hash,
            password,
        ),
        Err(UserStoreError::UserNotFound) => !users.contains_key(email),
        Err(UserStoreError::InvalidCredentials) => users.contains_key(email)
            && !credential_accepted(users[email].password_hash, password),
        Err(_) => false,
    }
}

/// The registered identities, one for each address.
///
/// A store says of itself whether it is `reliable`: whether it answers every
/// call and is no more and no less than the map `users`. The contracts bind a
/// reliable store and no other. A backend that may fail or lose its state
/// keeps the default, and what is proved of the code that uses it is what
/// holds whatever the backend answers.
pub trait UserStore {
    /// The identities, by address.
    open spec fn users(&self) -> Map<Seq<char>, IdentityRecord> {
        Map::empty()
    }

    open spec fn reliable(&self) -> bool {
        false
    }

    /// Registers an identity under an address that is not yet taken. A
    /// plaintext password is hashed first; the plaintext is never kept. Only
    /// where hashing fails does a reliable store give `UnexpectedError`.
    fn add_user(&mut self, user: User) -> (r: Result<(), UserStoreError>)
        ensures
            final(self).reliable() == old(self).reliable(),
            old(self).reliable() ==> add_user_post(old(self).users(), user, final(self).users(), r),
    ;

    /// The identity under `email`, with its stored hash.
    fn get_user(&self, email: &Email) -> (r: Result<User, UserStoreError>)
        ensures
            self.reliable() ==> get_user_post(self.users(), email@, r),
    ;

    /// Checks a plaintext candidate against the hash stored under `email`.
    fn validate_user(&self, email: &Email, password: &Password) -> (r: Result<
        (),
        UserStoreError,
    >)
        ensures
            self.reliable() ==> validate_user_post(self.users(), email@, *password, r),
    ;
}

/// The revoked session tokens. See `UserStore` for what `reliable` means.
pub trait BannedTokenStore {
    /// The revoked tokens, each with the seconds it was revoked for.
    open spec fn banned(&self) -> Map<Seq<char>, u64> {
        Map::empty()
    }

    open spec fn reliable(&self) -> bool {
        false
    }

    /// Revokes `token` for `ttl_seconds`.
    fn add_banned_token(&mut self, token: SecretString, ttl_seconds: u64) -> (r: Result<
        (),
        BannedTokenStoreError,
    >)
        ensures
            final(self).reliable() == old(self).reliable(),
            old(self).reliable() ==> r is Ok && final(self).banned() == old(self).banned().insert(
                token@,
                ttl_seconds,
            ),
    ;

    /// Whether `token` is revoked.
    fn is_token_banned(&self, token: &SecretString) -> (r: Result<bool, BannedTokenStoreError>)
        ensures
            self.reliable() ==> (r matches Ok(banned) && banned == self.banned().contains_key(
                token@,
            )),
    ;
}

/// The pending second-factor challenges, at most one for each address. See
/// `UserStore` for what `reliable` means.
pub trait TwoFACodeStore {
    /// The pending challenges, by address.
    open spec fn challenges(&self) -> Map<Seq<char>, PendingChallenge> {
        Map::empty()
    }

    open spec fn reliable(&self) -> bool {
        false
    }

    /// Puts a challenge under `email` for `ttl_seconds`, in place of the one
    /// that may be there.
    fn add_code(
        &mut self,
        email: Email,
        login_attempt_id: LoginAttemptId,
        code: TwoFACode,
        ttl_seconds: u64,
    ) -> (r: Result<(), TwoFACodeStoreError>)
        ensures
            final(self).reliable() == old(self).reliable(),
            old(self).reliable() ==> r is Ok && final(self).challenges() == old(self).challenges().insert(
                email@,
                PendingChallenge { login_attempt_id: login_attempt_id@, code: code@, ttl_seconds },
            ),
    ;

    /// Drops the challenge under `email`. That there is none is no error.
    fn remove_code(&mut self, email: &Email) -> (r: Result<(), TwoFACodeStoreError>)
        ensures
            final(self).reliable() == old(self).reliable(),
            old(self).reliable() ==> r is Ok && final(self).challenges() == old(self).challenges().remove(email@),
    ;

    /// The challenge under `email`.
    fn get_code(&self, email: &Email) -> (r: Result<(LoginAttemptId, TwoFACode), TwoFACodeStoreError>)
        ensures
            self.reliable() ==> match r {
                Ok((login_attempt_id, code)) => {
                    &&& self.challenges().contains_key(email@)
                    &&& login_attempt_id@ == self.challenges()[email@].login_attempt_id
                    &&& code@ == self.challenges()[email@].code
                },
                Err(TwoFACodeStoreError::LoginAttemptIdNotFound) => !self.challenges().contains_key(
                    email@,
                ),
                Err(TwoFACodeStoreError::UnexpectedError(_)) => false,
            },
    ;
}

/// The collaborator that delivers messages. A client is `reliable` if it
/// accepts every message.
pub trait EmailClient {
    /// The messages handed over so far, oldest first.
    open spec fn sent(&self) -> Seq<SentEmail> {
        Seq::empty()
    }

    open spec fn reliable(&self) -> bool {
        false
    }

    /// Hands one message over. The error is the cause, for the log only.
    fn send_email(&mut self, recipient: &Email, subject: &str, content: &str) -> (r: Result<
        (),
        String,
    >)
        ensures
            final(self).reliable() == old(self).reliable(),
            old(self).reliable() ==> r is Ok && final(self).sent() == old(self).sent().push(
                SentEmail { recipient: recipient@, subject: subject@, content: content@ },
            ),
    ;
}

} // verus!
