use crate::domain::secret::SecretString;
use vstd::prelude::*;
use vstd::std_specs::iter::IteratorSpec;
use vstd::utf8::encode_utf8;

verus! {

/// The least number of bytes a plaintext password has.
pub const MIN_PASSWORD_BYTES: usize = 8;

/// The length that the password rule measures: the bytes of the text in UTF-8.
pub open spec fn password_length(text: Seq<char>) -> nat {
    encode_utf8(text).len()
}

/// The rule for a plaintext password: at least eight bytes and no space.
pub open spec fn acceptable_password(text: Seq<char>) -> bool {
    password_length(text) >= MIN_PASSWORD_BYTES && !text.contains(' ')
}

/// Why a plaintext password was refused.
#[derive(Debug)]
pub enum PasswordError {
    /// Fewer than eight bytes.
    TooShort,
    /// Long enough, but with a space in it.
    ContainsWhitespace,
    UnexpectedError(String),
}

impl PartialEq for PasswordError {
    /// Two errors are equal when they are of the same kind.
    fn eq(&self, other: &Self) -> (r: bool) {
        match (self, other) {
            (PasswordError::TooShort, PasswordError::TooShort) => true,
            (PasswordError::ContainsWhitespace, PasswordError::ContainsWhitespace) => true,
            (PasswordError::UnexpectedError(_), PasswordError::UnexpectedError(_)) => true,
            _ => false,
        }
    }
}

impl vstd::std_specs::cmp::PartialEqSpecImpl for PasswordError {
    open spec fn obeys_eq_spec() -> bool {
        true
    }

    open spec fn eq_spec(&self, other: &Self) -> bool {
        match (self, other) {
            (PasswordError::TooShort, PasswordError::TooShort) => true,
            (PasswordError::ContainsWhitespace, PasswordError::ContainsWhitespace) => true,
            (PasswordError::UnexpectedError(_), PasswordError::UnexpectedError(_)) => true,
            _ => false,
        }
    }
}

/// Whether `wanted` occurs in `s`.
pub fn contains_char(s: &str, wanted: char) -> (r: bool)
    ensures
        r == s@.contains(wanted),
{
    let mut found = false;
    for c in it: s.chars()
        invariant
            it.seq() == s@,
            found == exists|j: int| 0 <= j < it.index() && s@[j] == wanted,
    {
        if c == wanted {
            found = true;
        }
    }
    found
}

/// The rule for a plaintext password, decided on a secret string.
pub fn validate_password(s: &SecretString) -> (r: bool)
    ensures
        r == acceptable_password(s@),
{
    let password = s.expose_secret().as_str();
    password.as_bytes().len() >= MIN_PASSWORD_BYTES && !contains_char(password, ' ')
}

/// A credential: either a plaintext candidate that passed the password rule,
/// or a stored hash, which is taken as it is.
#[derive(Debug)]
pub struct Password {
    secret: SecretString,
    hashed: bool,
}

impl View for Password {
    type V = Seq<char>;

    closed spec fn view(&self) -> Seq<char> {
        self.secret@
    }
}

impl Password {
    #[verifier::type_invariant]
    spec fn valid(self) -> bool {
        !self.hashed ==> acceptable_password(self.secret@)
    }

    /// Whether this credential is a stored hash rather than a plaintext.
    pub closed spec fn is_hash(&self) -> bool {
        self.hashed
    }

    /// Accepts a plaintext of at least eight bytes without a space. A short
    /// text is `TooShort` whether or not it holds a space.
    pub fn parse(s: SecretString) -> (r: Result<Password, PasswordError>)
        ensures
            match r {
                Ok(password) => acceptable_password(s@) && password@ == s@ && !password.is_hash(),
                Err(PasswordError::TooShort) => password_length(s@) < MIN_PASSWORD_BYTES,
                Err(PasswordError::ContainsWhitespace) => password_length(s@) >= MIN_PASSWORD_BYTES
                    && s@.contains(' '),
                Err(PasswordError::UnexpectedError(_)) => false,
            },
    {
        let text = s.expose_secret().as_str();
        if text.as_bytes().len() < MIN_PASSWORD_BYTES {
            Err(PasswordError::TooShort)
        } else if contains_char(text, ' ') {
            Err(PasswordError::ContainsWhitespace)
        } else {
            Ok(Password { secret: s, hashed: false })
        }
    }

    /// Takes a hash as it comes out of storage. Nothing is checked.
    pub fn from_hash(stored: SecretString) -> (r: Password)
        ensures
            r@ == stored@,
            r.is_hash(),
    {
        Password { secret: stored, hashed: true }
    }

    pub fn is_hashed(&self) -> (r: bool)
        ensures
            r == self.is_hash(),
            !r ==> acceptable_password(self@),
    {
        proof {
            use_type_invariant(self);
        }
        self.hashed
    }

    pub fn as_ref(&self) -> (r: &SecretString)
        ensures
            r@ == self@,
    {
        &self.secret
    }
}

impl Clone for Password {
    fn clone(&self) -> (r: Password)
        ensures
            r@ == self@,
            r.is_hash() == self.is_hash(),
    {
        proof {
            use_type_invariant(self);
        }
        Password { secret: self.secret.clone(), hashed: self.hashed }
    }
}

impl PartialEq for Password {
    fn eq(&self, other: &Self) -> (r: bool) {
        self.hashed == other.hashed && *self.secret.expose_secret() == *other.secret.expose_secret()
    }
}

impl vstd::std_specs::cmp::PartialEqSpecImpl for Password {
    open spec fn obeys_eq_spec() -> bool {
        true
    }

    open spec fn eq_spec(&self, other: &Self) -> bool {
        self.is_hash() == other.is_hash() && self@ == other@
    }
}

} // verus!
