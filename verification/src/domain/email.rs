use crate::domain::secret::SecretString;
use validator::ValidateEmail;
use vstd::prelude::*;

verus! {

/// Whether `text` is a syntactically valid e-mail address, as the HTML5
/// rules for `<input type="email">` define it.
pub uninterp spec fn email_syntax_valid(text: Seq<char>) -> bool;

/// `validator::ValidateEmail::validate_email` on a string. An address
/// without an `@` is never valid.
#[verifier::external_body]
fn validate_email(text: &String) -> (r: bool)
    ensures
        r == email_syntax_valid(text@),
        !text@.contains('@') ==> !r,
{
    ValidateEmail::validate_email(text)
}

/// Why a string was not accepted as an address.
#[derive(Debug)]
pub enum EmailError {
    /// The rejected text.
    InvalidEmail(String),
    UnexpectedError(String),
}

impl PartialEq for EmailError {
    /// Two errors are equal when they are of the same kind.
    fn eq(&self, other: &Self) -> (r: bool) {
        match (self, other) {
            (EmailError::InvalidEmail(_), EmailError::InvalidEmail(_)) => true,
            (EmailError::UnexpectedError(_), EmailError::UnexpectedError(_)) => true,
            _ => false,
        }
    }
}

impl vstd::std_specs::cmp::PartialEqSpecImpl for EmailError {
    open spec fn obeys_eq_spec() -> bool {
        true
    }

    open spec fn eq_spec(&self, other: &Self) -> bool {
        match (self, other) {
            (EmailError::InvalidEmail(_), EmailError::InvalidEmail(_)) => true,
            (EmailError::UnexpectedError(_), EmailError::UnexpectedError(_)) => true,
            _ => false,
        }
    }
}

/// A validated e-mail address.
#[derive(Debug)]
pub struct Email(SecretString);

impl View for Email {
    type V = Seq<char>;

    closed spec fn view(&self) -> Seq<char> {
        self.0@
    }
}

impl Email {
    #[verifier::type_invariant]
    spec fn valid(self) -> bool {
        email_syntax_valid(self.0@)
    }

    /// Accepts `s` exactly when it is a syntactically valid address; the
    /// address keeps the text of `s` unchanged.
    pub fn parse(s: SecretString) -> (r: Result<Email, EmailError>)
        ensures
            match r {
                Ok(email) => email_syntax_valid(s@) && email@ == s@,
                Err(EmailError::InvalidEmail(text)) => !email_syntax_valid(s@) && text@ == s@,
                Err(_) => false,
            },
            !s@.contains('@') ==> r is Err,
    {
        if !validate_email(s.expose_secret()) {
            return Err(EmailError::InvalidEmail(s.expose_secret().clone()));
        }
        Ok(Email(s))
    }

    pub fn as_ref(&self) -> (r: &SecretString)
        ensures
            r@ == self@,
            email_syntax_valid(self@),
    {
        proof {
            use_type_invariant(self);
        }
        &self.0
    }
}

impl PartialEq for Email {
    fn eq(&self, other: &Self) -> (r: bool) {
        *self.0.expose_secret() == *other.0.expose_secret()
    }
}

impl Eq for Email {
}

impl vstd::std_specs::cmp::PartialEqSpecImpl for Email {
    open spec fn obeys_eq_spec() -> bool {
        true
    }

    open spec fn eq_spec(&self, other: &Self) -> bool {
        self@ == other@
    }
}

impl core::hash::Hash for Email {
    /// `Hash::hash` of the text: equal addresses hash alike.
    #[verifier::external_body]
    fn hash<H: core::hash::Hasher>(&self, state: &mut H) {
        core::hash::Hash::hash(self.0.expose_secret(), state)
    }
}

impl Clone for Email {
    fn clone(&self) -> (r: Email)
        ensures
            r@ == self@,
    {
        proof {
            use_type_invariant(self);
        }
        Email(self.0.clone())
    }
}

} // verus!
