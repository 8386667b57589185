use crate::domain::email::Email;
use crate::domain::error::UserValidationError;
use crate::domain::password::acceptable_password;
use crate::domain::password::Password;
use crate::domain::email::email_syntax_valid;
use crate::domain::secret::SecretString;
use vstd::prelude::*;
use vstd::string::StringExecFns;

verus! {

/// A registered identity, or one that asks to be registered.
#[derive(Debug)]
pub struct User {
    pub email: Email,
    pub password: Password,
    pub requires_2fa: bool,
}

impl User {
    /// Validates the address, then the plaintext password.
    pub fn new(email: &str, password: &str, requires_2fa: bool) -> (r: Result<
        User,
        UserValidationError,
    >)
        ensures
            match r {
                Ok(user) => {
                    &&& email_syntax_valid(email@)
                    &&& acceptable_password(password@)
                    &&& user.email@ == email@
                    &&& user.password@ == password@
                    &&& !user.password.is_hash()
                    &&& user.requires_2fa == requires_2fa
                },
                Err(UserValidationError::InvalidEmail) => !email_syntax_valid(email@),
                Err(UserValidationError::InvalidPassword) => email_syntax_valid(email@)
                    && !acceptable_password(password@),
                Err(UserValidationError::UnexpectedError) => false,
            },
    {
        let email = match Email::parse(SecretString::new(String::from_str(email))) {
            Ok(email) => email,
            Err(_) => return Err(UserValidationError::InvalidEmail),
        };
        let password = match Password::parse(SecretString::new(String::from_str(password))) {
            Ok(password) => password,
            Err(_) => return Err(UserValidationError::InvalidPassword),
        };
        Ok(User { email, password, requires_2fa })
    }
}

impl Clone for User {
    fn clone(&self) -> (r: User)
        ensures
            r.email@ == self.email@,
            r.password@ == self.password@,
            r.password.is_hash() == self.password.is_hash(),
            r.requires_2fa == self.requires_2fa,
    {
        User {
            email: self.email.clone(),
            password: self.password.clone(),
            requires_2fa: self.requires_2fa,
        }
    }
}

impl PartialEq for User {
    fn eq(&self, other: &Self) -> (r: bool) {
        self.email == other.email && self.password == other.password && self.requires_2fa
            == other.requires_2fa
    }
}

impl vstd::std_specs::cmp::PartialEqSpecImpl for User {
    open spec fn obeys_eq_spec() -> bool {
        true
    }

    open spec fn eq_spec(&self, other: &Self) -> bool {
        &&& self.email@ == other.email@
        &&& self.password@ == other.password@
        &&& self.password.is_hash() == other.password.is_hash()
        &&& self.requires_2fa == other.requires_2fa
    }
}

} // verus!
