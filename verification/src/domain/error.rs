use vstd::prelude::*;

verus! {

/// What an entry point answers when it refuses a request.
#[derive(Debug)]
pub enum AuthAPIError {
    UserAlreadyExists,
    InvalidCredentials,
    IncorrectCredentials,
    MissingToken,
    InvalidToken,
    InvalidLoginAttemptId,
    TokenAlreadyBanned,
    TwoFACodeStoreError,
    /// A store or a collaborator failed; the text is the cause, for the log
    /// only.
    UnexpectedError(String),
}

#[derive(Debug, PartialEq, Eq, Clone, Copy, Structural)]
pub enum UserValidationError {
    InvalidEmail,
    InvalidPassword,
    UnexpectedError,
}

} // verus!
