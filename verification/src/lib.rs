use vstd::prelude::*;
use vstd::string::StringExecFns;

pub mod domain;
pub mod routes;
pub mod services;
pub mod utils;

use crate::domain::error::AuthAPIError;

verus! {

/// The body of an answer that refuses a request.
#[derive(Debug)]
pub struct ErrorResponse {
    pub error: String,
}

/// The HTTP status that goes with `error`.
pub open spec fn status_of(error: AuthAPIError) -> u16 {
    match error {
        AuthAPIError::UserAlreadyExists => 409,
        AuthAPIError::InvalidCredentials => 400,
        AuthAPIError::IncorrectCredentials => 401,
        AuthAPIError::MissingToken => 400,
        AuthAPIError::InvalidToken => 401,
        AuthAPIError::UnexpectedError(_) => 500,
        AuthAPIError::TokenAlreadyBanned => 401,
        AuthAPIError::TwoFACodeStoreError => 500,
        AuthAPIError::InvalidLoginAttemptId => 400,
    }
}

/// The message that goes with `error`. The cause of an unexpected error is
/// not part of it.
pub open spec fn message_of(error: AuthAPIError) -> Seq<char> {
    match error {
        AuthAPIError::UserAlreadyExists => "User already exists"@,
        AuthAPIError::InvalidCredentials => "Invalid credentials"@,
        AuthAPIError::IncorrectCredentials => "Incorrect credentials"@,
        AuthAPIError::MissingToken => "Missing token"@,
        AuthAPIError::InvalidToken => "Invalid token"@,
        AuthAPIError::UnexpectedError(_) => "Unexpected error"@,
        AuthAPIError::TokenAlreadyBanned => "Token already banned"@,
        AuthAPIError::TwoFACodeStoreError => "TwoFA code store error"@,
        AuthAPIError::InvalidLoginAttemptId => "Invalid login attempt ID"@,
    }
}

impl AuthAPIError {
    /// The status and the body that answer a request refused with this error.
    pub fn into_response(self) -> (r: (u16, ErrorResponse))
        ensures
            r.0 == status_of(self),
            r.1.error@ == message_of(self),
    {
        let (status, error_message) = match self {
            AuthAPIError::UserAlreadyExists => (409u16, "User already exists"),
            AuthAPIError::InvalidCredentials => (400u16, "Invalid credentials"),
            AuthAPIError::IncorrectCredentials => (401u16, "Incorrect credentials"),
            AuthAPIError::MissingToken => (400u16, "Missing token"),
            AuthAPIError::InvalidToken => (401u16, "Invalid token"),
            AuthAPIError::UnexpectedError(_) => (500u16, "Unexpected error"),
            AuthAPIError::TokenAlreadyBanned => (401u16, "Token already banned"),
            AuthAPIError::TwoFACodeStoreError => (500u16, "TwoFA code store error"),
            AuthAPIError::InvalidLoginAttemptId => (400u16, "Invalid login attempt ID"),
        };
        (status, ErrorResponse { error: String::from_str(error_message) })
    }
}

/// The line that opens and closes a report.
pub const REPORT_SEPARATOR: &'static str =
    "\n-----------------------------------------------------------------------------------\n";

/// The part of a report that lists the causes, outermost first.
pub open spec fn causes_text(causes: Seq<String>) -> Seq<char>
    decreases causes.len(),
{
    if causes.len() == 0 {
        Seq::<char>::empty()
    } else {
        causes_text(causes.drop_last()) + "\nCaused by:\n\n"@ + causes.last()@
    }
}

/// The report on an error and the chain of its causes.
pub open spec fn error_report(error: Seq<char>, causes: Seq<String>) -> Seq<char> {
    REPORT_SEPARATOR@ + error + "\n"@ + causes_text(causes) + "\n"@ + REPORT_SEPARATOR@
}

/// Writes the report on an error for the log: the error as its `Debug` text,
/// then each cause of the chain, outermost first, between two separator
/// lines.
pub fn log_error_chain(error: &str, causes: &Vec<String>) -> (r: String)
    ensures
        r@ == error_report(error@, causes@),
{
    let mut report = String::from_str(REPORT_SEPARATOR);
    report.append(error);
    report.append("\n");
    let mut i: usize = 0;
    while i < causes.len()
        invariant
            i <= causes@.len(),
            report@ == REPORT_SEPARATOR@ + error@ + "\n"@ + causes_text(causes@.take(i as int)),
        decreases causes@.len() - i,
    {
        report.append("\nCaused by:\n\n");
        report.append(causes[i].as_str());
        proof {
            let next = causes@.take(i + 1);
            assert(next.drop_last() =~= causes@.take(i as int));
            assert(next.last() == causes@[i as int]);
            assert(report@ =~= REPORT_SEPARATOR@ + error@ + "\n"@ + causes_text(next));
        }
        i = i + 1;
    }
    proof {
        assert(causes@.take(i as int) =~= causes@);
    }
    report.append("\n");
    report.append(REPORT_SEPARATOR);
    assert(report@ =~= error_report(error@, causes@));
    report
}

} // verus!
