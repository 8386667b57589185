use auth_service::domain::{
    AuthAPIError, BannedTokenStore, BannedTokenStoreError, Email, EmailClient, LoginAttemptId,
    Password, SecretString, TwoFACode, TwoFACodeStore, TwoFACodeStoreError, User, UserStore,
    UserStoreError,
};
use auth_service::routes::{
    login, logout, signup, verify_2fa, verify_token, LoginRequest, SignupRequest,
    Verify2FARequest, VerifyTokenRequest,
};
use auth_service::services::{HashmapTwoFACodeStore, HashmapUserStore, MockEmailClient};
use auth_service::utils::auth::{generate_auth_token_at, validate_token_at, TokenError};

struct Unavailable;

impl BannedTokenStore for Unavailable {
    fn add_banned_token(
        &mut self,
        _token: SecretString,
        _ttl_seconds: u64,
    ) -> Result<(), BannedTokenStoreError> {
        Err(BannedTokenStoreError::UnexpectedError("cache is down".to_string()))
    }

    fn is_token_banned(&self, _token: &SecretString) -> Result<bool, BannedTokenStoreError> {
        Err(BannedTokenStoreError::UnexpectedError("cache is down".to_string()))
    }
}

impl UserStore for Unavailable {
    fn add_user(&mut self, _user: User) -> Result<(), UserStoreError> {
        Err(UserStoreError::UnexpectedError("database is down".to_string()))
    }

    fn get_user(&self, _email: &Email) -> Result<User, UserStoreError> {
        Err(UserStoreError::UnexpectedError("database is down".to_string()))
    }

    fn validate_user(&self, _email: &Email, _password: &Password) -> Result<(), UserStoreError> {
        Err(UserStoreError::UnexpectedError("database is down".to_string()))
    }
}

impl TwoFACodeStore for Unavailable {
    fn add_code(
        &mut self,
        _email: Email,
        _login_attempt_id: LoginAttemptId,
        _code: TwoFACode,
        _ttl_seconds: u64,
    ) -> Result<(), TwoFACodeStoreError> {
        Err(TwoFACodeStoreError::UnexpectedError("cache is down".to_string()))
    }

    fn remove_code(&mut self, _email: &Email) -> Result<(), TwoFACodeStoreError> {
        Err(TwoFACodeStoreError::UnexpectedError("cache is down".to_string()))
    }

    fn get_code(&self, _email: &Email) -> Result<(LoginAttemptId, TwoFACode), TwoFACodeStoreError> {
        Err(TwoFACodeStoreError::UnexpectedError("cache is down".to_string()))
    }
}

impl EmailClient for Unavailable {
    fn send_email(
        &mut self,
        _recipient: &Email,
        _subject: &str,
        _content: &str,
    ) -> Result<(), String> {
        Err("mail is down".to_string())
    }
}

/// Answers every lookup with the same word, and remembers nothing.
struct Fixed(bool);

impl BannedTokenStore for Fixed {
    fn add_banned_token(
        &mut self,
        _token: SecretString,
        _ttl_seconds: u64,
    ) -> Result<(), BannedTokenStoreError> {
        Ok(())
    }

    fn is_token_banned(&self, _token: &SecretString) -> Result<bool, BannedTokenStoreError> {
        Ok(self.0)
    }
}

fn secret() -> SecretString {
    SecretString::new("secret".to_string())
}

fn valid_token() -> String {
    let email = Email::parse(SecretString::new("test@example.com".to_string())).unwrap();
    generate_auth_token_at(&email, &secret(), 1_000).unwrap()
}

#[test]
fn unavailable_store_does_not_pass_for_not_revoked() {
    // a token that is signed and has not expired is not accepted while the store fails
    let result = validate_token_at(&valid_token(), &Unavailable, &secret(), 1_000);
    match result {
        Err(TokenError::UnexpectedError(cause)) => assert_eq!(cause, "cache is down"),
        _ => panic!("expected UnexpectedError"),
    }
    let answer = verify_token(
        &Unavailable,
        VerifyTokenRequest { token: valid_token() },
        &secret(),
        1_000,
    );
    assert!(matches!(answer, Err(AuthAPIError::UnexpectedError(_))));
    assert_eq!(answer.err().unwrap().into_response().0, 500);
}

#[test]
fn unavailable_store_does_not_pass_for_revoked() {
    // the failure is told apart from a revocation: it is an error of its own, and so
    // it is for a text that is no token at all
    let result = validate_token_at(&valid_token(), &Unavailable, &secret(), 1_000);
    assert!(!matches!(result, Err(TokenError::BannedTokenError)));
    let result = validate_token_at("invalid_token", &Unavailable, &secret(), 1_000);
    assert!(matches!(result, Err(TokenError::UnexpectedError(_))));
    let mut store = Unavailable;
    let answer = logout(&mut store, Some(valid_token()), &secret(), 1_000);
    assert!(matches!(answer, Err(AuthAPIError::UnexpectedError(_))));
}

#[test]
fn store_that_answers_decides_the_revocation() {
    assert!(validate_token_at(&valid_token(), &Fixed(false), &secret(), 1_000).is_ok());
    assert!(matches!(
        validate_token_at(&valid_token(), &Fixed(true), &secret(), 1_000),
        Err(TokenError::BannedTokenError)
    ));
    // whatever the store says, a text that is no token is never accepted
    assert!(matches!(
        validate_token_at("invalid_token", &Fixed(false), &secret(), 1_000),
        Err(TokenError::BadSignature)
    ));
}

#[test]
fn logout_fails_when_the_revocation_cannot_be_written() {
    struct ReadOnly;
    impl BannedTokenStore for ReadOnly {
        fn add_banned_token(
            &mut self,
            _token: SecretString,
            _ttl_seconds: u64,
        ) -> Result<(), BannedTokenStoreError> {
            Err(BannedTokenStoreError::UnexpectedError("read only".to_string()))
        }

        fn is_token_banned(&self, _token: &SecretString) -> Result<bool, BannedTokenStoreError> {
            Ok(false)
        }
    }
    let mut store = ReadOnly;
    let answer = logout(&mut store, Some(valid_token()), &secret(), 1_000);
    assert!(matches!(answer, Err(AuthAPIError::UnexpectedError(_))));
}

#[test]
fn logout_revokes_for_the_remaining_lifetime() {
    struct Recorder(Vec<(String, u64)>);
    impl BannedTokenStore for Recorder {
        fn add_banned_token(
            &mut self,
            token: SecretString,
            ttl_seconds: u64,
        ) -> Result<(), BannedTokenStoreError> {
            self.0.push((token.expose_secret().clone(), ttl_seconds));
            Ok(())
        }

        fn is_token_banned(&self, _token: &SecretString) -> Result<bool, BannedTokenStoreError> {
            Ok(false)
        }
    }
    let mut store = Recorder(Vec::new());
    // issued at 1000, so it expires at 1600 and is accepted until 1660
    assert_eq!(logout(&mut store, Some(valid_token()), &secret(), 1_100).ok(), Some(200));
    assert_eq!(store.0, vec![(valid_token(), 560)]);

    // at the last second at which the token is accepted the revocation is kept for one
    let mut store = Recorder(Vec::new());
    assert_eq!(logout(&mut store, Some(valid_token()), &secret(), 1_660).ok(), Some(200));
    assert_eq!(store.0, vec![(valid_token(), 1)]);
}

#[test]
fn rejection_carries_no_cookie_whatever_the_stores_answer() {
    struct Users;
    impl UserStore for Users {
        fn add_user(&mut self, _user: User) -> Result<(), UserStoreError> {
            Ok(())
        }

        fn get_user(&self, email: &Email) -> Result<User, UserStoreError> {
            Ok(User {
                email: email.clone(),
                password: Password::from_hash(SecretString::new("no hash".to_string())),
                requires_2fa: true,
            })
        }

        fn validate_user(&self, _email: &Email, _password: &Password) -> Result<(), UserStoreError> {
            Ok(())
        }
    }
    let request = || LoginRequest {
        email: "test@example.com".to_string(),
        password: "password123".to_string(),
    };

    // the challenge is not kept: no mail goes out
    struct Counting(usize);
    impl EmailClient for Counting {
        fn send_email(&mut self, _to: &Email, _subject: &str, _content: &str) -> Result<(), String> {
            self.0 += 1;
            Ok(())
        }
    }
    let mut codes = Unavailable;
    let mut mail = Counting(0);
    let (cookie, answer) = login(&Users, &mut codes, &mut mail, request(), &secret(), 1_000);
    assert!(cookie.is_none());
    assert!(matches!(answer, Err(AuthAPIError::TwoFACodeStoreError)));
    assert_eq!(mail.0, 0);

    // the mail fails
    let mut codes = HashmapTwoFACodeStore::new();
    let mut mail = Unavailable;
    let (cookie, answer) = login(&Users, &mut codes, &mut mail, request(), &secret(), 1_000);
    assert!(cookie.is_none());
    assert!(matches!(answer, Err(AuthAPIError::UnexpectedError(_))));

    // the password check fails though the identity was found
    struct Unchecked;
    impl UserStore for Unchecked {
        fn add_user(&mut self, _user: User) -> Result<(), UserStoreError> {
            Ok(())
        }

        fn get_user(&self, email: &Email) -> Result<User, UserStoreError> {
            Users.get_user(email)
        }

        fn validate_user(&self, _email: &Email, _password: &Password) -> Result<(), UserStoreError> {
            Err(UserStoreError::UnexpectedError("database is down".to_string()))
        }
    }
    let mut mail = MockEmailClient::new();
    let (cookie, answer) = login(&Unchecked, &mut codes, &mut mail, request(), &secret(), 1_000);
    assert!(cookie.is_none());
    assert!(matches!(answer, Err(AuthAPIError::UnexpectedError(_))));
}

#[test]
fn verification_fails_when_the_challenge_cannot_be_removed() {
    struct Sticky(LoginAttemptId, TwoFACode);
    impl TwoFACodeStore for Sticky {
        fn add_code(
            &mut self,
            _email: Email,
            _login_attempt_id: LoginAttemptId,
            _code: TwoFACode,
            _ttl_seconds: u64,
        ) -> Result<(), TwoFACodeStoreError> {
            Ok(())
        }

        fn remove_code(&mut self, _email: &Email) -> Result<(), TwoFACodeStoreError> {
            Err(TwoFACodeStoreError::UnexpectedError("cache is down".to_string()))
        }

        fn get_code(&self, _email: &Email) -> Result<(LoginAttemptId, TwoFACode), TwoFACodeStoreError> {
            Ok((self.0.clone(), self.1.clone()))
        }
    }
    let id = LoginAttemptId::default();
    let mut codes = Sticky(id.clone(), TwoFACode::parse("123456".to_string()).unwrap());
    let (cookie, answer) = verify_2fa(
        &mut codes,
        Verify2FARequest {
            email: "test@example.com".to_string(),
            login_attempt_id: id.as_ref().to_string(),
            two_fa_code: "123456".to_string(),
        },
        &secret(),
        1_000,
    );
    assert!(cookie.is_none());
    match answer {
        Err(AuthAPIError::UnexpectedError(cause)) => assert_eq!(cause, "cache is down"),
        _ => panic!("expected UnexpectedError"),
    }
}

#[test]
fn malformed_request_does_not_reach_the_store() {
    let mut users = Unavailable;
    let answer = signup(
        &mut users,
        SignupRequest {
            email: "invalid_email".to_string(),
            password: "password123".to_string(),
            requires_2fa: false,
        },
    );
    assert!(matches!(answer, Err(AuthAPIError::InvalidCredentials)));

    let mut codes = Unavailable;
    let mut mail = Unavailable;
    let (cookie, answer) = login(
        &Unavailable,
        &mut codes,
        &mut mail,
        LoginRequest { email: "test@example.com".to_string(), password: "short".to_string() },
        &secret(),
        1_000,
    );
    assert!(cookie.is_none());
    assert!(matches!(answer, Err(AuthAPIError::InvalidCredentials)));

    let (cookie, answer) = verify_2fa(
        &mut codes,
        Verify2FARequest {
            email: "test@example.com".to_string(),
            login_attempt_id: "invalid_login_attempt_id".to_string(),
            two_fa_code: "123456".to_string(),
        },
        &secret(),
        1_000,
    );
    assert!(cookie.is_none());
    assert!(matches!(answer, Err(AuthAPIError::InvalidCredentials)));
}

#[test]
fn unavailable_stores_are_unexpected_errors() {
    let mut users = Unavailable;
    let answer = signup(
        &mut users,
        SignupRequest {
            email: "test@example.com".to_string(),
            password: "password123".to_string(),
            requires_2fa: false,
        },
    );
    match answer {
        Err(AuthAPIError::UnexpectedError(cause)) => assert_eq!(cause, "database is down"),
        _ => panic!("expected UnexpectedError"),
    }

    let mut codes = Unavailable;
    let mut mail = Unavailable;
    let (cookie, answer) = login(
        &Unavailable,
        &mut codes,
        &mut mail,
        LoginRequest {
            email: "test@example.com".to_string(),
            password: "password123".to_string(),
        },
        &secret(),
        1_000,
    );
    assert!(cookie.is_none());
    assert!(matches!(answer, Err(AuthAPIError::UnexpectedError(_))));

    let (cookie, answer) = verify_2fa(
        &mut codes,
        Verify2FARequest {
            email: "test@example.com".to_string(),
            login_attempt_id: LoginAttemptId::default().as_ref().to_string(),
            two_fa_code: "123456".to_string(),
        },
        &secret(),
        1_000,
    );
    assert!(cookie.is_none());
    assert!(matches!(answer, Err(AuthAPIError::UnexpectedError(_))));
}

#[test]
fn challenge_store_failure_has_its_own_error() {
    let mut users = HashmapUserStore::new();
    users
        .add_user(User::new("test@example.com", "password123", true).unwrap())
        .unwrap();
    let mut codes = Unavailable;
    let mut mail = MockEmailClient::new();
    let (cookie, answer) = login(
        &users,
        &mut codes,
        &mut mail,
        LoginRequest {
            email: "test@example.com".to_string(),
            password: "password123".to_string(),
        },
        &secret(),
        1_000,
    );
    assert!(cookie.is_none());
    let error = answer.err().unwrap();
    assert!(matches!(error, AuthAPIError::TwoFACodeStoreError));
    assert_eq!(error.into_response().0, 500);
}

#[test]
fn failed_dispatch_is_an_error_and_leaves_the_challenge() {
    let mut users = HashmapUserStore::new();
    users
        .add_user(User::new("test@example.com", "password123", true).unwrap())
        .unwrap();
    let mut codes = HashmapTwoFACodeStore::new();
    let mut mail = Unavailable;
    let (cookie, answer) = login(
        &users,
        &mut codes,
        &mut mail,
        LoginRequest {
            email: "test@example.com".to_string(),
            password: "password123".to_string(),
        },
        &secret(),
        1_000,
    );
    assert!(cookie.is_none());
    match answer {
        Err(AuthAPIError::UnexpectedError(cause)) => assert_eq!(cause, "mail is down"),
        _ => panic!("expected UnexpectedError"),
    }
    let email = Email::parse(SecretString::new("test@example.com".to_string())).unwrap();
    assert!(codes.get_code(&email).is_ok());

    // the next login puts a new challenge in its place
    let (first_id, _) = codes.get_code(&email).unwrap();
    let mut mail = MockEmailClient::new();
    let (_, answer) = login(
        &users,
        &mut codes,
        &mut mail,
        LoginRequest {
            email: "test@example.com".to_string(),
            password: "password123".to_string(),
        },
        &secret(),
        1_000,
    );
    assert!(answer.is_ok());
    assert!(codes.get_code(&email).unwrap().0 != first_id);
}
