use auth_service::domain::{
    AuthAPIError, Email, LoginAttemptId, Password, SecretString, TwoFACode, TwoFACodeStoreError,
    User, UserStoreError,
};
use auth_service::log_error_chain;
use auth_service::services::postgres_user_store::{
    check_credential, collect_chars, compute_password_hash, hash_for_storage,
    hash_password_with_salt, lanes_are_bounded, user_from_row, verify_password_hash,
};
use auth_service::services::redis_banned_token_store;
use auth_service::services::redis_two_fa_code_store;
use auth_service::services::redis_two_fa_code_store::{
    decode_challenge, encode_challenge, read_challenge,
};

#[test]
fn every_error_has_its_status_and_message() {
    let cases = [
        (AuthAPIError::UserAlreadyExists, 409, "User already exists"),
        (AuthAPIError::InvalidCredentials, 400, "Invalid credentials"),
        (AuthAPIError::IncorrectCredentials, 401, "Incorrect credentials"),
        (AuthAPIError::MissingToken, 400, "Missing token"),
        (AuthAPIError::InvalidToken, 401, "Invalid token"),
        (
            AuthAPIError::UnexpectedError("db password is hunter2".to_string()),
            500,
            "Unexpected error",
        ),
        (AuthAPIError::TokenAlreadyBanned, 401, "Token already banned"),
        (AuthAPIError::TwoFACodeStoreError, 500, "TwoFA code store error"),
        (AuthAPIError::InvalidLoginAttemptId, 400, "Invalid login attempt ID"),
    ];
    for (error, status, message) in cases {
        let (got_status, body) = error.into_response();
        assert_eq!(got_status, status);
        assert_eq!(body.error, message);
    }
}

#[test]
fn report_without_causes() {
    let separator =
        "\n-----------------------------------------------------------------------------------\n";
    let report = log_error_chain("UnexpectedError", &vec![]);
    assert_eq!(report, format!("{}UnexpectedError\n\n{}", separator, separator));
}

#[test]
fn report_lists_the_causes_outermost_first() {
    let separator =
        "\n-----------------------------------------------------------------------------------\n";
    let causes = vec!["failed to set 2FA code".to_string(), "connection refused".to_string()];
    let report = log_error_chain("UnexpectedError", &causes);
    assert_eq!(
        report,
        format!(
            "{}UnexpectedError\n\nCaused by:\n\nfailed to set 2FA code\nCaused by:\n\nconnection refused\n{}",
            separator, separator
        )
    );
}

#[test]
fn keys_begin_with_the_prefix_of_their_store() {
    assert_eq!(redis_banned_token_store::get_key("test_token"), "banned_token:test_token");
    assert_eq!(redis_banned_token_store::get_key(""), "banned_token:");
    let email = Email::parse(SecretString::new("test@example.com".to_string())).unwrap();
    assert_eq!(redis_two_fa_code_store::get_key(&email), "two_fa_code:test@example.com");
}

#[test]
fn challenge_is_kept_as_a_json_pair() {
    let id = LoginAttemptId::parse("67e55044-10b1-426f-9247-bb680e5fe0c8".to_string()).unwrap();
    let code = TwoFACode::parse("123456".to_string()).unwrap();
    let value = encode_challenge(&id, &code).unwrap();
    assert_eq!(value, "[\"67e55044-10b1-426f-9247-bb680e5fe0c8\",\"123456\"]");
    let (read_id, read_code) = decode_challenge(&value).unwrap();
    assert!(read_id == id);
    assert!(read_code == code);
}

#[test]
fn value_that_is_no_challenge_is_an_unexpected_error() {
    let values = [
        "",
        "{}",
        "[]",
        "[\"67e55044-10b1-426f-9247-bb680e5fe0c8\"]",
        "[\"67e55044-10b1-426f-9247-bb680e5fe0c8\",\"123456\",\"more\"]",
        "[\"67e55044-10b1-426f-9247-bb680e5fe0c8\",123456]",
        "[\"not-a-uuid\",\"123456\"]",
        "[\"67e55044-10b1-426f-9247-bb680e5fe0c8\",\"12345\"]",
        "[\"67e55044-10b1-426f-9247-bb680e5fe0c8\",\"012345\"]",
    ];
    for value in values {
        assert_eq!(
            decode_challenge(value).err(),
            Some(TwoFACodeStoreError::UnexpectedError(String::new())),
            "accepted {}",
            value
        );
    }
}

#[test]
fn decoded_challenge_id_is_canonical() {
    let (id, code) =
        decode_challenge("[\"67E55044-10B1-426F-9247-BB680E5FE0C8\",\"999999\"]").unwrap();
    assert_eq!(id.as_ref(), "67e55044-10b1-426f-9247-bb680e5fe0c8");
    assert_eq!(code.as_ref(), "999999");
}

#[test]
fn hash_verifies_against_its_password_only() {
    let hash = compute_password_hash("pasword123").unwrap();
    assert_ne!(hash, "pasword123");
    assert!(hash.starts_with("$argon2id$v=19$m=15000,t=2,p=1$"));
    assert_eq!(verify_password_hash(&hash, "pasword123"), Ok(()));
    assert!(verify_password_hash(&hash, "pasword124").is_err());
    assert!(verify_password_hash(&hash, "").is_err());
}

#[test]
fn hashes_of_one_password_differ_by_their_salt() {
    let first = compute_password_hash("pasword123").unwrap();
    let second = compute_password_hash("pasword123").unwrap();
    assert_ne!(first, second);
    assert_eq!(verify_password_hash(&second, "pasword123"), Ok(()));
}

#[test]
fn hash_under_a_given_salt_depends_on_password_and_salt_alone() {
    let hash = hash_password_with_salt("pasword123", "c29tZXNhbHQ").unwrap();
    assert!(hash.starts_with("$argon2id$v=19$m=15000,t=2,p=1$c29tZXNhbHQ$"));
    assert_eq!(hash, hash_password_with_salt("pasword123", "c29tZXNhbHQ").unwrap());
    assert_ne!(hash, hash_password_with_salt("pasword124", "c29tZXNhbHQ").unwrap());
    assert_ne!(hash, hash_password_with_salt("pasword123", "b3RoZXJzYWx0").unwrap());
    assert_eq!(verify_password_hash(&hash, "pasword123"), Ok(()));
    assert!(verify_password_hash(&hash, "pasword124").is_err());
}

#[test]
fn text_that_is_no_salt_is_refused() {
    for salt in ["", "abc", "not base64!!", "c29tZXNhbHQ="] {
        assert!(
            hash_password_with_salt("pasword123", salt).is_err(),
            "accepted {:?}",
            salt
        );
    }
}

#[test]
fn fresh_hash_is_the_hash_under_its_salt() {
    let hash = compute_password_hash("pasword123").unwrap();
    let salt = hash.split('$').nth(4).unwrap();
    assert_eq!(hash_password_with_salt("pasword123", salt), Ok(hash.clone()));
}

#[test]
fn fresh_hash_is_at_the_cost_of_the_service() {
    let user = User::new("test@example.com", "pasword123", false).unwrap();
    let hash = hash_for_storage(&user, false).unwrap();
    assert!(hash.starts_with("$argon2id$v=19$m=15000,t=2,p=1$"));
    let salt = hash.split('$').nth(4).unwrap();
    assert_eq!(hash_password_with_salt("pasword123", salt), Ok(hash.clone()));
    assert!(lanes_are_bounded(&hash));
}

#[test]
fn lanes_of_up_to_eight_digits_are_bounded() {
    for text in [
        "",
        "p=",
        "pasword123",
        "$argon2id$v=19$m=15000,t=2,p=1$c29tZXNhbHQ$aGFzaA",
        "$argon2id$v=19$m=4294967295,t=4294967295,p=16777215$c29tZXNhbHQ$aGFzaA",
        "p=12345678",
        "p=12345678,p=12345678",
        "p=12345678x9",
        "q=123456789",
        "p123456789",
        "p=1234567p=12345678",
    ] {
        assert!(lanes_are_bounded(text), "refused {:?}", text);
    }
}

#[test]
fn lanes_of_nine_digits_are_not_bounded() {
    for text in [
        "p=123456789",
        "p=000000001",
        "p=1234567890",
        "$argon2id$v=19$m=15000,t=2,p=536870912$c29tZXNhbHQ$aGFzaA",
        "$argon2id$v=19$m=15000,t=2,p=1,p=999999999$c29tZXNhbHQ$aGFzaA",
        "xp=999999999",
        "ééé p=123456789 ééé",
    ] {
        assert!(!lanes_are_bounded(text), "accepted {:?}", text);
    }
}

#[test]
fn stored_text_with_too_many_lanes_verifies_nothing() {
    let hash = compute_password_hash("pasword123").unwrap();
    for lanes in ["p=536870912", "p=999999999", "p=4294967295", "p=1,p=536870912"] {
        let forged = hash.replace("p=1", lanes);
        assert!(verify_password_hash(&forged, "pasword123").is_err());
        let right = Password::parse(SecretString::new("pasword123".to_string())).unwrap();
        assert_eq!(
            check_credential(Some(&forged), &right),
            Err(UserStoreError::InvalidCredentials)
        );
    }
    // lanes that Argon2 itself refuses
    let forged = hash.replace("p=1", "p=16777216");
    assert!(verify_password_hash(&forged, "pasword123").is_err());
}

#[test]
fn characters_are_collected_in_order() {
    assert_eq!(collect_chars(""), Vec::<char>::new());
    assert_eq!(collect_chars("p=é1"), vec!['p', '=', 'é', '1']);
}

#[test]
fn text_that_is_no_hash_verifies_nothing() {
    assert!(verify_password_hash("pasword123", "pasword123").is_err());
    assert!(verify_password_hash("", "").is_err());
}

#[test]
fn hash_for_storage_refuses_a_taken_address() {
    let user = User::new("test@example.com", "pasword123", false).unwrap();
    assert_eq!(
        hash_for_storage(&user, true).err(),
        Some(UserStoreError::UserAlreadyExists)
    );
}

#[test]
fn hash_for_storage_hashes_a_plaintext() {
    let user = User::new("test@example.com", "pasword123", false).unwrap();
    let hash = hash_for_storage(&user, false).unwrap();
    assert_ne!(hash, "pasword123");
    assert_eq!(verify_password_hash(&hash, "pasword123"), Ok(()));
}

#[test]
fn hash_for_storage_keeps_a_hash() {
    let user = user_from_row(Some((
        "test@example.com".to_string(),
        "a stored hash".to_string(),
        true,
    )))
    .unwrap();
    assert_eq!(hash_for_storage(&user, false), Ok("a stored hash".to_string()));
}

#[test]
fn check_credential_for_each_case() {
    let hash = compute_password_hash("pasword123").unwrap();
    let right = Password::parse(SecretString::new("pasword123".to_string())).unwrap();
    let wrong = Password::parse(SecretString::new("pasword124".to_string())).unwrap();
    let as_hash = Password::from_hash(SecretString::new(hash.clone()));
    assert_eq!(check_credential(Some(&hash), &right), Ok(()));
    assert_eq!(
        check_credential(Some(&hash), &wrong),
        Err(UserStoreError::InvalidCredentials)
    );
    assert_eq!(
        check_credential(Some(&hash), &as_hash),
        Err(UserStoreError::InvalidCredentials)
    );
    assert_eq!(check_credential(None, &right), Err(UserStoreError::UserNotFound));
    assert_eq!(
        check_credential(Some(&"no hash".to_string()), &right),
        Err(UserStoreError::InvalidCredentials)
    );
}

#[test]
fn row_becomes_an_identity_with_its_hash() {
    let user = user_from_row(Some((
        "test@example.com".to_string(),
        "a stored hash".to_string(),
        true,
    )))
    .unwrap();
    assert_eq!(user.email.as_ref().expose_secret(), "test@example.com");
    assert_eq!(user.password.as_ref().expose_secret(), "a stored hash");
    assert!(user.password.is_hashed());
    assert!(user.requires_2fa);
}

#[test]
fn row_with_an_invalid_address_is_an_unexpected_error() {
    assert_eq!(
        user_from_row(Some(("invalid_email".to_string(), "a stored hash".to_string(), true)))
            .err(),
        Some(UserStoreError::UnexpectedError(String::new()))
    );
}

#[test]
fn missing_row_is_user_not_found() {
    assert_eq!(user_from_row(None).err(), Some(UserStoreError::UserNotFound));
}

#[test]
fn missing_value_is_login_attempt_id_not_found() {
    assert_eq!(
        read_challenge(None).err(),
        Some(TwoFACodeStoreError::LoginAttemptIdNotFound)
    );
    let (id, code) = read_challenge(Some(
        "[\"67e55044-10b1-426f-9247-bb680e5fe0c8\",\"123456\"]".to_string(),
    ))
    .unwrap();
    assert_eq!(id.as_ref(), "67e55044-10b1-426f-9247-bb680e5fe0c8");
    assert_eq!(code.as_ref(), "123456");
    assert_eq!(
        read_challenge(Some("nonsense".to_string())).err(),
        Some(TwoFACodeStoreError::UnexpectedError(String::new()))
    );
}
