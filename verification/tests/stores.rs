use auth_service::domain::{
    BannedTokenStore, Email, EmailClient, LoginAttemptId, Password, SecretString, TwoFACode,
    TwoFACodeStore, TwoFACodeStoreError, User, UserStore, UserStoreError,
};
use auth_service::services::{
    HashSetBannedTokenStore, HashmapTwoFACodeStore, HashmapUserStore, MockEmailClient,
};
use auth_service::utils::assoc_list::AssocList;

fn email(text: &str) -> Email {
    Email::parse(SecretString::new(text.to_string())).unwrap()
}

fn password(text: &str) -> Password {
    Password::parse(SecretString::new(text.to_string())).unwrap()
}

#[test]
fn hashmap_user_store_test_add_user() {
    let mut store = HashmapUserStore::default();
    let user = User::new("test@example.com", "pasword123", false).unwrap();

    assert_eq!(store.add_user(user.clone()), Ok(()));
    //Test validating a user that exists
    assert_eq!(
        store.add_user(user.clone()),
        Err(UserStoreError::UserAlreadyExists)
    );
}

#[test]
fn hashmap_user_store_test_get_user() {
    let mut store = HashmapUserStore::default();
    let user = User::new("test@example.com", "pasword123", false).unwrap();
    store.add_user(user.clone()).unwrap();
    let found = store.get_user(&user.email).unwrap();
    assert!(found.email == user.email);
    assert_eq!(found.requires_2fa, user.requires_2fa);
    assert!(found.password.is_hashed());
    assert_ne!(found.password.as_ref().expose_secret(), "pasword123");
    assert_eq!(
        store.get_user(&email("invalid_email@gmail.com")).err(),
        Some(UserStoreError::UserNotFound)
    );
}

#[test]
fn hashmap_user_store_test_validate_user() {
    let mut store = HashmapUserStore::default();
    let user = User::new("test@example.com", "pas454ord123", false).unwrap();
    store.add_user(user.clone()).unwrap();
    assert_eq!(store.validate_user(&user.email, &user.password), Ok(()));
    assert_eq!(
        store.validate_user(&user.email, &password("wrfddfonord")),
        Err(UserStoreError::InvalidCredentials)
    );
}

#[test]
fn validate_user_that_is_not_registered() {
    let store = HashmapUserStore::new();
    assert_eq!(
        store.validate_user(&email("nobody@example.com"), &password("pasword123")),
        Err(UserStoreError::UserNotFound)
    );
}

#[test]
fn stored_hash_is_no_password() {
    let mut store = HashmapUserStore::new();
    let user = User::new("test@example.com", "pasword123", false).unwrap();
    store.add_user(user.clone()).unwrap();
    let found = store.get_user(&user.email).unwrap();
    assert_eq!(
        store.validate_user(&user.email, &found.password),
        Err(UserStoreError::InvalidCredentials)
    );
    let hash_as_plaintext =
        Password::parse(SecretString::new(found.password.as_ref().expose_secret().clone()))
            .unwrap();
    assert_eq!(
        store.validate_user(&user.email, &hash_as_plaintext),
        Err(UserStoreError::InvalidCredentials)
    );
}

#[test]
fn user_with_a_hash_is_stored_as_it_is() {
    let mut source = HashmapUserStore::new();
    let user = User::new("test@example.com", "pasword123", true).unwrap();
    source.add_user(user.clone()).unwrap();
    let hashed = source.get_user(&user.email).unwrap();

    let mut store = HashmapUserStore::new();
    assert_eq!(store.add_user(hashed.clone()), Ok(()));
    let found = store.get_user(&user.email).unwrap();
    assert!(found == hashed);
    assert_eq!(store.validate_user(&user.email, &user.password), Ok(()));
}

#[test]
fn add_hashed_registers_an_address_once() {
    let mut store = HashmapUserStore::new();
    let address = email("test@example.com");
    assert_eq!(store.add_hashed(&address, "hash one".to_string(), true), Ok(()));
    assert_eq!(
        store.add_hashed(&address, "hash two".to_string(), false),
        Err(UserStoreError::UserAlreadyExists)
    );
    let found = store.get_user(&address).unwrap();
    assert_eq!(found.password.as_ref().expose_secret(), "hash one");
    assert!(found.requires_2fa);
}

#[test]
fn identities_are_kept_apart() {
    let mut store = HashmapUserStore::new();
    let first = User::new("first@example.com", "pasword123", false).unwrap();
    let second = User::new("second@example.com", "pasword456", true).unwrap();
    store.add_user(first.clone()).unwrap();
    store.add_user(second.clone()).unwrap();
    assert!(!store.get_user(&first.email).unwrap().requires_2fa);
    assert!(store.get_user(&second.email).unwrap().requires_2fa);
    assert_eq!(store.validate_user(&first.email, &first.password), Ok(()));
    assert_eq!(
        store.validate_user(&first.email, &second.password),
        Err(UserStoreError::InvalidCredentials)
    );
}

#[test]
fn hashset_banned_token_store_test_add_banned_token() {
    let mut store = HashSetBannedTokenStore::default();
    let token = "test_token".to_string();

    assert!(store
        .add_banned_token(SecretString::new(token.clone()), 600)
        .is_ok());
    assert_eq!(store.is_token_banned(&SecretString::new(token)), Ok(true));
}

#[test]
fn hashset_banned_token_store_test_is_token_banned() {
    let mut store = HashSetBannedTokenStore::new();
    let token = "test_token".to_string();

    store
        .add_banned_token(SecretString::new(token.clone()), 600)
        .unwrap();
    assert!(store
        .is_token_banned(&SecretString::new(token.clone()))
        .unwrap());
}

#[test]
fn token_that_was_not_banned_is_not_banned() {
    let mut store = HashSetBannedTokenStore::new();
    assert_eq!(
        store.is_token_banned(&SecretString::new("test_token".to_string())),
        Ok(false)
    );
    store
        .add_banned_token(SecretString::new("other".to_string()), 1)
        .unwrap();
    assert_eq!(
        store.is_token_banned(&SecretString::new("test_token".to_string())),
        Ok(false)
    );
    // banning twice changes nothing
    store
        .add_banned_token(SecretString::new("other".to_string()), 2)
        .unwrap();
    assert_eq!(
        store.is_token_banned(&SecretString::new("other".to_string())),
        Ok(true)
    );
}

#[test]
fn test_add_code() {
    let mut store = HashmapTwoFACodeStore::default();
    let email = email("test@example.com");
    let login_attempt_id = LoginAttemptId::default();
    let code = TwoFACode::default();
    assert!(store
        .add_code(email.clone(), login_attempt_id.clone(), code.clone(), 600)
        .is_ok());
    let stored = store.get_code(&email).unwrap();
    assert!(stored.0 == login_attempt_id);
    assert!(stored.1 == code);
}

#[test]
fn test_remove_code() {
    let mut store = HashmapTwoFACodeStore::default();
    let email = email("test@example.com");
    let login_attempt_id = LoginAttemptId::default();
    let code = TwoFACode::default();
    store
        .add_code(email.clone(), login_attempt_id.clone(), code.clone(), 600)
        .unwrap();
    assert!(store.remove_code(&email).is_ok());
    assert_eq!(
        store.get_code(&email).err(),
        Some(TwoFACodeStoreError::LoginAttemptIdNotFound)
    );
}

#[test]
fn test_get_code() {
    let mut store = HashmapTwoFACodeStore::default();
    let email = email("test@example.com");
    let login_attempt_id = LoginAttemptId::default();
    let code = TwoFACode::default();
    store
        .add_code(email.clone(), login_attempt_id.clone(), code.clone(), 600)
        .unwrap();
    assert!(store.get_code(&email).unwrap() == (login_attempt_id, code));
}

#[test]
fn removing_a_code_that_is_not_there_is_no_error() {
    let mut store = HashmapTwoFACodeStore::new();
    let email = email("test@example.com");
    assert_eq!(store.remove_code(&email), Ok(()));
    store
        .add_code(email.clone(), LoginAttemptId::default(), TwoFACode::default(), 600)
        .unwrap();
    assert_eq!(store.remove_code(&email), Ok(()));
    assert_eq!(store.remove_code(&email), Ok(()));
}

#[test]
fn second_code_replaces_the_first() {
    let mut store = HashmapTwoFACodeStore::new();
    let address = email("test@example.com");
    let other = email("other@example.com");
    let first_id = LoginAttemptId::default();
    let second_id = LoginAttemptId::default();
    let other_id = LoginAttemptId::default();
    let first_code = TwoFACode::parse("111111".to_string()).unwrap();
    let second_code = TwoFACode::parse("222222".to_string()).unwrap();
    store
        .add_code(other.clone(), other_id.clone(), first_code.clone(), 600)
        .unwrap();
    store
        .add_code(address.clone(), first_id, first_code.clone(), 600)
        .unwrap();
    store
        .add_code(address.clone(), second_id.clone(), second_code.clone(), 600)
        .unwrap();
    assert!(store.get_code(&address).unwrap() == (second_id, second_code));
    assert!(store.get_code(&other).unwrap() == (other_id, first_code));
    store.remove_code(&address).unwrap();
    assert!(store.get_code(&address).is_err());
    assert!(store.get_code(&other).is_ok());
}

#[test]
fn mock_email_client_accepts_every_message() {
    let mut client = MockEmailClient::default();
    let recipient = email("test@example.com");
    assert_eq!(client.send_email(&recipient, "2FA Code", "123456"), Ok(()));
    assert_eq!(MockEmailClient::new().send_email(&recipient, "", ""), Ok(()));
}

#[test]
fn assoc_list_is_a_map() {
    let list: AssocList<u32> = AssocList::new();
    assert!(!list.contains_key(&"a".to_string()));
    assert_eq!(list.get(&"a".to_string()), None);
    let list = list.insert("a".to_string(), 1);
    let list = list.insert("b".to_string(), 2);
    let list = list.insert("c".to_string(), 3);
    assert_eq!(list.get(&"a".to_string()), Some(&1));
    assert_eq!(list.get(&"b".to_string()), Some(&2));
    assert_eq!(list.get(&"c".to_string()), Some(&3));
    let list = list.insert("b".to_string(), 20);
    assert_eq!(list.get(&"a".to_string()), Some(&1));
    assert_eq!(list.get(&"b".to_string()), Some(&20));
    assert_eq!(list.get(&"c".to_string()), Some(&3));
    let list = list.remove(&"a".to_string());
    assert_eq!(list.get(&"a".to_string()), None);
    assert_eq!(list.get(&"b".to_string()), Some(&20));
    assert_eq!(list.get(&"c".to_string()), Some(&3));
    let list = list.remove(&"missing".to_string());
    assert!(list.contains_key(&"b".to_string()));
    let list = list.remove(&"c".to_string());
    let list = list.remove(&"b".to_string());
    assert!(!list.contains_key(&"b".to_string()));
    assert!(!list.contains_key(&"c".to_string()));
}
