pub mod data_stores;
pub mod email;
pub mod error;
pub mod password;
pub mod secret;
pub mod user;

pub use data_stores::{
    BannedTokenStore, BannedTokenStoreError, EmailClient, LoginAttemptId, LoginAttemptIdError,
    TwoFACode, TwoFACodeError, TwoFACodeStore, TwoFACodeStoreError, UserStore, UserStoreError,
};
pub use email::{Email, EmailError};
pub use error::{AuthAPIError, UserValidationError};
pub use password::{Password, PasswordError};
pub use secret::SecretString;
pub use user::User;
