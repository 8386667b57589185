pub mod assoc_list;
pub mod auth;
pub mod constants;

pub use auth::{
    generate_auth_cookie, generate_auth_token, validate_token, Claims, TokenError,
    TOKEN_TTL_SECONDS,
};
pub use constants::JWT_COOKIE_NAME;
