use vstd::prelude::*;

verus! {

/// The name of the cookie that carries the session token.
pub const JWT_COOKIE_NAME: &'static str = "jwt";

} // verus!
