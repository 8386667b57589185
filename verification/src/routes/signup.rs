use crate::domain::data_stores::IdentityRecord;
use crate::domain::data_stores::UserStore;
use crate::domain::data_stores::UserStoreError;
use crate::domain::email::email_syntax_valid;
use crate::domain::email::Email;
use crate::domain::error::AuthAPIError;
use crate::domain::password::acceptable_password;
use crate::domain::password::Password;
use crate::domain::secret::SecretString;
use crate::domain::user::User;
use crate::services::postgres_user_store::hashing_can_fail;
use crate::services::postgres_user_store::is_service_hash;
use vstd::prelude::*;
use vstd::string::StringExecFns;

verus! {

/// The status of a registration that went through.
pub const STATUS_CREATED: u16 = 201;

pub struct SignupRequest {
    pub email: String,
    pub password: String,
    pub requires_2fa: bool,
}

#[derive(Debug)]
pub struct SignupResponse {
    pub message: String,
}

impl PartialEq for SignupResponse {
    fn eq(&self, other: &Self) -> (r: bool) {
        self.message == other.message
    }
}

impl vstd::std_specs::cmp::PartialEqSpecImpl for SignupResponse {
    open spec fn obeys_eq_spec() -> bool {
        true
    }

    open spec fn eq_spec(&self, other: &Self) -> bool {
        self.message@ == other.message@
    }
}

/// What a registration does to the identities `before` and answers. Only
/// where hashing the password fails is the answer `UnexpectedError`.
pub open spec fn signup_post(
    before: Map<Seq<char>, IdentityRecord>,
    email: Seq<char>,
    password: Seq<char>,
    requires_2fa: bool,
    after: Map<Seq<char>, IdentityRecord>,
    r: Result<(u16, SignupResponse), AuthAPIError>,
) -> bool {
    let well_formed = email_syntax_valid(email) && acceptable_password(password);
    match r {
        Ok((status, response)) => {
            &&& status == STATUS_CREATED
            &&& response.message@ == "User created successfully!"@
            &&& well_formed
            &&& !before.contains_key(email)
            &&& after == before.insert(email, after[email])
            &&& after[email].requires_2fa == requires_2fa
            &&& is_service_hash(after[email].password_hash, password)
        },
        Err(AuthAPIError::InvalidCredentials) => !well_formed && after == before,
        Err(AuthAPIError::UserAlreadyExists) => well_formed && before.contains_key(email) && after
            == before,
        Err(AuthAPIError::UnexpectedError(_)) => well_formed && !before.contains_key(email)
            && hashing_can_fail(password) && after == before,
        Err(_) => false,
    }
}

/// What the lookup of the address means for a registration: an address that
/// is found is taken, one that is not found is free, and a failure of the
/// store is passed on with its cause.
pub fn registration_lookup(found: Result<User, UserStoreError>) -> (r: Result<(), AuthAPIError>)
    ensures
        match found {
            Ok(_) => r == Err::<(), _>(AuthAPIError::UserAlreadyExists),
            Err(UserStoreError::UserNotFound) => r == Ok::<(), AuthAPIError>(()),
            Err(UserStoreError::UnexpectedError(cause)) => r == Err::<(), _>(
                AuthAPIError::UnexpectedError(cause),
            ),
            Err(_) => r matches Err(AuthAPIError::UnexpectedError(_)),
        },
{
    match found {
        Ok(_) => Err(AuthAPIError::UserAlreadyExists),
        Err(UserStoreError::UserNotFound) => Ok(()),
        Err(UserStoreError::UnexpectedError(cause)) => Err(AuthAPIError::UnexpectedError(cause)),
        Err(_) => Err(AuthAPIError::UnexpectedError(String::from_str("user store error"))),
    }
}

/// The answer to a registration, given what the store said to the new
/// identity.
pub fn registration_answer(added: Result<(), UserStoreError>) -> (r: Result<
    (u16, SignupResponse),
    AuthAPIError,
>)
    ensures
        match added {
            Ok(()) => r matches Ok((status, response)) && status == STATUS_CREATED
                && response.message@ == "User created successfully!"@,
            Err(UserStoreError::UserAlreadyExists) => r == Err::<(u16, SignupResponse), _>(
                AuthAPIError::UserAlreadyExists,
            ),
            Err(UserStoreError::UnexpectedError(cause)) => r == Err::<(u16, SignupResponse), _>(
                AuthAPIError::UnexpectedError(cause),
            ),
            Err(_) => r matches Err(AuthAPIError::UnexpectedError(_)),
        },
{
    match added {
        Ok(()) => Ok(
            (
                STATUS_CREATED,
                SignupResponse { message: String::from_str("User created successfully!") },
            ),
        ),
        Err(UserStoreError::UserAlreadyExists) => Err(AuthAPIError::UserAlreadyExists),
        Err(UserStoreError::UnexpectedError(cause)) => Err(AuthAPIError::UnexpectedError(cause)),
        Err(_) => Err(AuthAPIError::UnexpectedError(String::from_str("user store error"))),
    }
}

/// Registers an identity. The request is validated before the store is
/// touched; an address that is taken is refused; the password is hashed by
/// the store.
pub fn signup<U: UserStore>(user_store: &mut U, request: SignupRequest) -> (r: Result<
    (u16, SignupResponse),
    AuthAPIError,
>)
    ensures
        final(user_store).reliable() == old(user_store).reliable(),
        old(user_store).reliable() ==> signup_post(
            old(user_store).users(),
            request.email@,
            request.password@,
            request.requires_2fa,
            final(user_store).users(),
            r,
        ),
        !(email_syntax_valid(request.email@) && acceptable_password(request.password@)) ==> r
            == Err::<(u16, SignupResponse), _>(AuthAPIError::InvalidCredentials) && final(user_store).users() == old(user_store).users(),
{
    let email = match Email::parse(SecretString::new(request.email)) {
        Ok(email) => email,
        Err(_) => {
            return Err(AuthAPIError::InvalidCredentials);
        },
    };
    let password = match Password::parse(SecretString::new(request.password)) {
        Ok(password) => password,
        Err(_) => {
            return Err(AuthAPIError::InvalidCredentials);
        },
    };
    let user = User { email, password, requires_2fa: request.requires_2fa };
    match registration_lookup(user_store.get_user(&user.email)) {
        Ok(()) => {},
        Err(e) => {
            return Err(e);
        },
    }
    registration_answer(user_store.add_user(user))
}

/// An address is registered once. Of two registrations with the same
/// address, made one after the other where the address was free, the first
/// goes through, unless hashing the password fails, and then the second is
/// refused as `UserAlreadyExists` and changes nothing.
pub proof fn lemma_address_registers_once(
    before: Map<Seq<char>, IdentityRecord>,
    email: Seq<char>,
    first_password: Seq<char>,
    first_requires_2fa: bool,
    between: Map<Seq<char>, IdentityRecord>,
    first: Result<(u16, SignupResponse), AuthAPIError>,
    second_password: Seq<char>,
    second_requires_2fa: bool,
    after: Map<Seq<char>, IdentityRecord>,
    second: Result<(u16, SignupResponse), AuthAPIError>,
)
    requires
        email_syntax_valid(email),
        acceptable_password(first_password),
        acceptable_password(second_password),
        !before.contains_key(email),
        signup_post(before, email, first_password, first_requires_2fa, between, first),
        signup_post(between, email, second_password, second_requires_2fa, after, second),
    ensures
        first is Ok || first matches Err(AuthAPIError::UnexpectedError(_)),
        first is Ok ==> second == Err::<(u16, SignupResponse), _>(AuthAPIError::UserAlreadyExists)
            && after == between && between[email].requires_2fa == first_requires_2fa
            && is_service_hash(between[email].password_hash, first_password),
{
}

} // verus!
