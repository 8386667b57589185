use crate::domain::data_stores::IdentityRecord;
use crate::domain::data_stores::UserStore;
use crate::domain::data_stores::UserStoreError;
use crate::domain::email::Email;
use crate::domain::password::Password;
use crate::domain::secret::SecretString;
use crate::domain::user::User;
use crate::services::postgres_user_store::check_credential;
use crate::services::postgres_user_store::hash_for_storage;
use crate::utils::assoc_list::AssocList;
use vstd::prelude::*;

verus! {

/// What the store keeps under one address: the hash, never a plaintext.
pub struct StoredIdentity {
    password: Password,
    requires_2fa: bool,
}

impl StoredIdentity {
    #[verifier::type_invariant]
    spec fn holds_hash(self) -> bool {
        self.password.is_hash()
    }

    closed spec fn record(self) -> IdentityRecord {
        IdentityRecord { password_hash: self.password@, requires_2fa: self.requires_2fa }
    }
}

/// The registered identities, kept in memory.
pub struct HashmapUserStore {
    users: AssocList<StoredIdentity>,
}

impl HashmapUserStore {
    pub fn new() -> (r: HashmapUserStore)
        ensures
            r.users() == Map::<Seq<char>, IdentityRecord>::empty(),
    {
        let r = HashmapUserStore { users: AssocList::new() };
        assert(r.users() =~= Map::<Seq<char>, IdentityRecord>::empty());
        r
    }

    /// Registers an identity whose hash is at hand: it succeeds exactly when
    /// the address is not yet taken.
    pub fn add_hashed(&mut self, email: &Email, password_hash: String, requires_2fa: bool) -> (r:
        Result<(), UserStoreError>)
        ensures
            match r {
                Ok(()) => !old(self).users().contains_key(email@) && final(self).users() == old(
                    self,
                ).users().insert(
                    email@,
                    IdentityRecord { password_hash: password_hash@, requires_2fa },
                ),
                Err(UserStoreError::UserAlreadyExists) => old(self).users().contains_key(email@)
                    && final(self).users() == old(self).users(),
                Err(_) => false,
            },
    {
        let key = email.as_ref().expose_secret();
        if self.users.contains_key(key) {
            return Err(UserStoreError::UserAlreadyExists);
        }
        let stored = StoredIdentity {
            password: Password::from_hash(SecretString::new(password_hash)),
            requires_2fa,
        };
        let ghost before = self.users();
        let mut users = AssocList::new();
        core::mem::swap(&mut self.users, &mut users);
        self.users = users.insert(key.clone(), stored);
        assert(self.users() =~= before.insert(
            email@,
            IdentityRecord { password_hash: password_hash@, requires_2fa },
        ));
        Ok(())
    }
}

impl Default for HashmapUserStore {
    fn default() -> (r: HashmapUserStore)
        ensures
            r.users() == Map::<Seq<char>, IdentityRecord>::empty(),
    {
        HashmapUserStore::new()
    }
}

impl UserStore for HashmapUserStore {
    closed spec fn users(&self) -> Map<Seq<char>, IdentityRecord> {
        Map::new(
            |email: Seq<char>| self.users.map().contains_key(email),
            |email: Seq<char>| self.users.map()[email].record(),
        )
    }

    open spec fn reliable(&self) -> bool {
        true
    }

    fn add_user(&mut self, user: User) -> (r: Result<(), UserStoreError>) {
        let taken = self.users.contains_key(user.email.as_ref().expose_secret());
        match hash_for_storage(&user, taken) {
            Ok(password_hash) => self.add_hashed(&user.email, password_hash, user.requires_2fa),
            Err(e) => Err(e),
        }
    }

    fn get_user(&self, email: &Email) -> (r: Result<User, UserStoreError>) {
        match self.users.get(email.as_ref().expose_secret()) {
            Some(stored) => {
                proof {
                    use_type_invariant(stored);
                }
                Ok(
                    User {
                        email: email.clone(),
                        password: stored.password.clone(),
                        requires_2fa: stored.requires_2fa,
                    },
                )
            },
            None => Err(UserStoreError::UserNotFound),
        }
    }

    fn validate_user(&self, email: &Email, password: &Password) -> (r: Result<
        (),
        UserStoreError,
    >) {
        match self.users.get(email.as_ref().expose_secret()) {
            Some(stored) => check_credential(
                Some(stored.password.as_ref().expose_secret()),
                password,
            ),
            None => check_credential(None, password),
        }
    }
}

} // verus!
