use crate::domain::data_stores::LoginAttemptId;
use crate::domain::data_stores::PendingChallenge;
use crate::domain::data_stores::TwoFACode;
use crate::domain::data_stores::TwoFACodeStore;
use crate::domain::data_stores::TwoFACodeStoreError;
use crate::domain::email::Email;
use crate::utils::assoc_list::AssocList;
use vstd::prelude::*;

verus! {

/// What the store keeps under one address.
pub struct StoredChallenge {
    login_attempt_id: LoginAttemptId,
    code: TwoFACode,
    ttl_seconds: u64,
}

impl StoredChallenge {
    closed spec fn pending(self) -> PendingChallenge {
        PendingChallenge {
            login_attempt_id: self.login_attempt_id@,
            code: self.code@,
            ttl_seconds: self.ttl_seconds,
        }
    }
}

/// The pending challenges, kept in memory. It has no clock: a challenge stays
/// until it is replaced or removed, and the seconds it was put for are only
/// recorded.
pub struct HashmapTwoFACodeStore {
    codes: AssocList<StoredChallenge>,
}

impl HashmapTwoFACodeStore {
    pub fn new() -> (r: HashmapTwoFACodeStore)
        ensures
            r.challenges() == Map::<Seq<char>, PendingChallenge>::empty(),
    {
        let r = HashmapTwoFACodeStore { codes: AssocList::new() };
        assert(r.challenges() =~= Map::<Seq<char>, PendingChallenge>::empty());
        r
    }
}

impl Default for HashmapTwoFACodeStore {
    fn default() -> (r: HashmapTwoFACodeStore)
        ensures
            r.challenges() == Map::<Seq<char>, PendingChallenge>::empty(),
    {
        HashmapTwoFACodeStore::new()
    }
}

impl TwoFACodeStore for HashmapTwoFACodeStore {
    closed spec fn challenges(&self) -> Map<Seq<char>, PendingChallenge> {
        Map::new(
            |email: Seq<char>| self.codes.map().contains_key(email),
            |email: Seq<char>| self.codes.map()[email].pending(),
        )
    }

    open spec fn reliable(&self) -> bool {
        true
    }

    fn add_code(
        &mut self,
        email: Email,
        login_attempt_id: LoginAttemptId,
        code: TwoFACode,
        ttl_seconds: u64,
    ) -> (r: Result<(), TwoFACodeStoreError>)
    {
        let ghost before = self.challenges();
        let ghost pending = PendingChallenge {
            login_attempt_id: login_attempt_id@,
            code: code@,
            ttl_seconds,
        };
        let stored = StoredChallenge { login_attempt_id, code, ttl_seconds };
        let mut codes = AssocList::new();
        core::mem::swap(&mut self.codes, &mut codes);
        self.codes = codes.insert(email.as_ref().expose_secret().clone(), stored);
        assert(self.challenges() =~= before.insert(email@, pending));
        Ok(())
    }

    fn remove_code(&mut self, email: &Email) -> (r: Result<(), TwoFACodeStoreError>)
    {
        let ghost before = self.challenges();
        let mut codes = AssocList::new();
        core::mem::swap(&mut self.codes, &mut codes);
        self.codes = codes.remove(email.as_ref().expose_secret());
        assert(self.challenges() =~= before.remove(email@));
        Ok(())
    }

    fn get_code(&self, email: &Email) -> (r: Result<(LoginAttemptId, TwoFACode), TwoFACodeStoreError>)
    {
        match self.codes.get(email.as_ref().expose_secret()) {
            Some(stored) => Ok((stored.login_attempt_id.clone(), stored.code.clone())),
            None => Err(TwoFACodeStoreError::LoginAttemptIdNotFound),
        }
    }
}

} // verus!
