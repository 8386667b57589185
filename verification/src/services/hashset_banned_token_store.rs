use crate::domain::data_stores::BannedTokenStore;
use crate::domain::data_stores::BannedTokenStoreError;
use crate::domain::secret::SecretString;
use crate::utils::assoc_list::AssocList;
use vstd::prelude::*;

verus! {

/// The revoked tokens, kept in memory. It has no clock: an entry stays for as
/// long as the store lives, and the seconds it was revoked for are only
/// recorded.
pub struct HashSetBannedTokenStore {
    banned_tokens: AssocList<u64>,
}

impl HashSetBannedTokenStore {
    pub fn new() -> (r: HashSetBannedTokenStore)
        ensures
            r.banned() == Map::<Seq<char>, u64>::empty(),
    {
        HashSetBannedTokenStore { banned_tokens: AssocList::new() }
    }
}

impl Default for HashSetBannedTokenStore {
    fn default() -> (r: HashSetBannedTokenStore)
        ensures
            r.banned() == Map::<Seq<char>, u64>::empty(),
    {
        HashSetBannedTokenStore::new()
    }
}

impl BannedTokenStore for HashSetBannedTokenStore {
    closed spec fn banned(&self) -> Map<Seq<char>, u64> {
        self.banned_tokens.map()
    }

    open spec fn reliable(&self) -> bool {
        true
    }

    fn add_banned_token(&mut self, token: SecretString, ttl_seconds: u64) -> (r: Result<
        (),
        BannedTokenStoreError,
    >)
    {
        let mut tokens = AssocList::new();
        core::mem::swap(&mut self.banned_tokens, &mut tokens);
        self.banned_tokens = tokens.insert(token.expose_secret().clone(), ttl_seconds);
        Ok(())
    }

    fn is_token_banned(&self, token: &SecretString) -> (r: Result<bool, BannedTokenStoreError>)
    {
        Ok(self.banned_tokens.contains_key(token.expose_secret()))
    }
}

} // verus!
