use vstd::prelude::*;
use vstd::hash_set::StringHashSet;
use crate::domain::data_stores::BannedTokenStore;
use crate::domain::data_stores::BannedTokenStoreError;

verus! {

/// A revocation store that lives in memory. It never fails.
pub struct HashsetBannedTokenStore {
    tokens: StringHashSet,
}

impl HashsetBannedTokenStore {
    pub fn new() -> (store: HashsetBannedTokenStore)
        ensures
            store.tokens() == Set::<Seq<char>>::empty(),
    {
        HashsetBannedTokenStore { tokens: StringHashSet::new() }
    }
}

impl Default for HashsetBannedTokenStore {
    fn default() -> (store: Self)
        ensures
            store.tokens() == Set::<Seq<char>>::empty(),
    {
        HashsetBannedTokenStore::new()
    }
}

impl BannedTokenStore for HashsetBannedTokenStore {
    closed spec fn tokens(&self) -> Set<Seq<char>> {
        self.tokens@
    }

    open spec fn never_fails(&self) -> bool {
        true
    }

    fn add_token(&mut self, token: String) -> (r: Result<(), BannedTokenStoreError>)
        ensures
            r is Ok,
            final(self).tokens() == old(self).tokens().insert(token@),
    {
        self.tokens.insert(token);
        Ok(())
    }

    fn contains_token(&self, token: &str) -> (banned: bool) {
        self.tokens.contains(token)
    }
}

} // verus!
