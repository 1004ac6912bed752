use vstd::prelude::*;
use vstd::hash_map::StringHashMap;
use crate::domain::data_stores::add_user_result;
use crate::domain::data_stores::fetched_view;
use crate::domain::data_stores::get_user_result;
use crate::domain::data_stores::users_after_add;
use crate::domain::data_stores::validate_user_result;
use crate::domain::data_stores::UserStore;
use crate::domain::data_stores::UserStoreError;
use crate::domain::email::Email;
use crate::domain::password::Password;
use crate::domain::user::User;
use crate::domain::user::UserView;

verus! {

/// A user store that lives in memory. It never fails on its own account, so
/// each answer is decided by the users it holds.
pub struct HashmapUserStore {
    users: StringHashMap<User>,
}

/// The users that a map from addresses to records stands for. The address a
/// record is filed under is the user's address.
spec fn users_of(records: Map<Seq<char>, User>) -> Map<Seq<char>, UserView> {
    Map::new(
        |email: Seq<char>| records.contains_key(email),
        |email: Seq<char>|
            UserView {
                email,
                password: records[email].password@,
                requires_2fa: records[email].requires_2fa,
            },
    )
}

impl HashmapUserStore {
    pub fn new() -> (store: HashmapUserStore)
        ensures
            store.users() == Map::<Seq<char>, UserView>::empty(),
    {
        HashmapUserStore { users: StringHashMap::new() }
    }
}

impl Default for HashmapUserStore {
    fn default() -> (store: Self)
        ensures
            store.users() == Map::<Seq<char>, UserView>::empty(),
    {
        HashmapUserStore::new()
    }
}

impl UserStore for HashmapUserStore {
    closed spec fn users(&self) -> Map<Seq<char>, UserView> {
        users_of(self.users@)
    }

    open spec fn never_fails(&self) -> bool {
        true
    }

    fn add_user(&mut self, user: User) -> (r: Result<(), UserStoreError>)
        ensures
            r == add_user_result(old(self).users(), user@),
            final(self).users() == users_after_add(old(self).users(), user@),
    {
        if self.users.contains_key(user.email.as_str()) {
            return Err(UserStoreError::UserAlreadyExists);
        }
        let key = user.email.as_str().to_owned();
        self.users.insert(key, user);
        Ok(())
    }

    fn get_user(&self, email: &Email) -> (r: Result<User, UserStoreError>)
        ensures
            fetched_view(r) == get_user_result(self.users(), email@),
    {
        match self.users.get(email.as_str()) {
            Some(user) => Ok(User::new(email.clone(), user.password.clone(), user.requires_2fa)),
            None => Err(UserStoreError::UserNotFound),
        }
    }

    fn validate_user(&self, email: &Email, password: &Password) -> (r: Result<
        (),
        UserStoreError,
    >)
        ensures
            r == validate_user_result(self.users(), email@, password@),
    {
        match self.users.get(email.as_str()) {
            Some(user) => {
                if user.password.eq(password) {
                    Ok(())
                } else {
                    Err(UserStoreError::InvalidCredentials)
                }
            },
            None => Err(UserStoreError::UserNotFound),
        }
    }
}

} // verus!
