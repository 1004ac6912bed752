use vstd::prelude::*;
use vstd::hash_map::StringHashMap;
use crate::domain::data_stores::challenges_after_add;
use crate::domain::data_stores::found_view;
use crate::domain::data_stores::get_code_result;
use crate::domain::data_stores::ChallengeView;
use crate::domain::data_stores::TwoFACodeStore;
use crate::domain::data_stores::TwoFACodeStoreError;
use crate::domain::data_stores::TWO_FA_CODE_TTL_SECONDS;
use crate::domain::email::Email;
use crate::domain::two_fa::LoginAttemptId;
use crate::domain::two_fa::TwoFACode;

verus! {

/// One pending challenge as the store keeps it.
pub struct Challenge {
    pub attempt_id: LoginAttemptId,
    pub code: TwoFACode,
    pub created_at: u64,
}

impl View for Challenge {
    type V = ChallengeView;

    open spec fn view(&self) -> ChallengeView {
        ChallengeView {
            attempt_id: self.attempt_id@,
            code: self.code@,
            created_at: self.created_at,
        }
    }
}

/// A challenge store that lives in memory. It never fails on its own
/// account, so each answer is decided by the challenges it holds and by the
/// time.
pub struct HashmapTwoFACodeStore {
    codes: StringHashMap<Challenge>,
}

impl HashmapTwoFACodeStore {
    pub fn new() -> (store: HashmapTwoFACodeStore)
        ensures
            store.challenges() == Map::<Seq<char>, ChallengeView>::empty(),
    {
        HashmapTwoFACodeStore { codes: StringHashMap::new() }
    }
}

impl Default for HashmapTwoFACodeStore {
    fn default() -> (store: Self)
        ensures
            store.challenges() == Map::<Seq<char>, ChallengeView>::empty(),
    {
        HashmapTwoFACodeStore::new()
    }
}

impl TwoFACodeStore for HashmapTwoFACodeStore {
    closed spec fn challenges(&self) -> Map<Seq<char>, ChallengeView> {
        self.codes@.map_values(|challenge: Challenge| challenge@)
    }

    open spec fn never_fails(&self) -> bool {
        true
    }

    fn add_code(
        &mut self,
        email: Email,
        login_attempt_id: LoginAttemptId,
        code: TwoFACode,
        now: u64,
    ) -> (r: Result<(), TwoFACodeStoreError>)
        ensures
            r is Ok,
            final(self).challenges() == challenges_after_add(
                old(self).challenges(),
                email@,
                login_attempt_id@,
                code@,
                now,
            ),
    {
        let challenge = Challenge { attempt_id: login_attempt_id, code, created_at: now };
        self.codes.insert(email.as_str().to_owned(), challenge);
        Ok(())
    }

    fn remove_code(&mut self, email: &Email) -> (r: Result<(), TwoFACodeStoreError>)
        ensures
            r is Ok,
            final(self).challenges() == old(self).challenges().remove(email@),
    {
        self.codes.remove(email.as_str());
        Ok(())
    }

    fn get_code(&self, email: &Email, now: u64) -> (r: Result<
        (LoginAttemptId, TwoFACode),
        TwoFACodeStoreError,
    >)
        ensures
            found_view(r) == get_code_result(self.challenges(), email@, now),
    {
        match self.codes.get(email.as_str()) {
            Some(challenge) => {
                if now < challenge.created_at || now - challenge.created_at
                    < TWO_FA_CODE_TTL_SECONDS {
                    Ok((challenge.attempt_id.clone(), challenge.code.clone()))
                } else {
                    Err(TwoFACodeStoreError::LoginAttemptIdNotFound)
                }
            },
            None => Err(TwoFACodeStoreError::LoginAttemptIdNotFound),
        }
    }
}

} // verus!
