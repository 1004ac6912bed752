use vstd::prelude::*;
use crate::domain::email::Email;
use crate::domain::password::Password;
use crate::domain::two_fa::LoginAttemptId;
use crate::domain::two_fa::TwoFACode;
use crate::domain::user::User;
use crate::domain::user::UserView;

verus! {

#[derive(Debug, Clone, Copy, PartialEq, Eq, Structural)]
pub enum UserStoreError {
    UserAlreadyExists,
    UserNotFound,
    InvalidCredentials,
    UnexpectedError,
}

#[derive(Debug, Clone, Copy, PartialEq, Eq, Structural)]
pub enum BannedTokenStoreError {
    UnexpectedError,
}

#[derive(Debug, Clone, Copy, PartialEq, Eq, Structural)]
pub enum TwoFACodeStoreError {
    LoginAttemptIdNotFound,
    UnexpectedError,
}

/// What a user store holds, as contracts speak of it: the users by address.
pub type Users = Map<Seq<char>, UserView>;

/// What a revocation store holds, as contracts speak of it.
pub type BannedTokens = Set<Seq<char>>;

/// What a challenge store holds, as contracts speak of it: the challenges by
/// address.
pub type Challenges = Map<Seq<char>, ChallengeView>;

/// What a mail client has sent so far, as contracts speak of it, oldest
/// first.
pub type SentEmails = Seq<EmailView>;

/// What `add_user` answers on a store that holds `users` and never fails on
/// its own account.
pub open spec fn add_user_result(users: Map<Seq<char>, UserView>, user: UserView) -> Result<
    (),
    UserStoreError,
> {
    if users.contains_key(user.email) {
        Err(UserStoreError::UserAlreadyExists)
    } else {
        Ok(())
    }
}

/// The users held after `add_user`: one more where the address was free, the
/// same as before where it was taken.
pub open spec fn users_after_add(users: Map<Seq<char>, UserView>, user: UserView) -> Map<
    Seq<char>,
    UserView,
> {
    if users.contains_key(user.email) {
        users
    } else {
        users.insert(user.email, user)
    }
}

/// What `get_user` answers on a store that holds `users`.
pub open spec fn get_user_result(users: Map<Seq<char>, UserView>, email: Seq<char>) -> Result<
    UserView,
    UserStoreError,
> {
    if users.contains_key(email) {
        Ok(users[email])
    } else {
        Err(UserStoreError::UserNotFound)
    }
}

/// What `validate_user` answers on a store that holds `users`: an unknown
/// address is told apart from a wrong password.
pub open spec fn validate_user_result(
    users: Map<Seq<char>, UserView>,
    email: Seq<char>,
    password: Seq<char>,
) -> Result<(), UserStoreError> {
    if !users.contains_key(email) {
        Err(UserStoreError::UserNotFound)
    } else if users[email].password == password {
        Ok(())
    } else {
        Err(UserStoreError::InvalidCredentials)
    }
}

/// Whether a user store may answer `got` where what it holds calls for
/// `owed`: a store answers what is owed, and only one that can fail on its
/// own account may answer `UnexpectedError` in its place.
pub open spec fn is_user_store_answer<T>(
    never_fails: bool,
    got: Result<T, UserStoreError>,
    owed: Result<T, UserStoreError>,
) -> bool {
    got == owed || (!never_fails && got == Err::<T, UserStoreError>(
        UserStoreError::UnexpectedError,
    ))
}

/// A user that a store handed out, as it stands in contracts.
pub open spec fn fetched_view(fetched: Result<User, UserStoreError>) -> Result<
    UserView,
    UserStoreError,
> {
    match fetched {
        Ok(user) => Ok(user@),
        Err(e) => Err(e),
    }
}

/// Holds the registered users, one for each address. A store may fail on its
/// own account, which it reports as `UnexpectedError`; apart from that it
/// answers by what it holds.
///
/// `users` and `never_fails` describe the store for contracts and are never
/// run. Every store has to give them. Of a store whose data lives outside the
/// program no proof can see what it holds: the contracts below are then what
/// its author promises, and what is proved of a caller holds as far as that
/// promise does.
pub trait UserStore {
    /// The users held, by address.
    spec fn users(&self) -> Users;

    /// Whether the store is one that never fails on its own account.
    spec fn never_fails(&self) -> bool;

    /// Registers `user` unless its address is taken. Nothing changes on
    /// failure.
    fn add_user(&mut self, user: User) -> (r: Result<(), UserStoreError>)
        ensures
            is_user_store_answer(
                old(self).never_fails(),
                r,
                add_user_result(old(self).users(), user@),
            ),
            final(self).users() == if r is Ok {
                old(self).users().insert(user.email@, user@)
            } else {
                old(self).users()
            },
            final(self).never_fails() == old(self).never_fails(),
    ;

    /// The user registered under `email`.
    fn get_user(&self, email: &Email) -> (r: Result<User, UserStoreError>)
        ensures
            is_user_store_answer(
                self.never_fails(),
                fetched_view(r),
                get_user_result(self.users(), email@),
            ),
            r matches Ok(user) ==> user.email@ == email@,
    ;

    /// Checks `password` against the one registered under `email`.
    fn validate_user(&self, email: &Email, password: &Password) -> (r: Result<
        (),
        UserStoreError,
    >)
        ensures
            is_user_store_answer(
                self.never_fails(),
                r,
                validate_user_result(self.users(), email@, password@),
            ),
    ;
}

/// Holds the session tokens that were invalidated before they ran out.
///
/// `tokens` and `never_fails` describe the store for contracts and are never
/// run; for a store whose data lives outside the program the contracts are
/// what its author promises.
pub trait BannedTokenStore {
    /// The banned tokens.
    spec fn tokens(&self) -> BannedTokens;

    /// Whether the store is one that never fails on its own account.
    spec fn never_fails(&self) -> bool;

    /// Bans `token`. Banning a token that is banned already is no error.
    /// Nothing changes on failure.
    fn add_token(&mut self, token: String) -> (r: Result<(), BannedTokenStoreError>)
        ensures
            old(self).never_fails() ==> r is Ok,
            final(self).tokens() == if r is Ok {
                old(self).tokens().insert(token@)
            } else {
                old(self).tokens()
            },
            final(self).never_fails() == old(self).never_fails(),
    ;

    fn contains_token(&self, token: &str) -> (banned: bool)
        ensures
            banned == self.tokens().contains(token@),
    ;
}

/// How long a challenge can be answered, in seconds.
pub const TWO_FA_CODE_TTL_SECONDS: u64 = 600;

/// A pending two-factor challenge as it stands in contracts.
pub struct ChallengeView {
    pub attempt_id: Seq<char>,
    pub code: Seq<char>,
    pub created_at: u64,
}

/// Whether a challenge made at `created_at` can still be answered at `now`:
/// fewer than 600 seconds have passed.
pub open spec fn is_live(created_at: u64, now: u64) -> bool {
    now - created_at < 600
}

/// Whether `email` has a challenge that can be answered at `now`.
pub open spec fn has_live_challenge(
    challenges: Map<Seq<char>, ChallengeView>,
    email: Seq<char>,
    now: u64,
) -> bool {
    challenges.contains_key(email) && is_live(challenges[email].created_at, now)
}

/// What `get_code` answers at `now` on a store that holds `challenges`: the
/// identifier and the code of the live challenge, taken as texts.
pub open spec fn get_code_result(
    challenges: Map<Seq<char>, ChallengeView>,
    email: Seq<char>,
    now: u64,
) -> Result<(Seq<char>, Seq<char>), TwoFACodeStoreError> {
    if has_live_challenge(challenges, email, now) {
        Ok((challenges[email].attempt_id, challenges[email].code))
    } else {
        Err(TwoFACodeStoreError::LoginAttemptIdNotFound)
    }
}

/// The challenges held after `add_code` at `now`: the new one stands in the
/// place of any earlier one for the same address.
pub open spec fn challenges_after_add(
    challenges: Map<Seq<char>, ChallengeView>,
    email: Seq<char>,
    attempt_id: Seq<char>,
    code: Seq<char>,
    now: u64,
) -> Map<Seq<char>, ChallengeView> {
    challenges.insert(email, ChallengeView { attempt_id, code, created_at: now })
}

/// A challenge that a store handed out, as it stands in contracts.
pub open spec fn found_view(
    found: Result<(LoginAttemptId, TwoFACode), TwoFACodeStoreError>,
) -> Result<(Seq<char>, Seq<char>), TwoFACodeStoreError> {
    match found {
        Ok(pair) => Ok((pair.0@, pair.1@)),
        Err(e) => Err(e),
    }
}

/// Whether a challenge store may answer `got` where what it holds calls for
/// `owed`: a store answers what is owed, and only one that can fail on its
/// own account may answer `UnexpectedError` in its place.
pub open spec fn is_code_store_answer<T>(
    never_fails: bool,
    got: Result<T, TwoFACodeStoreError>,
    owed: Result<T, TwoFACodeStoreError>,
) -> bool {
    got == owed || (!never_fails && got == Err::<T, TwoFACodeStoreError>(
        TwoFACodeStoreError::UnexpectedError,
    ))
}

/// Holds at most one pending challenge for each address. The store, not the
/// caller, lets a challenge run out: the caller only says what time it is, in
/// seconds. A store may fail on its own account, which it reports as
/// `UnexpectedError`; apart from that it answers by what it holds and by the
/// time.
///
/// `challenges` and `never_fails` describe the store for contracts and are
/// never run; for a store whose data lives outside the program the contracts
/// are what its author promises.
pub trait TwoFACodeStore {
    /// The challenges held, by address.
    spec fn challenges(&self) -> Challenges;

    /// Whether the store is one that never fails on its own account.
    spec fn never_fails(&self) -> bool;

    /// Files a challenge for `email`, made at `now`, in the place of any
    /// earlier one.
    fn add_code(
        &mut self,
        email: Email,
        login_attempt_id: LoginAttemptId,
        code: TwoFACode,
        now: u64,
    ) -> (r: Result<(), TwoFACodeStoreError>)
        ensures
            is_code_store_answer(old(self).never_fails(), r, Ok(())),
            r is Ok ==> final(self).challenges() == challenges_after_add(
                old(self).challenges(),
                email@,
                login_attempt_id@,
                code@,
                now,
            ),
            final(self).never_fails() == old(self).never_fails(),
    ;

    /// Drops the challenge of `email`, if there is one.
    fn remove_code(&mut self, email: &Email) -> (r: Result<(), TwoFACodeStoreError>)
        ensures
            is_code_store_answer(old(self).never_fails(), r, Ok(())),
            r is Ok ==> final(self).challenges() == old(self).challenges().remove(email@),
            final(self).never_fails() == old(self).never_fails(),
    ;

    /// The challenge of `email` that can be answered at `now`.
    fn get_code(&self, email: &Email, now: u64) -> (r: Result<
        (LoginAttemptId, TwoFACode),
        TwoFACodeStoreError,
    >)
        ensures
            is_code_store_answer(
                self.never_fails(),
                found_view(r),
                get_code_result(self.challenges(), email@, now),
            ),
    ;
}

/// A user that was added is the user that `get_user` returns for its
/// address, and whoever asks for the same address afterwards is turned down,
/// whatever password and flag come with the request.
pub proof fn lemma_added_user_is_kept(
    users: Map<Seq<char>, UserView>,
    user: UserView,
    second: UserView,
)
    requires
        second.email == user.email,
    ensures
        add_user_result(users, user) is Ok ==> get_user_result(
            users_after_add(users, user),
            user.email,
        ) == Ok::<UserView, UserStoreError>(user),
        add_user_result(users_after_add(users, user), second) == Err::<(), UserStoreError>(
            UserStoreError::UserAlreadyExists,
        ),
        users_after_add(users_after_add(users, user), second) == users_after_add(users, user),
{
}

/// For a user that was added, the password it was added with is accepted and
/// every other password is turned down as `InvalidCredentials`; an address
/// that nobody was added under is turned down as `UserNotFound`.
pub proof fn lemma_validate_user(
    users: Map<Seq<char>, UserView>,
    user: UserView,
    password: Seq<char>,
    email: Seq<char>,
)
    requires
        add_user_result(users, user) is Ok,
    ensures
        validate_user_result(users_after_add(users, user), user.email, user.password) == Ok::<
            (),
            UserStoreError,
        >(()),
        password != user.password ==> validate_user_result(
            users_after_add(users, user),
            user.email,
            password,
        ) == Err::<(), UserStoreError>(UserStoreError::InvalidCredentials),
        !users_after_add(users, user).contains_key(email) ==> validate_user_result(
            users_after_add(users, user),
            email,
            password,
        ) == Err::<(), UserStoreError>(UserStoreError::UserNotFound),
{
}

/// Of two challenges filed for one address, only the second can be fetched:
/// as long as it is live, `get_code` answers with its identifier and code.
pub proof fn lemma_second_challenge_wins(
    challenges: Map<Seq<char>, ChallengeView>,
    email: Seq<char>,
    first: ChallengeView,
    second: ChallengeView,
    now: u64,
)
    requires
        is_live(second.created_at, now),
    ensures
        get_code_result(
            challenges_after_add(
                challenges_after_add(
                    challenges,
                    email,
                    first.attempt_id,
                    first.code,
                    first.created_at,
                ),
                email,
                second.attempt_id,
                second.code,
                second.created_at,
            ),
            email,
            now,
        ) == Ok::<(Seq<char>, Seq<char>), TwoFACodeStoreError>((second.attempt_id, second.code)),
        challenges_after_add(
            challenges_after_add(
                challenges,
                email,
                first.attempt_id,
                first.code,
                first.created_at,
            ),
            email,
            second.attempt_id,
            second.code,
            second.created_at,
        ) == challenges_after_add(
            challenges,
            email,
            second.attempt_id,
            second.code,
            second.created_at,
        ),
{
}

/// A challenge can be fetched up to the last second before its 600 seconds
/// are over, and from then on `get_code` answers `LoginAttemptIdNotFound`.
pub proof fn lemma_challenge_runs_out(
    challenges: Map<Seq<char>, ChallengeView>,
    email: Seq<char>,
    challenge: ChallengeView,
    now: u64,
)
    ensures
        now - challenge.created_at >= 600 ==> get_code_result(
            challenges_after_add(
                challenges,
                email,
                challenge.attempt_id,
                challenge.code,
                challenge.created_at,
            ),
            email,
            now,
        ) == Err::<(Seq<char>, Seq<char>), TwoFACodeStoreError>(
            TwoFACodeStoreError::LoginAttemptIdNotFound,
        ),
        now - challenge.created_at < 600 ==> get_code_result(
            challenges_after_add(
                challenges,
                email,
                challenge.attempt_id,
                challenge.code,
                challenge.created_at,
            ),
            email,
            now,
        ) == Ok::<(Seq<char>, Seq<char>), TwoFACodeStoreError>(
            (challenge.attempt_id, challenge.code),
        ),
{
}

/// A message as it stands in contracts.
pub struct EmailView {
    pub recipient: Seq<char>,
    pub subject: Seq<char>,
    pub content: Seq<char>,
}

/// What a client has sent after one more call of `send_email`: the message
/// is added where the call succeeded, and nothing changes where it failed.
pub open spec fn sent_after(
    sent: Seq<EmailView>,
    delivered: bool,
    recipient: Seq<char>,
    subject: Seq<char>,
    content: Seq<char>,
) -> Seq<EmailView> {
    if delivered {
        sent.push(EmailView { recipient, subject, content })
    } else {
        sent
    }
}

/// Sends a message to a user out of band, and stands for what it has sent.
///
/// `sent` and `always_delivers` describe the client for contracts and are
/// never run; for a client that hands its messages to a transport outside the
/// program the contracts are what its author promises.
pub trait EmailClient {
    /// The messages sent so far, oldest first.
    spec fn sent(&self) -> SentEmails;

    /// Whether the client is one whose sending never fails.
    spec fn always_delivers(&self) -> bool;

    fn send_email(&mut self, recipient: &Email, subject: &str, content: &str) -> (r: Result<
        (),
        String,
    >)
        ensures
            old(self).always_delivers() ==> r is Ok,
            final(self).sent() == sent_after(
                old(self).sent(),
                r is Ok,
                recipient@,
                subject@,
                content@,
            ),
            final(self).always_delivers() == old(self).always_delivers(),
    ;
}

} // verus!
