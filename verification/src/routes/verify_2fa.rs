use vstd::prelude::*;
use crate::domain::data_stores::found_view;
use crate::domain::data_stores::get_code_result;
use crate::domain::data_stores::is_live;
use crate::domain::data_stores::Challenges;
use crate::domain::data_stores::SentEmails;
use crate::domain::data_stores::TwoFACodeStore;
use crate::domain::data_stores::TwoFACodeStoreError;
use crate::domain::email::is_valid_email;
use crate::domain::email::Email;
use crate::domain::error::AuthAPIError;
use crate::domain::two_fa::is_two_fa_code;
use crate::domain::two_fa::is_uuid_text;
use crate::domain::two_fa::LoginAttemptId;
use crate::domain::two_fa::TwoFACode;
use crate::routes::login::is_challenge_issued;
use crate::routes::login::is_challenge_opened;
use crate::routes::login::LoginReply;

verus! {

#[derive(Debug)]
pub struct Verify2FARequest {
    pub email: String,
    pub login_attempt_id: String,
    pub two_fa_code: String,
}

/// Whether the three fields of a request have the shape they must have.
pub open spec fn is_well_shaped(request: Verify2FARequest) -> bool {
    &&& is_valid_email(request.email@)
    &&& is_uuid_text(request.login_attempt_id@)
    &&& is_two_fa_code(request.two_fa_code@)
}

/// What the answer to a challenge is worth, given what the store holds for
/// the address: it stands only where a challenge is pending and both the
/// identifier and the code are the stored ones. Which of the two was wrong
/// is not told, nor whether a challenge was pending at all. A store that
/// failed is a failure of the service, not a wrong answer.
pub open spec fn challenge_result(
    stored: Result<(Seq<char>, Seq<char>), TwoFACodeStoreError>,
    attempt_id: Seq<char>,
    code: Seq<char>,
) -> Result<(), AuthAPIError> {
    match stored {
        Ok(pair) => if pair.0 == attempt_id && pair.1 == code {
            Ok(())
        } else {
            Err(AuthAPIError::IncorrectCredentials)
        },
        Err(TwoFACodeStoreError::LoginAttemptIdNotFound) => Err(
            AuthAPIError::IncorrectCredentials,
        ),
        Err(TwoFACodeStoreError::UnexpectedError) => Err(AuthAPIError::UnexpectedError),
    }
}

/// What `verify_2fa` answers at `now` over a store that holds `challenges`
/// and does not fail.
pub open spec fn verify_2fa_result(
    challenges: Challenges,
    request: Verify2FARequest,
    now: u64,
) -> Result<u16, AuthAPIError> {
    if !is_well_shaped(request) {
        Err(AuthAPIError::InvalidCredentials)
    } else {
        match challenge_result(
            get_code_result(challenges, request.email@, now),
            request.login_attempt_id@,
            request.two_fa_code@,
        ) {
            Ok(()) => Ok(200),
            Err(e) => Err(e),
        }
    }
}

/// Holds the presented identifier and code against what the store answered.
pub fn check_challenge(
    stored: Result<(LoginAttemptId, TwoFACode), TwoFACodeStoreError>,
    login_attempt_id: &LoginAttemptId,
    two_fa_code: &TwoFACode,
) -> (r: Result<(), AuthAPIError>)
    ensures
        r == challenge_result(found_view(stored), login_attempt_id@, two_fa_code@),
{
    let code_tuple = match stored {
        Ok(code_tuple) => code_tuple,
        Err(TwoFACodeStoreError::LoginAttemptIdNotFound) => {
            return Err(AuthAPIError::IncorrectCredentials);
        },
        Err(TwoFACodeStoreError::UnexpectedError) => {
            return Err(AuthAPIError::UnexpectedError);
        },
    };
    if !code_tuple.0.eq(login_attempt_id) || !code_tuple.1.eq(two_fa_code) {
        return Err(AuthAPIError::IncorrectCredentials);
    }
    Ok(())
}

/// Answers the second step of a login. The three fields are checked for
/// shape first; then the presented identifier and code must both be the ones
/// pending for the address at `now`. The answer is decided by the request
/// and by what the store holds; only a store that can fail on its own
/// account may have a well-shaped request answered as an unexpected error
/// instead.
pub fn verify_2fa<C: TwoFACodeStore>(codes: &C, now: u64, request: Verify2FARequest) -> (r: Result<
    u16,
    AuthAPIError,
>)
    ensures
        r == verify_2fa_result(codes.challenges(), request, now) || (is_well_shaped(request)
            && !codes.never_fails() && r == Err::<u16, AuthAPIError>(
            AuthAPIError::UnexpectedError,
        )),
{
    let email = match Email::parse(request.email) {
        Ok(email) => email,
        Err(_) => {
            return Err(AuthAPIError::InvalidCredentials);
        },
    };
    let login_attempt_id = match LoginAttemptId::parse(request.login_attempt_id) {
        Ok(login_attempt_id) => login_attempt_id,
        Err(_) => {
            return Err(AuthAPIError::InvalidCredentials);
        },
    };
    let two_fa_code = match TwoFACode::parse(request.two_fa_code) {
        Ok(two_fa_code) => two_fa_code,
        Err(_) => {
            return Err(AuthAPIError::InvalidCredentials);
        },
    };
    let stored = codes.get_code(&email, now);
    match check_challenge(stored, &login_attempt_id, &two_fa_code) {
        Ok(()) => Ok(200),
        Err(e) => Err(e),
    }
}

/// After a login was answered with a challenge, the store holds, for as long
/// as the challenge is live, the identifier that the answer names together
/// with the code that was sent; and a request that presents that address,
/// identifier and code is owed status 200.
pub proof fn lemma_opened_challenge_is_answered(
    reply: LoginReply,
    before: Challenges,
    after: Challenges,
    sent_before: SentEmails,
    sent_after: SentEmails,
    email: Seq<char>,
    now: u64,
    later: u64,
    request: Verify2FARequest,
)
    requires
        is_challenge_opened(reply, before, after, sent_before, sent_after, email, now),
        is_live(now, later),
        request.email@ == email,
        get_code_result(after, email, later) == Ok::<(Seq<char>, Seq<char>), TwoFACodeStoreError>(
            (request.login_attempt_id@, request.two_fa_code@),
        ),
    ensures
        is_challenge_issued(reply, request.login_attempt_id@),
        sent_after.last().content == request.two_fa_code@,
        is_valid_email(email) ==> verify_2fa_result(after, request, later) == Ok::<
            u16,
            AuthAPIError,
        >(200),
{
}

} // verus!
