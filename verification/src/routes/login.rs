use vstd::prelude::*;
use vstd::string::StringExecFns;
use crate::domain::data_stores::challenges_after_add;
use crate::domain::data_stores::Challenges;
use crate::domain::data_stores::EmailView;
use crate::domain::data_stores::SentEmails;
use crate::domain::data_stores::UserStoreError;
use crate::domain::data_stores::Users;
use crate::domain::data_stores::validate_user_result;
use crate::domain::data_stores::EmailClient;
use crate::domain::data_stores::TwoFACodeStore;
use crate::domain::data_stores::UserStore;
use crate::domain::email::is_valid_email;
use crate::domain::email::Email;
use crate::domain::error::AuthAPIError;
use crate::domain::password::is_valid_password;
use crate::domain::two_fa::is_two_fa_code;
use crate::domain::two_fa::is_uuid_text;
use crate::domain::two_fa::LoginAttemptId;
use crate::domain::two_fa::TwoFACode;
use crate::routes::signup::parse_credentials;
use crate::utils::auth::generate_auth_cookie;
use crate::utils::auth::is_session_cookie;
use crate::utils::auth::AuthCookie;

verus! {

#[derive(Debug)]
pub struct LoginRequest {
    pub email: String,
    pub password: String,
}

#[derive(Debug)]
pub struct TwoFactorAuthResponse {
    pub message: String,
    pub login_attempt_id: String,
}

#[derive(Debug)]
pub enum LoginResponse {
    RegularAuth,
    TwoFactorAuth(TwoFactorAuthResponse),
}

/// What a login that was let through answers: the status, the body, and the
/// session cookie where the login is complete.
#[derive(Debug)]
pub struct LoginReply {
    pub status: u16,
    pub body: LoginResponse,
    pub cookie: Option<AuthCookie>,
}

/// A login that is complete: status 200 and the session cookie of `email`,
/// made at `now`.
pub open spec fn is_authenticated(
    reply: LoginReply,
    secret: Seq<char>,
    email: Seq<char>,
    now: u64,
) -> bool {
    &&& reply.status == 200
    &&& reply.body is RegularAuth
    &&& reply.cookie matches Some(cookie)
    &&& is_session_cookie(cookie, secret, email, now)
}

/// A login that waits for its second factor: status 206, no cookie, and the
/// identifier of the challenge. The code itself is not in the answer.
pub open spec fn is_challenge_issued(reply: LoginReply, attempt_id: Seq<char>) -> bool {
    &&& reply.status == 206
    &&& reply.cookie is None
    &&& reply.body matches LoginResponse::TwoFactorAuth(body)
    &&& body.message@ == "2FA required"@
    &&& body.login_attempt_id@ == attempt_id
}

/// The message that carries `code` to `email`, as it stands in contracts.
pub open spec fn two_fa_email_view(email: Seq<char>, code: Seq<char>) -> EmailView {
    EmailView { recipient: email, subject: "2FA Code"@, content: code }
}

/// A challenge was opened for `email` at `now`: an identifier and a code of
/// the right shapes were filed in the place of any earlier challenge for the
/// address, that same code was sent to the address, once, and the answer
/// names that identifier.
pub open spec fn is_challenge_opened(
    reply: LoginReply,
    before: Challenges,
    after: Challenges,
    sent_before: SentEmails,
    sent_after: SentEmails,
    email: Seq<char>,
    now: u64,
) -> bool {
    exists|attempt_id: Seq<char>, code: Seq<char>|
        {
            &&& is_uuid_text(attempt_id)
            &&& is_two_fa_code(code)
            &&& #[trigger] challenges_after_add(before, email, attempt_id, code, now) == after
            &&& sent_after == sent_before.push(two_fa_email_view(email, code))
            &&& is_challenge_issued(reply, attempt_id)
        }
}

/// Whether a login request is well-formed: an address and a password of the
/// right shapes.
pub open spec fn is_well_formed(request: LoginRequest) -> bool {
    is_valid_email(request.email@) && is_valid_password(request.password@)
}

/// Whether a login request names a registered user and that user's
/// password, both well-formed.
pub open spec fn is_login_allowed(users: Users, request: LoginRequest) -> bool {
    is_well_formed(request) && validate_user_result(users, request.email@, request.password@)
        is Ok
}

/// Whether the user registered under `email` logs in with a second factor.
pub open spec fn needs_second_factor(users: Users, email: Seq<char>) -> bool {
    users[email].requires_2fa
}

/// Completes a login that needs no second factor: mints the session cookie.
/// It fails only where the expiry is past the largest number of seconds.
pub fn handle_no_2fa(email: &Email, secret: &str, now: u64) -> (r: Result<
    LoginReply,
    AuthAPIError,
>)
    ensures
        r is Ok <==> now + 600 <= u64::MAX,
        match r {
            Ok(reply) => is_authenticated(reply, secret@, email@, now),
            Err(e) => e == AuthAPIError::UnexpectedError,
        },
{
    match generate_auth_cookie(email, secret, now) {
        Ok(cookie) => Ok(
            LoginReply { status: 200, body: LoginResponse::RegularAuth, cookie: Some(cookie) },
        ),
        Err(_) => Err(AuthAPIError::UnexpectedError),
    }
}

/// The message that carries a code to its user.
#[derive(Debug)]
pub struct TwoFAEmail {
    pub subject: String,
    pub content: String,
}

/// Writes the message for a code: the code itself is all of its content.
pub fn two_fa_email(code: &TwoFACode) -> (message: TwoFAEmail)
    ensures
        message.subject@ == "2FA Code"@,
        message.content@ == code@,
{
    TwoFAEmail {
        subject: String::from_str("2FA Code"),
        content: String::from_str(code.as_str()),
    }
}

/// Opens a challenge for `email`: draws an identifier and a code, files them
/// in the place of any earlier challenge, and sends the code to the user.
/// The answer names the identifier only. It fails only where the store or
/// the mail client fails, and then no message has gone out.
pub fn handle_2fa<C: TwoFACodeStore, N: EmailClient>(
    email: &Email,
    codes: &mut C,
    email_client: &mut N,
    now: u64,
) -> (r: Result<LoginReply, AuthAPIError>)
    ensures
        final(codes).never_fails() == old(codes).never_fails(),
        final(email_client).always_delivers() == old(email_client).always_delivers(),
        old(codes).never_fails() && old(email_client).always_delivers() ==> r is Ok,
        match r {
            Ok(reply) => is_challenge_opened(
                reply,
                old(codes).challenges(),
                final(codes).challenges(),
                old(email_client).sent(),
                final(email_client).sent(),
                email@,
                now,
            ),
            Err(e) => e == AuthAPIError::UnexpectedError && final(email_client).sent() == old(
                email_client,
            ).sent(),
        },
{
    let login_attempt_id = LoginAttemptId::default();
    let two_fa_code = TwoFACode::default();
    if codes.add_code(email.clone(), login_attempt_id.clone(), two_fa_code.clone(), now).is_err() {
        return Err(AuthAPIError::UnexpectedError);
    }
    let message = two_fa_email(&two_fa_code);
    let sent = email_client.send_email(email, message.subject.as_str(), message.content.as_str());
    if sent.is_err() {
        return Err(AuthAPIError::UnexpectedError);
    }
    let body = TwoFactorAuthResponse {
        message: String::from_str("2FA required"),
        login_attempt_id: String::from_str(login_attempt_id.as_str()),
    };
    let reply = LoginReply { status: 206, body: LoginResponse::TwoFactorAuth(body), cookie: None };
    Ok(reply)
}

/// What the first steps of a login come to, given what the store answered to
/// the check of the password: a failure of the store is one of the service,
/// and any other refusal means that the address or the password is wrong.
pub fn credentials_checked(checked: Result<(), UserStoreError>) -> (r: Result<(), AuthAPIError>)
    ensures
        r == match checked {
            Ok(()) => Ok::<(), AuthAPIError>(()),
            Err(UserStoreError::UnexpectedError) => Err::<(), AuthAPIError>(
                AuthAPIError::UnexpectedError,
            ),
            Err(_) => Err::<(), AuthAPIError>(AuthAPIError::IncorrectCredentials),
        },
{
    match checked {
        Ok(()) => Ok(()),
        Err(UserStoreError::UnexpectedError) => Err(AuthAPIError::UnexpectedError),
        Err(_) => Err(AuthAPIError::IncorrectCredentials),
    }
}

/// Answers a login request. The shape of the address and the password is
/// checked first; then the store checks the password; then the user's flag
/// decides between a session and a challenge. An unknown address and a wrong
/// password are answered alike, and only they are answered as incorrect
/// credentials: a store that fails is answered as an unexpected error. With
/// stores and a mail client that never fail, a registered user with the
/// right password is always let through.
pub fn login<U: UserStore, C: TwoFACodeStore, N: EmailClient>(
    users: &U,
    codes: &mut C,
    email_client: &mut N,
    secret: &str,
    now: u64,
    request: LoginRequest,
) -> (r: Result<LoginReply, AuthAPIError>)
    ensures
        final(codes).never_fails() == old(codes).never_fails(),
        final(email_client).always_delivers() == old(email_client).always_delivers(),
        !is_well_formed(request) <==> r == Err::<LoginReply, AuthAPIError>(
            AuthAPIError::InvalidCredentials,
        ),
        r == Err::<LoginReply, AuthAPIError>(AuthAPIError::IncorrectCredentials) ==> is_well_formed(
            request,
        ) && !is_login_allowed(users.users(), request),
        is_well_formed(request) && !is_login_allowed(users.users(), request) ==> r == Err::<
            LoginReply,
            AuthAPIError,
        >(AuthAPIError::IncorrectCredentials) || (!users.never_fails() && r == Err::<
            LoginReply,
            AuthAPIError,
        >(AuthAPIError::UnexpectedError)),
        users.never_fails() && is_login_allowed(users.users(), request) ==> if needs_second_factor(
            users.users(),
            request.email@,
        ) {
            old(codes).never_fails() && old(email_client).always_delivers() ==> r is Ok
        } else {
            r is Ok <==> now + 600 <= u64::MAX
        },
        match r {
            Ok(reply) => {
                &&& is_login_allowed(users.users(), request)
                &&& if needs_second_factor(users.users(), request.email@) {
                    is_challenge_opened(
                        reply,
                        old(codes).challenges(),
                        final(codes).challenges(),
                        old(email_client).sent(),
                        final(email_client).sent(),
                        request.email@,
                        now,
                    )
                } else {
                    &&& is_authenticated(reply, secret@, request.email@, now)
                    &&& final(codes).challenges() == old(codes).challenges()
                    &&& final(email_client).sent() == old(email_client).sent()
                }
            },
            Err(e) => {
                &&& e == AuthAPIError::InvalidCredentials || e == AuthAPIError::IncorrectCredentials
                    || e == AuthAPIError::UnexpectedError
                &&& final(email_client).sent() == old(email_client).sent()
                &&& e != AuthAPIError::UnexpectedError ==> final(codes).challenges() == old(
                    codes,
                ).challenges()
            },
        },
{
    let (email, password) = match parse_credentials(request.email, request.password) {
        Ok(pair) => pair,
        Err(e) => {
            return Err(e);
        },
    };
    match credentials_checked(users.validate_user(&email, &password)) {
        Ok(()) => {},
        Err(e) => {
            return Err(e);
        },
    }
    let user = match users.get_user(&email) {
        Ok(user) => user,
        Err(UserStoreError::UnexpectedError) => {
            return Err(AuthAPIError::UnexpectedError);
        },
        Err(_) => {
            return Err(AuthAPIError::IncorrectCredentials);
        },
    };
    if user.requires_2fa {
        handle_2fa(&user.email, codes, email_client, now)
    } else {
        handle_no_2fa(&user.email, secret, now)
    }
}

} // verus!
