use vstd::prelude::*;
use vstd::string::StringExecFns;
use crate::domain::data_stores::UserStore;
use crate::domain::data_stores::UserStoreError;
use crate::domain::data_stores::Users;
use crate::domain::email::is_valid_email;
use crate::domain::email::Email;
use crate::domain::error::AuthAPIError;
use crate::domain::password::is_valid_password;
use crate::domain::password::Password;
use crate::domain::user::User;
use crate::domain::user::UserView;

verus! {

#[derive(Debug)]
pub struct SignupRequest {
    pub email: String,
    pub password: String,
    pub requires_2fa: bool,
}

#[derive(Debug)]
pub struct SignupResponse {
    pub message: String,
}

impl PartialEq for SignupResponse {
    fn eq(&self, other: &Self) -> (r: bool) {
        self.message == other.message
    }
}

impl vstd::std_specs::cmp::PartialEqSpecImpl for SignupResponse {
    open spec fn obeys_eq_spec() -> bool {
        true
    }

    open spec fn eq_spec(&self, other: &Self) -> bool {
        self.message@ == other.message@
    }
}

/// The user that a signup request asks for.
pub open spec fn requested_user(request: SignupRequest) -> UserView {
    UserView {
        email: request.email@,
        password: request.password@,
        requires_2fa: request.requires_2fa,
    }
}

/// Checks the shape of an address and a password. A malformed one of either
/// kind is reported in the same way.
pub fn parse_credentials(email: String, password: String) -> (r: Result<
    (Email, Password),
    AuthAPIError,
>)
    ensures
        match r {
            Ok(pair) => is_valid_email(email@) && is_valid_password(password@) && pair.0@ == email@
                && pair.1@ == password@,
            Err(e) => e == AuthAPIError::InvalidCredentials && !(is_valid_email(email@)
                && is_valid_password(password@)),
        },
{
    let email = match Email::parse(email) {
        Ok(email) => email,
        Err(_) => {
            return Err(AuthAPIError::InvalidCredentials);
        },
    };
    let password = match Password::parse(password) {
        Ok(password) => password,
        Err(_) => {
            return Err(AuthAPIError::InvalidCredentials);
        },
    };
    Ok((email, password))
}

/// What `signup` answers over a store that holds `users` and does not fail:
/// a malformed address or password is turned down first, an address that is
/// taken is a conflict, and any other request is let through with status 201.
pub open spec fn signup_result(users: Users, request: SignupRequest) -> Result<u16, AuthAPIError> {
    if !(is_valid_email(request.email@) && is_valid_password(request.password@)) {
        Err(AuthAPIError::InvalidCredentials)
    } else if users.contains_key(request.email@) {
        Err(AuthAPIError::UserAlreadyExists)
    } else {
        Ok(201)
    }
}

/// The status of an answer of `signup`, as it stands in contracts.
pub open spec fn signup_status(answer: Result<(u16, SignupResponse), AuthAPIError>) -> Result<
    u16,
    AuthAPIError,
> {
    match answer {
        Ok(reply) => Ok(reply.0),
        Err(e) => Err(e),
    }
}

/// Registers a user. The answer is decided by the request and by what the
/// store holds; only a store that can fail on its own account may have a
/// well-formed request answered as an unexpected error instead. The user is
/// added where the answer is a success, and the store holds what it held
/// where it is not.
pub fn signup<U: UserStore>(users: &mut U, request: SignupRequest) -> (r: Result<
    (u16, SignupResponse),
    AuthAPIError,
>)
    ensures
        signup_status(r) == signup_result(old(users).users(), request) || (is_valid_email(
            request.email@,
        ) && is_valid_password(request.password@) && !old(users).never_fails() && r == Err::<
            (u16, SignupResponse),
            AuthAPIError,
        >(AuthAPIError::UnexpectedError)),
        r matches Ok(reply) ==> reply.1.message@ == "User created successfully!"@,
        final(users).users() == if r is Ok {
            old(users).users().insert(request.email@, requested_user(request))
        } else {
            old(users).users()
        },
        final(users).never_fails() == old(users).never_fails(),
{
    let (email, password) = match parse_credentials(request.email, request.password) {
        Ok(pair) => pair,
        Err(e) => {
            return Err(e);
        },
    };
    let user = User::new(email, password, request.requires_2fa);
    if users.get_user(&user.email).is_ok() {
        return Err(AuthAPIError::UserAlreadyExists);
    }
    match users.add_user(user) {
        Ok(()) => {},
        Err(UserStoreError::UserAlreadyExists) => {
            return Err(AuthAPIError::UserAlreadyExists);
        },
        Err(_) => {
            return Err(AuthAPIError::UnexpectedError);
        },
    }
    Ok((201, SignupResponse { message: String::from_str("User created successfully!") }))
}

} // verus!
