use auth_service::domain::AuthAPIError;
use auth_service::domain::Email;
use auth_service::domain::LoginAttemptId;
use auth_service::domain::Password;
use auth_service::domain::TwoFACode;
use auth_service::domain::User;

#[test]
fn should_reject_empty_email() {
    let email = "".to_string();
    assert!(Email::parse(email).is_err());
}

#[test]
fn should_reject_email_without_at_character() {
    let email = "usergmail.com".to_string();
    assert!(Email::parse(email).is_err());
}

#[test]
fn should_reject_email_without_user() {
    let email = "@protonmail.com".to_string();
    assert!(Email::parse(email).is_err());
}

#[test]
fn valid_emails_are_parsed() {
    for text in ["a@b.com", "johnwick@gmail.com", "weirder-email@here.and.there.com", "email@[127.0.0.1]"] {
        let email = Email::parse(text.to_string()).unwrap();
        assert_eq!(email.as_str(), text);
    }
}

#[test]
fn rejected_email_comes_back_in_the_message() {
    assert_eq!(
        Email::parse("not-an-email".to_string()),
        Err("not-an-email is not a valid email.".to_string())
    );
    assert_eq!(Email::parse("".to_string()), Err(" is not a valid email.".to_string()));
}

#[test]
fn email_equality_is_case_sensitive() {
    let lower = Email::parse("user@example.com".to_string()).unwrap();
    let upper = Email::parse("User@example.com".to_string()).unwrap();
    assert_ne!(lower, upper);
    assert_eq!(lower, lower.clone());
}

#[test]
fn password_needs_eight_characters() {
    assert!(Password::parse("1234567".to_string()).is_err());
    assert!(Password::parse("12345678".to_string()).is_ok());
    assert!(Password::parse("".to_string()).is_err());
    assert_eq!(Password::parse("password1100".to_string()).unwrap().as_str(), "password1100");
    assert_eq!(
        Password::parse("123".to_string()),
        Err("123 is not a valid password.".to_string())
    );
}

#[test]
fn password_length_counts_characters_not_bytes() {
    // seven characters, fourteen bytes
    assert!(Password::parse("ééééééé".to_string()).is_err());
    // eight characters
    assert!(Password::parse("éééééééé".to_string()).is_ok());
}

#[test]
fn user_new_keeps_its_arguments() {
    let email = Email::parse("a@b.com".to_string()).unwrap();
    let password = Password::parse("password1100".to_string()).unwrap();
    let user = User::new(email.clone(), password.clone(), true);
    assert_eq!(user.email, email);
    assert_eq!(user.password, password);
    assert!(user.requires_2fa);
    assert_eq!(user.clone(), user);
    assert_ne!(User::new(email, password, false), user);
}

#[test]
fn login_attempt_id_reads_uuids_only() {
    let text = "123e4567-e89b-12d3-a456-426614174000";
    assert_eq!(LoginAttemptId::parse(text.to_string()).unwrap().as_str(), text);
    assert_eq!(
        LoginAttemptId::parse("invalid_login_attempt_id".to_string()),
        Err("invalid_login_attempt_id is not a valid login attempt id.".to_string())
    );
    assert!(LoginAttemptId::parse("".to_string()).is_err());
}

#[test]
fn fresh_login_attempt_ids_parse_and_differ() {
    let first = LoginAttemptId::default();
    let second = LoginAttemptId::default();
    assert_ne!(first, second);
    assert_eq!(LoginAttemptId::parse(first.as_str().to_string()), Ok(first.clone()));
    assert_eq!(first.as_str().len(), 36);
}

#[test]
fn two_fa_code_is_six_digits() {
    assert_eq!(TwoFACode::parse("123456".to_string()).unwrap().as_str(), "123456");
    assert_eq!(TwoFACode::parse("000000".to_string()).unwrap().as_str(), "000000");
    assert!(TwoFACode::parse("12345".to_string()).is_err());
    assert!(TwoFACode::parse("1234567".to_string()).is_err());
    assert!(TwoFACode::parse("12345a".to_string()).is_err());
    assert!(TwoFACode::parse("12345/".to_string()).is_err());
    assert!(TwoFACode::parse("12345:".to_string()).is_err());
    assert!(TwoFACode::parse("١٢٣٤٥٦".to_string()).is_err());
    assert!(TwoFACode::parse("".to_string()).is_err());
    assert_eq!(
        TwoFACode::parse("invalid_two_fa_code".to_string()),
        Err("invalid_two_fa_code is not a valid 2FA code.".to_string())
    );
}

#[test]
fn two_fa_code_from_number_pads_with_zeros() {
    assert_eq!(TwoFACode::from_number(0).as_str(), "000000");
    assert_eq!(TwoFACode::from_number(7).as_str(), "000007");
    assert_eq!(TwoFACode::from_number(40_302).as_str(), "040302");
    assert_eq!(TwoFACode::from_number(123_456).as_str(), "123456");
    assert_eq!(TwoFACode::from_number(999_999).as_str(), "999999");
}

#[test]
fn fresh_two_fa_codes_have_the_shape() {
    for _ in 0..200 {
        let code = TwoFACode::default();
        assert_eq!(TwoFACode::parse(code.as_str().to_string()), Ok(code));
    }
}

#[test]
fn fresh_two_fa_codes_vary() {
    let first = TwoFACode::default();
    let mut differs = false;
    for _ in 0..50 {
        if TwoFACode::default() != first {
            differs = true;
        }
    }
    assert!(differs);
}

#[test]
fn every_error_has_its_status_and_message() {
    let cases = [
        (AuthAPIError::IncorrectCredentials, 401, "Invalid credentials", "Incorrect credentials"),
        (AuthAPIError::InvalidCredentials, 400, "Invalid credentials", "Invalid credentials"),
        (AuthAPIError::InvalidToken, 401, "Invalid auth token", "Invalid token"),
        (AuthAPIError::MissingToken, 400, "Missing auth token", "Missing token"),
        (AuthAPIError::UnexpectedError, 500, "Unexpected error", "Unexpected error"),
        (AuthAPIError::UserAlreadyExists, 409, "User already exists", "User already exists"),
    ];
    for (error, status, message, description) in cases {
        assert_eq!(error.status_code(), status);
        assert_eq!(error.error_message(), message);
        assert_eq!(error.describe(), description);
        let (code, body) = error.into_response();
        assert_eq!(code, status);
        assert_eq!(body.error, message);
    }
}
