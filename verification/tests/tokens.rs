use auth_service::domain::BannedTokenStore;
use auth_service::domain::Email;
use auth_service::services::redis_banned_token_store::ban_command;
use auth_service::services::redis_banned_token_store::get_key;
use auth_service::services::redis_banned_token_store::remaining_lifetime;
use auth_service::services::redis_banned_token_store::BANNED_TOKEN_KEY_PREFIX;
use auth_service::services::HashsetBannedTokenStore;
use auth_service::utils::auth::check_claims;
use auth_service::utils::auth::check_session;
use auth_service::utils::auth::create_auth_cookie;
use auth_service::utils::auth::generate_auth_cookie;
use auth_service::utils::auth::generate_auth_token;
use auth_service::utils::auth::token_expiry;
use auth_service::utils::auth::validate_token;
use auth_service::utils::auth::GenerateTokenError;
use auth_service::utils::auth::SameSite;
use auth_service::utils::auth::ValidateTokenError;
use auth_service::utils::constants::DEFAULT_REDIS_HOSTNAME;
use auth_service::utils::constants::JWT_COOKIE_NAME;
use auth_service::utils::constants::TOKEN_TTL_SECONDS;

const SECRET: &str = "secret";
const NOW: u64 = 1_700_000_000;

fn email(text: &str) -> Email {
    Email::parse(text.to_owned()).unwrap()
}

#[test]
fn constants_have_their_values() {
    assert_eq!(JWT_COOKIE_NAME, "jwt");
    assert_eq!(DEFAULT_REDIS_HOSTNAME, "127.0.0.1");
    assert_eq!(TOKEN_TTL_SECONDS, 600);
}

#[test]
fn issued_token_verifies_against_an_empty_store() {
    let banned = HashsetBannedTokenStore::default();
    let token = generate_auth_token(&email("a@b.com"), SECRET, NOW).unwrap();
    assert_eq!(validate_token(&token, SECRET, NOW, &banned), Ok(email("a@b.com")));
}

#[test]
fn issued_token_has_three_parts_and_is_not_the_address() {
    let token = generate_auth_token(&email("a@b.com"), SECRET, NOW).unwrap();
    assert_eq!(token.split('.').count(), 3);
    assert_ne!(token, "a@b.com");
    assert_ne!(token, SECRET);
}

#[test]
fn token_is_a_function_of_secret_address_and_time() {
    let one = generate_auth_token(&email("a@b.com"), SECRET, NOW).unwrap();
    assert_eq!(generate_auth_token(&email("a@b.com"), SECRET, NOW).unwrap(), one);
    assert_ne!(generate_auth_token(&email("b@b.com"), SECRET, NOW).unwrap(), one);
    assert_ne!(generate_auth_token(&email("a@b.com"), "other", NOW).unwrap(), one);
    assert_ne!(generate_auth_token(&email("a@b.com"), SECRET, NOW + 1).unwrap(), one);
}

#[test]
fn token_stands_until_its_last_second() {
    let banned = HashsetBannedTokenStore::default();
    let token = generate_auth_token(&email("a@b.com"), SECRET, NOW).unwrap();
    assert_eq!(validate_token(&token, SECRET, NOW + 599, &banned), Ok(email("a@b.com")));
    assert_eq!(
        validate_token(&token, SECRET, NOW + 600, &banned),
        Err(ValidateTokenError::InvalidToken)
    );
    assert_eq!(
        validate_token(&token, SECRET, u64::MAX, &banned),
        Err(ValidateTokenError::InvalidToken)
    );
    // the signed expiry decides, not the clock of the machine
    assert_eq!(validate_token(&token, SECRET, 0, &banned), Ok(email("a@b.com")));
}

#[test]
fn old_token_is_turned_down_by_its_own_expiry() {
    let banned = HashsetBannedTokenStore::default();
    let token = generate_auth_token(&email("a@b.com"), SECRET, 1_000).unwrap();
    assert_eq!(validate_token(&token, SECRET, 1_599, &banned), Ok(email("a@b.com")));
    assert_eq!(
        validate_token(&token, SECRET, 1_600, &banned),
        Err(ValidateTokenError::InvalidToken)
    );
}

#[test]
fn token_signed_with_another_secret_is_invalid() {
    let banned = HashsetBannedTokenStore::default();
    let token = generate_auth_token(&email("a@b.com"), "another secret", NOW).unwrap();
    assert_eq!(
        validate_token(&token, SECRET, NOW, &banned),
        Err(ValidateTokenError::InvalidToken)
    );
}

#[test]
fn tampered_token_is_invalid() {
    let banned = HashsetBannedTokenStore::default();
    let token = generate_auth_token(&email("a@b.com"), SECRET, NOW).unwrap();
    let other = generate_auth_token(&email("b@b.com"), SECRET, NOW).unwrap();
    let parts: Vec<&str> = token.split('.').collect();
    let other_parts: Vec<&str> = other.split('.').collect();
    let forged = format!("{}.{}.{}", parts[0], other_parts[1], parts[2]);
    assert_eq!(
        validate_token(&forged, SECRET, NOW, &banned),
        Err(ValidateTokenError::InvalidToken)
    );
    for text in ["", "invalid", "a.b.c", "..", "a@b.com"] {
        assert_eq!(
            validate_token(text, SECRET, NOW, &banned),
            Err(ValidateTokenError::InvalidToken),
            "token {:?}",
            text
        );
    }
}

#[test]
fn banned_token_is_invalid() {
    let mut banned = HashsetBannedTokenStore::default();
    let token = generate_auth_token(&email("a@b.com"), SECRET, NOW).unwrap();
    let other = generate_auth_token(&email("c@d.com"), SECRET, NOW).unwrap();
    banned.add_token(token.clone()).unwrap();
    assert_eq!(
        validate_token(&token, SECRET, NOW, &banned),
        Err(ValidateTokenError::InvalidToken)
    );
    banned.add_token(token.clone()).unwrap();
    assert!(banned.contains_token(&token));
    assert_eq!(
        validate_token(&token, SECRET, NOW, &banned),
        Err(ValidateTokenError::InvalidToken)
    );
    // another token is not touched by the ban
    assert_eq!(validate_token(&other, SECRET, NOW, &banned), Ok(email("c@d.com")));
}

#[test]
fn expiry_that_does_not_fit_is_an_error() {
    assert_eq!(
        generate_auth_token(&email("a@b.com"), SECRET, u64::MAX),
        Err(GenerateTokenError::UnexpectedError)
    );
    assert_eq!(
        generate_auth_token(&email("a@b.com"), SECRET, u64::MAX - 599),
        Err(GenerateTokenError::UnexpectedError)
    );
    assert!(generate_auth_token(&email("a@b.com"), SECRET, u64::MAX - 600).is_ok());
}

#[test]
fn decision_on_claims_follows_expiry_subject_and_ban() {
    let mut banned = HashsetBannedTokenStore::default();
    let invalid = Err(ValidateTokenError::InvalidToken);
    assert_eq!(check_session(None, "t", 10, &banned), invalid);
    let claims = |expiry: u64| Some(("a@b.com".to_owned(), expiry));
    assert_eq!(check_session(claims(11), "t", 10, &banned), Ok(email("a@b.com")));
    assert_eq!(check_claims(claims(11), 10), Ok(email("a@b.com")));
    assert_eq!(check_claims(claims(10), 10), invalid);
    assert_eq!(check_claims(None, 10), invalid);
    assert_eq!(check_claims(Some(("not an address".to_owned(), 11)), 10), invalid);
    assert_eq!(check_session(Some(("a@b.com".to_owned(), 10)), "t", 10, &banned), invalid);
    assert_eq!(check_session(Some(("a@b.com".to_owned(), 9)), "t", 10, &banned), invalid);
    assert_eq!(check_session(Some(("not an address".to_owned(), 11)), "t", 10, &banned), invalid);
    banned.add_token("t".to_owned()).unwrap();
    assert_eq!(check_session(claims(11), "t", 10, &banned), invalid);
    assert_eq!(check_session(claims(11), "u", 10, &banned), Ok(email("a@b.com")));
    // the claims stand on their own, whatever is banned
    assert_eq!(check_claims(claims(11), 10), Ok(email("a@b.com")));
}

#[test]
fn cookie_carries_the_token() {
    let banned = HashsetBannedTokenStore::default();
    let cookie = generate_auth_cookie(&email("a@b.com"), SECRET, NOW).unwrap();
    assert_eq!(cookie.name, "jwt");
    assert_eq!(cookie.path, "/");
    assert!(cookie.http_only);
    assert!(cookie.secure);
    assert_eq!(cookie.same_site, SameSite::Lax);
    assert_eq!(cookie.expires_at, NOW + 600);
    assert_eq!(cookie.value, generate_auth_token(&email("a@b.com"), SECRET, NOW).unwrap());
    assert_eq!(validate_token(&cookie.value, SECRET, NOW, &banned), Ok(email("a@b.com")));
    assert_eq!(
        generate_auth_cookie(&email("a@b.com"), SECRET, u64::MAX).map(|c| c.value),
        Err(GenerateTokenError::UnexpectedError)
    );

    let plain = create_auth_cookie("token".to_owned(), 42);
    assert_eq!(plain.name, "jwt");
    assert_eq!(plain.value, "token");
    assert_eq!(plain.path, "/");
    assert_eq!(plain.expires_at, 42);
    assert!(plain.http_only && plain.secure);
    assert_eq!(plain.same_site, SameSite::Lax);
}

#[test]
fn expiry_is_read_from_a_token_signed_here() {
    let token = generate_auth_token(&email("a@b.com"), SECRET, NOW).unwrap();
    assert_eq!(token_expiry(&token, SECRET), Some(NOW + 600));
    assert_eq!(token_expiry(&token, "another secret"), None);
    assert_eq!(token_expiry("invalid", SECRET), None);
}

#[test]
fn ban_key_has_the_prefix() {
    assert_eq!(BANNED_TOKEN_KEY_PREFIX, "banned_token:");
    assert_eq!(get_key("abc"), "banned_token:abc");
    assert_eq!(get_key(""), "banned_token:");
}

#[test]
fn remaining_lifetime_is_what_is_left_of_the_token() {
    assert_eq!(remaining_lifetime(1_600, 1_000), 600);
    assert_eq!(remaining_lifetime(1_600, 1_599), 1);
    assert_eq!(remaining_lifetime(1_600, 1_600), 0);
    assert_eq!(remaining_lifetime(1_600, 2_000), 0);
    assert_eq!(remaining_lifetime(u64::MAX, 0), u64::MAX);
}

#[test]
fn ban_lasts_as_long_as_the_token() {
    let token = generate_auth_token(&email("a@b.com"), SECRET, NOW).unwrap();
    let command = ban_command(&token, SECRET, NOW + 100).unwrap();
    assert_eq!(command.key, format!("banned_token:{}", token));
    assert_eq!(command.value, "true");
    assert_eq!(command.seconds, 500);
    assert_eq!(ban_command(&token, SECRET, NOW + 599).unwrap().seconds, 1);
    // a token that has run out, or was not signed here, needs no entry
    assert!(ban_command(&token, SECRET, NOW + 600).is_none());
    assert!(ban_command(&token, "another secret", NOW).is_none());
    assert!(ban_command("invalid", SECRET, NOW).is_none());
}
