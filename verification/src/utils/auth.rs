use vstd::prelude::*;
use vstd::string::StringExecFns;
use crate::domain::data_stores::BannedTokenStore;
use crate::domain::email::is_valid_email;
use crate::domain::email::Email;
use crate::utils::constants::JWT_COOKIE_NAME;
use crate::utils::constants::TOKEN_TTL_SECONDS;

verus! {

/// The error of the `jsonwebtoken` crate.
#[verifier::external_type_specification]
#[verifier::external_body]
pub struct ExTokenError(jsonwebtoken::errors::Error);

/// The token that `jsonwebtoken::encode` makes with the default header and
/// the key `secret` from the claims `sub` and `exp`; `None` where it fails.
pub uninterp spec fn signed_token(secret: Seq<char>, subject: Seq<char>, expiry: u64) -> Option<
    Seq<char>,
>;

/// The claims `sub` and `exp` that `jsonwebtoken::decode` reads from a token
/// whose signature it checks with the key `secret`, without looking at the
/// clock; `None` where it turns the token down or a claim is missing.
pub uninterp spec fn token_claims(secret: Seq<char>, token: Seq<char>) -> Option<
    (Seq<char>, u64),
>;

/// Calls `jsonwebtoken::encode` with the default header (HS256), the claims
/// `sub` and `exp`, and `secret` as the key. The result is a function of the
/// three values. With a secret as the key and two claims of a text and a
/// number neither the writing of the claims nor the HMAC can fail, so a token
/// always comes out; it is three parts joined by dots, so it is not empty. A
/// token that it makes is one that `jsonwebtoken::decode` accepts under the
/// same key, and reads back to the same two claims.
#[verifier::external_body]
fn sign_claims(secret: &str, subject: &str, expiry: u64) -> (r: Result<
    String,
    jsonwebtoken::errors::Error,
>)
    ensures
        r is Ok,
        match r {
            Ok(token) => {
                &&& signed_token(secret@, subject@, expiry) == Some(token@)
                &&& token@.len() > 0
                &&& token_claims(secret@, token@) == Some((subject@, expiry))
            },
            Err(_) => signed_token(secret@, subject@, expiry) is None,
        },
{
    let mut claims = serde_json::Map::new();
    claims.insert("sub".to_owned(), serde_json::Value::from(subject));
    claims.insert("exp".to_owned(), serde_json::Value::from(expiry));
    let key = jsonwebtoken::EncodingKey::from_secret(secret.as_bytes());
    jsonwebtoken::encode(&jsonwebtoken::Header::default(), &claims, &key)
}

/// Calls `jsonwebtoken::decode` with `secret` as the key and a validation
/// for HS256 that does not compare the expiry with the clock, and hands out
/// the claims `sub` and `exp`. The result is a function of the two texts.
#[verifier::external_body]
fn read_claims(secret: &str, token: &str) -> (r: Option<(String, u64)>)
    ensures
        claims_view(r) == token_claims(secret@, token@),
{
    let mut validation = jsonwebtoken::Validation::new(jsonwebtoken::Algorithm::HS256);
    validation.validate_exp = false;
    let key = jsonwebtoken::DecodingKey::from_secret(secret.as_bytes());
    let data = jsonwebtoken::decode::<serde_json::Value>(token, &key, &validation).ok()?;
    let subject = data.claims.get("sub")?.as_str()?.to_owned();
    let expiry = data.claims.get("exp")?.as_u64()?;
    Some((subject, expiry))
}

#[derive(Debug, Clone, Copy, PartialEq, Eq, Structural)]
pub enum GenerateTokenError {
    /// The signing failed.
    TokenError,
    /// The expiry cannot be written as a number of seconds.
    UnexpectedError,
}

#[derive(Debug, Clone, Copy, PartialEq, Eq, Structural)]
pub enum ValidateTokenError {
    InvalidToken,
}

#[derive(Debug, Clone, Copy, PartialEq, Eq, Structural)]
pub enum SameSite {
    Strict,
    Lax,
    Unrestricted,
}

/// The cookie that carries a session token, as plain values.
#[derive(Debug)]
pub struct AuthCookie {
    pub name: String,
    pub value: String,
    pub path: String,
    pub http_only: bool,
    pub secure: bool,
    pub same_site: SameSite,
    /// The second at which the cookie runs out: the token's own expiry.
    pub expires_at: u64,
}

/// What `generate_auth_token` answers: the token signed for `email` that runs
/// out `TOKEN_TTL_SECONDS` after `now`.
pub open spec fn generate_auth_token_result(
    secret: Seq<char>,
    email: Seq<char>,
    now: u64,
) -> Result<Seq<char>, GenerateTokenError> {
    if now + 600 > u64::MAX {
        Err(GenerateTokenError::UnexpectedError)
    } else {
        match signed_token(secret, email, (now + 600) as u64) {
            Some(token) => Ok(token),
            None => Err(GenerateTokenError::TokenError),
        }
    }
}

/// A token that was handed out, as it stands in contracts.
pub open spec fn issued_view(issued: Result<String, GenerateTokenError>) -> Result<
    Seq<char>,
    GenerateTokenError,
> {
    match issued {
        Ok(token) => Ok(token@),
        Err(e) => Err(e),
    }
}

/// The holder of a session as a function answered it, as it stands in
/// contracts.
pub open spec fn holder_view(holder: Result<Email, ValidateTokenError>) -> Option<Seq<char>> {
    match holder {
        Ok(email) => Some(email@),
        Err(_) => None,
    }
}

/// The view of the claims read from a token.
pub open spec fn claims_view(claims: Option<(String, u64)>) -> Option<(Seq<char>, u64)> {
    match claims {
        Some(c) => Some((c.0@, c.1)),
        None => None,
    }
}

/// Whom the claims of a token name at `now`: the subject, where there are
/// claims, the expiry lies after `now` and the subject is an address. The
/// banned tokens have no part in this.
pub open spec fn subject_of(claims: Option<(Seq<char>, u64)>, now: u64) -> Option<Seq<char>> {
    match claims {
        Some((subject, expiry)) => if now < expiry && is_valid_email(subject) {
            Some(subject)
        } else {
            None
        },
        None => None,
    }
}

/// Whose session a token stands for at `now`, given the claims read from it
/// and the banned tokens: whom the claims name, unless the token is banned.
pub open spec fn session_of(
    claims: Option<(Seq<char>, u64)>,
    token: Seq<char>,
    now: u64,
    banned: Set<Seq<char>>,
) -> Option<Seq<char>> {
    match subject_of(claims, now) {
        Some(subject) => if banned.contains(token) {
            None
        } else {
            Some(subject)
        },
        None => None,
    }
}

/// Signs a session token for `email` that runs out `TOKEN_TTL_SECONDS` after
/// `now`. It fails only where that expiry is past the largest number of
/// seconds. A token that comes out is not empty and reads back, under the
/// same secret, to `email` and that expiry; until then it stands for the
/// session of `email` against every set of banned tokens that does not hold
/// it.
pub fn generate_auth_token(email: &Email, secret: &str, now: u64) -> (r: Result<
    String,
    GenerateTokenError,
>)
    ensures
        issued_view(r) == generate_auth_token_result(secret@, email@, now),
        r is Ok <==> now + 600 <= u64::MAX,
        r matches Ok(token) ==> token@.len() > 0,
        r matches Ok(token) ==> token_claims(secret@, token@) == Some(
            (email@, (now + 600) as u64),
        ),
        r matches Ok(token) ==> forall|later: u64, banned: Set<Seq<char>>|
            later < now + 600 && !banned.contains(token@) ==> #[trigger] session_of(
                token_claims(secret@, token@),
                token@,
                later,
                banned,
            ) == Some(email@),
{
    let expiry = match now.checked_add(TOKEN_TTL_SECONDS) {
        Some(expiry) => expiry,
        None => {
            return Err(GenerateTokenError::UnexpectedError);
        },
    };
    match sign_claims(secret, email.as_str(), expiry) {
        Ok(token) => Ok(token),
        Err(_) => Err(GenerateTokenError::TokenError),
    }
}

/// The session cookie of `email`, made at `now`: it has the fixed name, holds
/// a token that is not empty and reads back under `secret` to `email` and to
/// the cookie's own expiry, 600 seconds after `now`, and is http-only, secure
/// and same-site for every path.
pub open spec fn is_session_cookie(
    cookie: AuthCookie,
    secret: Seq<char>,
    email: Seq<char>,
    now: u64,
) -> bool {
    &&& cookie.name@ == JWT_COOKIE_NAME@
    &&& cookie.value@.len() > 0
    &&& token_claims(secret, cookie.value@) == Some((email, cookie.expires_at))
    &&& cookie.expires_at == now + 600
    &&& cookie.path@ == "/"@
    &&& cookie.http_only
    &&& cookie.secure
    &&& cookie.same_site == SameSite::Lax
}

/// The cookie for a freshly signed session token of `email`.
pub fn generate_auth_cookie(email: &Email, secret: &str, now: u64) -> (r: Result<
    AuthCookie,
    GenerateTokenError,
>)
    ensures
        r is Ok <==> now + 600 <= u64::MAX,
        match r {
            Ok(cookie) => {
                &&& is_session_cookie(cookie, secret@, email@, now)
                &&& generate_auth_token_result(secret@, email@, now) == Ok::<
                    Seq<char>,
                    GenerateTokenError,
                >(cookie.value@)
            },
            Err(e) => generate_auth_token_result(secret@, email@, now) == Err::<
                Seq<char>,
                GenerateTokenError,
            >(e),
        },
{
    match generate_auth_token(email, secret, now) {
        Ok(token) => Ok(create_auth_cookie(token, now + TOKEN_TTL_SECONDS)),
        Err(e) => Err(e),
    }
}

/// Wraps a token in the session cookie: http-only, secure, same-site, for
/// every path, and gone at `expires_at`.
pub fn create_auth_cookie(token: String, expires_at: u64) -> (cookie: AuthCookie)
    ensures
        cookie.name@ == JWT_COOKIE_NAME@,
        cookie.value@ == token@,
        cookie.path@ == "/"@,
        cookie.http_only,
        cookie.secure,
        cookie.same_site == SameSite::Lax,
        cookie.expires_at == expires_at,
{
    AuthCookie {
        name: String::from_str(JWT_COOKIE_NAME),
        value: token,
        path: String::from_str("/"),
        http_only: true,
        secure: true,
        same_site: SameSite::Lax,
        expires_at,
    }
}

/// A token that is banned stands for no session, whatever its claims say,
/// and banning it once more changes nothing.
pub proof fn lemma_banned_token_is_rejected(
    claims: Option<(Seq<char>, u64)>,
    token: Seq<char>,
    now: u64,
    banned: Set<Seq<char>>,
)
    ensures
        banned.insert(token).contains(token),
        banned.insert(token).insert(token) == banned.insert(token),
        session_of(claims, token, now, banned.insert(token)) is None,
{
}

/// Decides on the claims that were read from a token, before any store is
/// asked: a token without claims, one that has run out and one whose subject
/// is no address are invalid.
pub fn check_claims(claims: Option<(String, u64)>, now: u64) -> (r: Result<
    Email,
    ValidateTokenError,
>)
    ensures
        holder_view(r) == subject_of(claims_view(claims), now),
{
    let (subject, expiry) = match claims {
        Some(c) => c,
        None => {
            return Err(ValidateTokenError::InvalidToken);
        },
    };
    if expiry <= now {
        return Err(ValidateTokenError::InvalidToken);
    }
    match Email::parse(subject) {
        Ok(email) => Ok(email),
        Err(_) => Err(ValidateTokenError::InvalidToken),
    }
}

/// Decides on a token from the claims that were read from it. The claims are
/// checked first; the banned tokens are looked into only for a token whose
/// claims stand.
pub fn check_session<B: BannedTokenStore>(
    claims: Option<(String, u64)>,
    token: &str,
    now: u64,
    banned_tokens: &B,
) -> (r: Result<Email, ValidateTokenError>)
    ensures
        holder_view(r) == session_of(claims_view(claims), token@, now, banned_tokens.tokens()),
{
    let email = match check_claims(claims, now) {
        Ok(email) => email,
        Err(e) => {
            return Err(e);
        },
    };
    if banned_tokens.contains_token(token) {
        return Err(ValidateTokenError::InvalidToken);
    }
    Ok(email)
}

/// The expiry signed into `token`, where the token was signed under `secret`.
pub fn token_expiry(token: &str, secret: &str) -> (r: Option<u64>)
    ensures
        r == match token_claims(secret@, token@) {
            Some(claims) => Some(claims.1),
            None => None,
        },
{
    match read_claims(secret, token) {
        Some(claims) => Some(claims.1),
        None => None,
    }
}

/// Whose session `token` stands for at `now`: the signature is checked under
/// `secret`, then the expiry, then the banned tokens.
pub fn validate_token<B: BannedTokenStore>(
    token: &str,
    secret: &str,
    now: u64,
    banned_tokens: &B,
) -> (r: Result<Email, ValidateTokenError>)
    ensures
        holder_view(r) == session_of(
            token_claims(secret@, token@),
            token@,
            now,
            banned_tokens.tokens(),
        ),
{
    let claims = read_claims(secret, token);
    check_session(claims, token, now, banned_tokens)
}

} // verus!
