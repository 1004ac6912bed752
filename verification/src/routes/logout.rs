use vstd::prelude::*;
use crate::domain::data_stores::BannedTokenStore;
use crate::domain::data_stores::BannedTokens;
use crate::domain::error::AuthAPIError;
use crate::utils::auth::session_of;
use crate::utils::auth::token_claims;
use crate::utils::auth::validate_token;

verus! {

/// The token of a session cookie, as it stands in contracts.
pub open spec fn cookie_view(cookie: Option<String>) -> Option<Seq<char>> {
    match cookie {
        Some(token) => Some(token@),
        None => None,
    }
}

/// What `logout` answers at `now` over a store that holds `banned` and does
/// not fail: without a token there is nothing to end, a token that does not
/// stand is invalid, and a token that stands is answered with status 200.
pub open spec fn logout_result(
    banned: BannedTokens,
    secret: Seq<char>,
    cookie: Option<Seq<char>>,
    now: u64,
) -> Result<u16, AuthAPIError> {
    match cookie {
        None => Err(AuthAPIError::MissingToken),
        Some(token) => if session_of(token_claims(secret, token), token, now, banned) is Some {
            Ok(200)
        } else {
            Err(AuthAPIError::InvalidToken)
        },
    }
}

/// The banned tokens after `logout`: the token of the cookie is added where
/// the answer is a success, and nothing changes where it is not.
pub open spec fn banned_after_logout(
    banned: BannedTokens,
    cookie: Option<Seq<char>>,
    done: bool,
) -> BannedTokens {
    match cookie {
        Some(token) => if done {
            banned.insert(token)
        } else {
            banned
        },
        None => banned,
    }
}

/// Ends a session. The token from the session cookie is checked as any
/// token is, and banned when it stands; when there is no token, or the token
/// does not stand, nothing is banned. The answer is decided by the cookie
/// and by what the store holds; only a store that can fail on its own
/// account may answer a token that stands with an unexpected error instead,
/// and then nothing is banned either.
pub fn logout<B: BannedTokenStore>(
    banned_tokens: &mut B,
    secret: &str,
    now: u64,
    cookie: Option<String>,
) -> (r: Result<u16, AuthAPIError>)
    ensures
        r == logout_result(old(banned_tokens).tokens(), secret@, cookie_view(cookie), now) || (
        logout_result(old(banned_tokens).tokens(), secret@, cookie_view(cookie), now) is Ok && !old(
            banned_tokens,
        ).never_fails() && r == Err::<u16, AuthAPIError>(AuthAPIError::UnexpectedError)),
        final(banned_tokens).tokens() == banned_after_logout(
            old(banned_tokens).tokens(),
            cookie_view(cookie),
            r is Ok,
        ),
        final(banned_tokens).never_fails() == old(banned_tokens).never_fails(),
{
    let token = match cookie {
        Some(token) => token,
        None => {
            return Err(AuthAPIError::MissingToken);
        },
    };
    if validate_token(token.as_str(), secret, now, &*banned_tokens).is_err() {
        return Err(AuthAPIError::InvalidToken);
    }
    if banned_tokens.add_token(token).is_err() {
        return Err(AuthAPIError::UnexpectedError);
    }
    Ok(200)
}

} // verus!
