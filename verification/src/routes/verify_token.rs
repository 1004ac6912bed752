use vstd::prelude::*;
use crate::domain::data_stores::BannedTokenStore;
use crate::domain::error::AuthAPIError;
use crate::utils::auth::session_of;
use crate::utils::auth::token_claims;
use crate::utils::auth::validate_token;

verus! {

#[derive(Debug)]
pub struct VerifyTokenRequest {
    pub token: String,
}

/// Says whether a token stands at `now`: signed under `secret`, not run out,
/// not banned.
pub fn verify_token<B: BannedTokenStore>(
    banned_tokens: &B,
    secret: &str,
    now: u64,
    request: VerifyTokenRequest,
) -> (r: Result<u16, AuthAPIError>)
    ensures
        r == if session_of(
            token_claims(secret@, request.token@),
            request.token@,
            now,
            banned_tokens.tokens(),
        ) is Some {
            Ok::<u16, AuthAPIError>(200)
        } else {
            Err::<u16, AuthAPIError>(AuthAPIError::InvalidToken)
        },
{
    match validate_token(request.token.as_str(), secret, now, banned_tokens) {
        Ok(_) => Ok(200),
        Err(_) => Err(AuthAPIError::InvalidToken),
    }
}

} // verus!
