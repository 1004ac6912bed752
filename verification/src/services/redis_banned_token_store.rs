use vstd::prelude::*;
use vstd::string::StringExecFns;
use crate::services::redis_two_fa_code_store::SetWithExpiry;
use crate::utils::auth::token_claims;
use crate::utils::auth::token_expiry;

verus! {

/// What every key of a banned token begins with.
pub const BANNED_TOKEN_KEY_PREFIX: &'static str = "banned_token:";

/// The key under which the ban of `token` is kept.
pub open spec fn key_of(token: Seq<char>) -> Seq<char> {
    BANNED_TOKEN_KEY_PREFIX@ + token
}

/// For how many seconds after `now` a token with the given expiry can still
/// be presented.
pub open spec fn lifetime_left(expiry: u64, now: u64) -> int {
    if now < expiry {
        expiry - now
    } else {
        0
    }
}

pub fn get_key(token: &str) -> (key: String)
    ensures
        key@ == key_of(token@),
{
    String::from_str(BANNED_TOKEN_KEY_PREFIX).concat(token)
}

pub fn remaining_lifetime(expiry: u64, now: u64) -> (seconds: u64)
    ensures
        seconds == lifetime_left(expiry, now),
{
    if now < expiry {
        expiry - now
    } else {
        0
    }
}

/// The write that bans `token` at `now`. The entry is dropped at the second
/// at which the token itself runs out, so it never outlives the token. A
/// token that was not signed under `secret`, or that has run out, needs no
/// entry: it is invalid without one.
pub fn ban_command(token: &str, secret: &str, now: u64) -> (r: Option<SetWithExpiry>)
    ensures
        match r {
            Some(command) => {
                &&& token_claims(secret@, token@) matches Some(claims)
                &&& now < claims.1
                &&& command.key@ == key_of(token@)
                &&& command.value@ == "true"@
                &&& command.seconds == claims.1 - now
            },
            None => match token_claims(secret@, token@) {
                Some(claims) => claims.1 <= now,
                None => true,
            },
        },
{
    let expiry = match token_expiry(token, secret) {
        Some(expiry) => expiry,
        None => {
            return None;
        },
    };
    let seconds = remaining_lifetime(expiry, now);
    if seconds == 0 {
        return None;
    }
    Some(SetWithExpiry { key: get_key(token), value: String::from_str("true"), seconds })
}

} // verus!
