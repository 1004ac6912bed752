use vstd::prelude::*;
use vstd::string::StringExecFns;
use crate::domain::data_stores::found_view;
use crate::domain::data_stores::TwoFACodeStoreError;
use crate::domain::email::Email;
use crate::domain::two_fa::is_two_fa_code;
use crate::domain::two_fa::is_uuid_text;
use crate::domain::two_fa::LoginAttemptId;
use crate::domain::two_fa::TwoFACode;

verus! {

/// How long the cache keeps a challenge, in seconds.
pub const TEN_MINUTES_IN_SECONDS: u64 = 600;

/// What every key of a challenge begins with.
pub const TWO_FA_CODE_PREFIX: &'static str = "two_fa_code:";

/// The error of the `serde_json` crate.
#[verifier::external_type_specification]
#[verifier::external_body]
pub struct ExJsonError(serde_json::Error);

/// The text that `serde_json::to_string` writes for a pair of texts; `None`
/// where it fails.
pub uninterp spec fn json_of_pair(first: Seq<char>, second: Seq<char>) -> Option<Seq<char>>;

/// The pair of texts that `serde_json::from_str` reads from a text; `None`
/// where the text is no such pair.
pub uninterp spec fn pair_of_json(text: Seq<char>) -> Option<(Seq<char>, Seq<char>)>;

/// Calls `serde_json::to_string` on a pair of texts. The result is a function
/// of the two texts, and a text that it writes is one that
/// `serde_json::from_str` reads back to the same pair.
#[verifier::external_body]
fn pair_to_json(first: &str, second: &str) -> (r: Result<String, serde_json::Error>)
    ensures
        match r {
            Ok(text) => json_of_pair(first@, second@) == Some(text@) && pair_of_json(text@)
                == Some((first@, second@)),
            Err(_) => json_of_pair(first@, second@) is None,
        },
{
    serde_json::to_string(&(first, second))
}

/// Calls `serde_json::from_str` for a pair of texts. The result is a function
/// of the text.
#[verifier::external_body]
fn pair_from_json(text: &str) -> (r: Result<(String, String), serde_json::Error>)
    ensures
        match r {
            Ok(pair) => pair_of_json(text@) == Some((pair.0@, pair.1@)),
            Err(_) => pair_of_json(text@) is None,
        },
{
    serde_json::from_str::<(String, String)>(text)
}

/// A pair of texts as it stands in contracts.
pub open spec fn pair_view(pair: Option<(String, String)>) -> Option<(Seq<char>, Seq<char>)> {
    match pair {
        Some(p) => Some((p.0@, p.1@)),
        None => None,
    }
}

/// What reading a key from the cache came to.
#[derive(Debug)]
pub enum CacheReply {
    /// The key holds this value.
    Value(String),
    /// The key holds nothing.
    Missing,
    /// The read itself failed.
    Failed,
}

/// What a read came to, as it stands in contracts.
pub enum CacheReplyView {
    Value(Seq<char>),
    Missing,
    Failed,
}

impl View for CacheReply {
    type V = CacheReplyView;

    open spec fn view(&self) -> CacheReplyView {
        match self {
            CacheReply::Value(value) => CacheReplyView::Value(value@),
            CacheReply::Missing => CacheReplyView::Missing,
            CacheReply::Failed => CacheReplyView::Failed,
        }
    }
}

/// The key under which the challenge of `email` is kept.
pub open spec fn key_of(email: Seq<char>) -> Seq<char> {
    TWO_FA_CODE_PREFIX@ + email
}

/// What a stored value stands for, given the pair read from it: the
/// identifier and the code, where it is a pair of an identifier and a code.
pub open spec fn stored_code(pair: Option<(Seq<char>, Seq<char>)>) -> Result<
    (Seq<char>, Seq<char>),
    TwoFACodeStoreError,
> {
    match pair {
        Some((attempt_id, code)) => if is_uuid_text(attempt_id) && is_two_fa_code(code) {
            Ok((attempt_id, code))
        } else {
            Err(TwoFACodeStoreError::UnexpectedError)
        },
        None => Err(TwoFACodeStoreError::UnexpectedError),
    }
}

/// What `get_code` answers to the cache's reply: a key without a value means
/// that no challenge is pending, and a read that failed is a failure of the
/// store, not a missing challenge.
pub open spec fn reply_code(reply: CacheReplyView) -> Result<
    (Seq<char>, Seq<char>),
    TwoFACodeStoreError,
> {
    match reply {
        CacheReplyView::Value(value) => stored_code(pair_of_json(value)),
        CacheReplyView::Missing => Err(TwoFACodeStoreError::LoginAttemptIdNotFound),
        CacheReplyView::Failed => Err(TwoFACodeStoreError::UnexpectedError),
    }
}

/// What has to be written to the cache to file a challenge.
#[derive(Debug)]
pub struct SetWithExpiry {
    pub key: String,
    pub value: String,
    /// After how many seconds the cache drops the entry.
    pub seconds: u64,
}

pub fn get_key(email: &Email) -> (key: String)
    ensures
        key@ == key_of(email@),
{
    String::from_str(TWO_FA_CODE_PREFIX).concat(email.as_str())
}

/// The value kept for a challenge. Reading it back gives the same identifier
/// and code.
pub fn serialize_code(login_attempt_id: &LoginAttemptId, code: &TwoFACode) -> (r: Result<
    String,
    TwoFACodeStoreError,
>)
    ensures
        match r {
            Ok(value) => json_of_pair(login_attempt_id@, code@) == Some(value@) && stored_code(
                pair_of_json(value@),
            ) == Ok::<(Seq<char>, Seq<char>), TwoFACodeStoreError>((login_attempt_id@, code@)),
            Err(e) => json_of_pair(login_attempt_id@, code@) is None && e
                == TwoFACodeStoreError::UnexpectedError,
        },
{
    match pair_to_json(login_attempt_id.as_str(), code.as_str()) {
        Ok(value) => Ok(value),
        Err(_) => Err(TwoFACodeStoreError::UnexpectedError),
    }
}

/// The write that files a challenge for `email`: its key, its value, and the
/// ten minutes after which it is dropped.
pub fn add_code_command(email: &Email, login_attempt_id: &LoginAttemptId, code: &TwoFACode) -> (r:
    Result<SetWithExpiry, TwoFACodeStoreError>)
    ensures
        match r {
            Ok(command) => {
                &&& command.key@ == key_of(email@)
                &&& json_of_pair(login_attempt_id@, code@) == Some(command.value@)
                &&& reply_code(CacheReplyView::Value(command.value@)) == Ok::<
                    (Seq<char>, Seq<char>),
                    TwoFACodeStoreError,
                >((login_attempt_id@, code@))
                &&& command.seconds == 600
            },
            Err(e) => json_of_pair(login_attempt_id@, code@) is None && e
                == TwoFACodeStoreError::UnexpectedError,
        },
{
    let key = get_key(email);
    match serialize_code(login_attempt_id, code) {
        Ok(value) => Ok(SetWithExpiry { key, value, seconds: TEN_MINUTES_IN_SECONDS }),
        Err(e) => Err(e),
    }
}

/// Turns the pair read from a stored value into an identifier and a code.
pub fn code_from_pair(pair: Option<(String, String)>) -> (r: Result<
    (LoginAttemptId, TwoFACode),
    TwoFACodeStoreError,
>)
    ensures
        found_view(r) == stored_code(pair_view(pair)),
{
    let (first, second) = match pair {
        Some(p) => p,
        None => {
            return Err(TwoFACodeStoreError::UnexpectedError);
        },
    };
    let login_attempt_id = match LoginAttemptId::parse(first) {
        Ok(id) => id,
        Err(_) => {
            return Err(TwoFACodeStoreError::UnexpectedError);
        },
    };
    let code = match TwoFACode::parse(second) {
        Ok(code) => code,
        Err(_) => {
            return Err(TwoFACodeStoreError::UnexpectedError);
        },
    };
    Ok((login_attempt_id, code))
}

/// Reads the cache's reply for a key: the challenge, where there is a value
/// and it holds one.
pub fn parse_reply(reply: CacheReply) -> (r: Result<
    (LoginAttemptId, TwoFACode),
    TwoFACodeStoreError,
>)
    ensures
        found_view(r) == reply_code(reply@),
{
    match reply {
        CacheReply::Value(value) => {
            let pair = match pair_from_json(value.as_str()) {
                Ok(pair) => Some(pair),
                Err(_) => None,
            };
            code_from_pair(pair)
        },
        CacheReply::Missing => Err(TwoFACodeStoreError::LoginAttemptIdNotFound),
        CacheReply::Failed => Err(TwoFACodeStoreError::UnexpectedError),
    }
}

} // verus!
