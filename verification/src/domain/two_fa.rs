use vstd::prelude::*;
use vstd::string::StrSliceExecFns;
use vstd::string::StringExecFns;

verus! {

/// Whether `uuid::Uuid::parse_str` accepts the text.
pub uninterp spec fn is_uuid_text(text: Seq<char>) -> bool;

/// Calls `uuid::Uuid::parse_str` and says whether it returned a UUID. The
/// answer is a function of the text alone.
#[verifier::external_body]
fn parses_as_uuid(text: &str) -> (ok: bool)
    ensures
        ok == is_uuid_text(text@),
{
    uuid::Uuid::parse_str(text).is_ok()
}

/// Calls `uuid::Uuid::new_v4` and writes the UUID out with `to_string`. The
/// value is random; whatever it is, its text is the hyphenated form, which
/// `uuid::Uuid::parse_str` reads back.
#[verifier::external_body]
fn fresh_uuid_text() -> (text: String)
    ensures
        is_uuid_text(text@),
{
    uuid::Uuid::new_v4().to_string()
}

/// Calls `rand::Rng::gen_range` on the thread's generator with the range from
/// zero up to, and without, `bound`. The value is random and lies in that
/// range. An empty range makes the call panic, so `bound` is positive.
#[verifier::external_body]
fn random_below(bound: u32) -> (n: u32)
    requires
        bound > 0,
    ensures
        n < bound,
{
    rand::Rng::gen_range(&mut rand::thread_rng(), 0..bound)
}

/// The text that `LoginAttemptId::parse` returns when it rejects `text`.
pub open spec fn invalid_attempt_id_message(text: Seq<char>) -> Seq<char> {
    text + " is not a valid login attempt id."@
}

/// Names one pending two-factor challenge. Its text has the shape of a UUID.
#[derive(Debug)]
pub struct LoginAttemptId(String);

impl View for LoginAttemptId {
    type V = Seq<char>;

    closed spec fn view(&self) -> Seq<char> {
        self.0@
    }
}

impl LoginAttemptId {
    #[verifier::type_invariant]
    spec fn well_formed(&self) -> bool {
        is_uuid_text(self.0@)
    }

    /// Accepts exactly the texts that read as a UUID and keeps them unchanged.
    pub fn parse(id: String) -> (r: Result<LoginAttemptId, String>)
        ensures
            is_uuid_text(id@) <==> r is Ok,
            r matches Ok(parsed) ==> parsed@ == id@,
            r matches Err(message) ==> message@ == invalid_attempt_id_message(id@),
    {
        if parses_as_uuid(id.as_str()) {
            Ok(LoginAttemptId(id))
        } else {
            Err(id.concat(" is not a valid login attempt id."))
        }
    }

    /// The identifier as text. Every `LoginAttemptId` reads as a UUID.
    pub fn as_str(&self) -> (r: &str)
        ensures
            r@ == self@,
            is_uuid_text(self@),
    {
        proof {
            use_type_invariant(self);
        }
        self.0.as_str()
    }
}

impl Default for LoginAttemptId {
    /// A freshly drawn identifier.
    fn default() -> (r: Self)
        ensures
            is_uuid_text(r@),
    {
        LoginAttemptId(fresh_uuid_text())
    }
}

impl Clone for LoginAttemptId {
    fn clone(&self) -> (r: Self)
        ensures
            r@ == self@,
    {
        proof {
            use_type_invariant(self);
        }
        LoginAttemptId(self.0.clone())
    }
}

impl PartialEq for LoginAttemptId {
    fn eq(&self, other: &Self) -> (r: bool) {
        self.0 == other.0
    }
}

impl Eq for LoginAttemptId {}

impl vstd::std_specs::cmp::PartialEqSpecImpl for LoginAttemptId {
    open spec fn obeys_eq_spec() -> bool {
        true
    }

    open spec fn eq_spec(&self, other: &Self) -> bool {
        self@ == other@
    }
}

/// How many digits a two-factor code has.
pub const TWO_FA_CODE_LENGTH: usize = 6;

/// One more than the largest number that six digits can write.
pub const TWO_FA_CODE_BOUND: u32 = 1_000_000;

pub open spec fn is_digit(c: char) -> bool {
    '0' <= c && c <= '9'
}

/// The shape of a two-factor code: six characters, each a decimal digit.
pub open spec fn is_two_fa_code(text: Seq<char>) -> bool {
    text.len() == 6 && forall|i: int| 0 <= i < 6 ==> is_digit(#[trigger] text[i])
}

/// The character that writes a number below ten.
pub open spec fn digit_char(d: int) -> char {
    if d == 0 {
        '0'
    } else if d == 1 {
        '1'
    } else if d == 2 {
        '2'
    } else if d == 3 {
        '3'
    } else if d == 4 {
        '4'
    } else if d == 5 {
        '5'
    } else if d == 6 {
        '6'
    } else if d == 7 {
        '7'
    } else if d == 8 {
        '8'
    } else {
        '9'
    }
}

/// A number below one million written with six digits, zeros in front where
/// it is short.
pub open spec fn six_digits(n: int) -> Seq<char> {
    seq![
        digit_char(n / 100000 % 10),
        digit_char(n / 10000 % 10),
        digit_char(n / 1000 % 10),
        digit_char(n / 100 % 10),
        digit_char(n / 10 % 10),
        digit_char(n % 10),
    ]
}

/// The text that `TwoFACode::parse` returns when it rejects `text`.
pub open spec fn invalid_code_message(text: Seq<char>) -> Seq<char> {
    text + " is not a valid 2FA code."@
}

fn digit_text(d: u32) -> (r: &'static str)
    requires
        d < 10,
    ensures
        r@ == seq![digit_char(d as int)],
{
    proof {
        reveal_strlit("0");
        reveal_strlit("1");
        reveal_strlit("2");
        reveal_strlit("3");
        reveal_strlit("4");
        reveal_strlit("5");
        reveal_strlit("6");
        reveal_strlit("7");
        reveal_strlit("8");
        reveal_strlit("9");
    }
    let r = if d == 0 {
        "0"
    } else if d == 1 {
        "1"
    } else if d == 2 {
        "2"
    } else if d == 3 {
        "3"
    } else if d == 4 {
        "4"
    } else if d == 5 {
        "5"
    } else if d == 6 {
        "6"
    } else if d == 7 {
        "7"
    } else if d == 8 {
        "8"
    } else {
        "9"
    };
    r
}

fn has_code_shape(text: &str) -> (ok: bool)
    ensures
        ok == is_two_fa_code(text@),
{
    if text.unicode_len() != TWO_FA_CODE_LENGTH {
        return false;
    }
    let mut i: usize = 0;
    while i < TWO_FA_CODE_LENGTH
        invariant
            text@.len() == 6,
            i <= 6,
            forall|j: int| 0 <= j < i ==> is_digit(#[trigger] text@[j]),
        decreases 6 - i,
    {
        let c = text.get_char(i);
        if !('0' <= c && c <= '9') {
            return false;
        }
        i += 1;
    }
    true
}

/// A single-use numeric code: six decimal digits.
#[derive(Debug)]
pub struct TwoFACode(String);

impl View for TwoFACode {
    type V = Seq<char>;

    closed spec fn view(&self) -> Seq<char> {
        self.0@
    }
}

impl TwoFACode {
    #[verifier::type_invariant]
    spec fn well_formed(&self) -> bool {
        is_two_fa_code(self.0@)
    }

    /// Accepts exactly the texts of six decimal digits and keeps them
    /// unchanged.
    pub fn parse(code: String) -> (r: Result<TwoFACode, String>)
        ensures
            is_two_fa_code(code@) <==> r is Ok,
            r matches Ok(parsed) ==> parsed@ == code@,
            r matches Err(message) ==> message@ == invalid_code_message(code@),
    {
        if has_code_shape(code.as_str()) {
            Ok(TwoFACode(code))
        } else {
            Err(code.concat(" is not a valid 2FA code."))
        }
    }

    /// The code that writes `n` with six digits.
    pub fn from_number(n: u32) -> (r: TwoFACode)
        requires
            n < 1_000_000,
        ensures
            r@ == six_digits(n as int),
            is_two_fa_code(r@),
    {
        let mut text = String::new();
        text.append(digit_text(n / 100000 % 10));
        text.append(digit_text(n / 10000 % 10));
        text.append(digit_text(n / 1000 % 10));
        text.append(digit_text(n / 100 % 10));
        text.append(digit_text(n / 10 % 10));
        text.append(digit_text(n % 10));
        TwoFACode(text)
    }

    /// The code as text. Every `TwoFACode` is six decimal digits.
    pub fn as_str(&self) -> (r: &str)
        ensures
            r@ == self@,
            is_two_fa_code(self@),
    {
        proof {
            use_type_invariant(self);
        }
        self.0.as_str()
    }
}

impl Default for TwoFACode {
    /// A freshly drawn code.
    fn default() -> (r: Self)
        ensures
            is_two_fa_code(r@),
    {
        TwoFACode::from_number(random_below(TWO_FA_CODE_BOUND))
    }
}

impl Clone for TwoFACode {
    fn clone(&self) -> (r: Self)
        ensures
            r@ == self@,
    {
        proof {
            use_type_invariant(self);
        }
        TwoFACode(self.0.clone())
    }
}

impl PartialEq for TwoFACode {
    fn eq(&self, other: &Self) -> (r: bool) {
        self.0 == other.0
    }
}

impl Eq for TwoFACode {}

impl vstd::std_specs::cmp::PartialEqSpecImpl for TwoFACode {
    open spec fn obeys_eq_spec() -> bool {
        true
    }

    open spec fn eq_spec(&self, other: &Self) -> bool {
        self@ == other@
    }
}

} // verus!
