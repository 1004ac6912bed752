use vstd::prelude::*;
use vstd::string::StringExecFns;

verus! {

/// Whether `validator::validate_email` accepts the text as an address.
pub uninterp spec fn is_valid_email(text: Seq<char>) -> bool;

/// Calls `validator::validate_email`. The answer is a function of the text
/// alone; the function returns `false` at once for an empty text and for one
/// without an `@`, so an accepted text has at least one character and an `@`.
#[verifier::external_body]
fn check_email(text: &str) -> (ok: bool)
    ensures
        ok == is_valid_email(text@),
        ok ==> text@.len() > 0 && text@.contains('@'),
{
    validator::validate_email(text)
}

/// The text that `Email::parse` returns when it rejects `text`.
pub open spec fn invalid_email_message(text: Seq<char>) -> Seq<char> {
    text + " is not a valid email."@
}

/// An address that passed validation. It is the identity under which a user
/// is known to every store; two addresses are the same when their texts are
/// equal, character by character.
#[derive(Debug)]
pub struct Email(String);

impl View for Email {
    type V = Seq<char>;

    closed spec fn view(&self) -> Seq<char> {
        self.0@
    }
}

impl Email {
    #[verifier::type_invariant]
    spec fn well_formed(&self) -> bool {
        is_valid_email(self.0@) && self.0@.len() > 0 && self.0@.contains('@')
    }

    /// Accepts exactly the texts that pass validation and keeps them
    /// unchanged; any other text comes back inside the error message. A text
    /// that is accepted is not empty and has an `@` in it.
    pub fn parse(s: String) -> (r: Result<Email, String>)
        ensures
            is_valid_email(s@) <==> r is Ok,
            r is Ok ==> s@.len() > 0 && s@.contains('@'),
            r matches Ok(email) ==> email@ == s@,
            r matches Err(message) ==> message@ == invalid_email_message(s@),
    {
        if check_email(s.as_str()) {
            Ok(Email(s))
        } else {
            Err(s.concat(" is not a valid email."))
        }
    }

    /// The address as text. Every `Email` holds a validated, non-empty text
    /// with an `@` in it.
    pub fn as_str(&self) -> (r: &str)
        ensures
            r@ == self@,
            is_valid_email(self@),
            self@.len() > 0,
            self@.contains('@'),
    {
        proof {
            use_type_invariant(self);
        }
        self.0.as_str()
    }
}

impl Clone for Email {
    fn clone(&self) -> (r: Self)
        ensures
            r@ == self@,
    {
        proof {
            use_type_invariant(self);
        }
        Email(self.0.clone())
    }
}

impl PartialEq for Email {
    fn eq(&self, other: &Self) -> (r: bool) {
        self.0 == other.0
    }
}

impl Eq for Email {}

impl vstd::std_specs::cmp::PartialEqSpecImpl for Email {
    open spec fn obeys_eq_spec() -> bool {
        true
    }

    open spec fn eq_spec(&self, other: &Self) -> bool {
        self@ == other@
    }
}

} // verus!
