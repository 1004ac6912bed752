use vstd::prelude::*;
use vstd::string::StrSliceExecFns;
use vstd::string::StringExecFns;

verus! {

/// The fewest characters a password may have.
pub const MIN_PASSWORD_LENGTH: usize = 8;

/// The policy a password has to meet: at least eight characters.
pub open spec fn is_valid_password(text: Seq<char>) -> bool {
    text.len() >= 8
}

/// The text that `Password::parse` returns when it rejects `text`.
pub open spec fn invalid_password_message(text: Seq<char>) -> Seq<char> {
    text + " is not a valid password."@
}

/// Credential material that met the password policy. It is kept and compared
/// as it was given.
#[derive(Debug)]
pub struct Password(String);

impl View for Password {
    type V = Seq<char>;

    closed spec fn view(&self) -> Seq<char> {
        self.0@
    }
}

impl Password {
    #[verifier::type_invariant]
    spec fn well_formed(&self) -> bool {
        is_valid_password(self.0@)
    }

    /// Accepts exactly the texts that meet the policy and keeps them
    /// unchanged; any other text comes back inside the error message.
    pub fn parse(password: String) -> (r: Result<Password, String>)
        ensures
            is_valid_password(password@) <==> r is Ok,
            r matches Ok(p) ==> p@ == password@,
            r matches Err(message) ==> message@ == invalid_password_message(password@),
    {
        if password.as_str().unicode_len() >= MIN_PASSWORD_LENGTH {
            Ok(Password(password))
        } else {
            Err(password.concat(" is not a valid password."))
        }
    }

    /// The password as text. Every `Password` meets the policy.
    pub fn as_str(&self) -> (r: &str)
        ensures
            r@ == self@,
            is_valid_password(self@),
    {
        proof {
            use_type_invariant(self);
        }
        self.0.as_str()
    }
}

impl Clone for Password {
    fn clone(&self) -> (r: Self)
        ensures
            r@ == self@,
    {
        proof {
            use_type_invariant(self);
        }
        Password(self.0.clone())
    }
}

impl PartialEq for Password {
    fn eq(&self, other: &Self) -> (r: bool) {
        self.0 == other.0
    }
}

impl Eq for Password {}

impl vstd::std_specs::cmp::PartialEqSpecImpl for Password {
    open spec fn obeys_eq_spec() -> bool {
        true
    }

    open spec fn eq_spec(&self, other: &Self) -> bool {
        self@ == other@
    }
}

} // verus!
