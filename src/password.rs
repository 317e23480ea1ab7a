use vstd::prelude::*;
use vstd::string::StrSliceExecFns;

use crate::error::ValidationError;

verus! {

/// The least number of characters in a password.
pub const MIN_PASSWORD_LEN: usize = 8;

/// A password is acceptable when it has at least eight characters.
pub open spec fn password_ok(s: Seq<char>) -> bool {
    s.len() >= MIN_PASSWORD_LEN
}

/// A password of acceptable length. Comparison is plain string equality.
#[derive(Debug)]
pub struct Password {
    value: String,
}

impl View for Password {
    type V = Seq<char>;

    closed spec fn view(&self) -> Seq<char> {
        self.value@
    }
}

pub fn validate_password(s: &str) -> (r: bool)
    ensures
        r == password_ok(s@),
{
    s.unicode_len() >= MIN_PASSWORD_LEN
}

impl Password {
    #[verifier::type_invariant]
    spec fn inv(self) -> bool {
        password_ok(self.value@)
    }

    /// Accepts `s` exactly when it has at least eight characters.
    pub fn parse(s: String) -> (r: Result<Password, ValidationError>)
        ensures
            r is Ok <==> password_ok(s@),
            r matches Ok(p) ==> p@ == s@,
            r matches Err(e) ==> e == ValidationError::InvalidPassword,
    {
        if validate_password(s.as_str()) {
            Ok(Password { value: s })
        } else {
            Err(ValidationError::InvalidPassword)
        }
    }

    pub fn as_str(&self) -> (r: &str)
        ensures
            r@ == self@,
            password_ok(self@),
    {
        proof {
            use_type_invariant(self);
        }
        self.value.as_str()
    }

    /// Whether `self` and `o` are the same password.
    pub fn matches(&self, o: &Password) -> (r: bool)
        ensures
            r == (self@ == o@),
    {
        self.value == o.value
    }
}

impl Clone for Password {
    fn clone(&self) -> (r: Self)
        ensures
            r@ == self@,
    {
        proof {
            use_type_invariant(self);
        }
        Password { value: self.value.clone() }
    }
}

impl PartialEq for Password {
    fn eq(&self, o: &Password) -> (r: bool) {
        self.value == o.value
    }
}

impl vstd::std_specs::cmp::PartialEqSpecImpl for Password {
    open spec fn obeys_eq_spec() -> bool {
        true
    }

    open spec fn eq_spec(&self, o: &Password) -> bool {
        self@ == o@
    }
}

} // verus!
