use vstd::prelude::*;

use crate::error::ValidationError;

verus! {

/// What `validator`'s email check answers for a string.
pub uninterp spec fn validate_email_of(s: Seq<char>) -> bool;

/// `s` is a non-empty local part, one `@` and a non-empty domain.
pub open spec fn has_email_shape(s: Seq<char>) -> bool {
    exists|i: int|
        0 < i < s.len() - 1 && #[trigger] s[i] == '@' && forall|j: int|
            0 <= j < s.len() && j != i ==> #[trigger] s[j] != '@'
}

/// Relies on `validator::ValidateEmail::validate_email` for `&str` (HTML5 address
/// syntax). Its source returns false for a string without `@`; it splits at the last
/// `@`, and the user part must match a non-empty class without `@`, the domain a
/// non-empty host name or address literal.
#[verifier::external_body]
fn validate_email(s: &str) -> (r: bool)
    ensures
        r == validate_email_of(s@),
        r ==> has_email_shape(s@),
{
    validator::ValidateEmail::validate_email(&s)
}

/// An email address that passed the syntax check. Comparison is by the exact
/// characters (case-sensitive).
#[derive(Debug)]
pub struct Email {
    value: String,
}

impl View for Email {
    type V = Seq<char>;

    closed spec fn view(&self) -> Seq<char> {
        self.value@
    }
}

impl Email {
    #[verifier::type_invariant]
    spec fn inv(self) -> bool {
        validate_email_of(self.value@)
    }

    /// Accepts `s` exactly when it is a syntactically valid email address.
    pub fn parse(s: String) -> (r: Result<Email, ValidationError>)
        ensures
            r is Ok <==> validate_email_of(s@),
            r matches Ok(e) ==> e@ == s@,
            r matches Err(e) ==> e == ValidationError::InvalidEmail,
            r is Ok ==> has_email_shape(s@),
    {
        if validate_email(s.as_str()) {
            Ok(Email { value: s })
        } else {
            Err(ValidationError::InvalidEmail)
        }
    }

    pub fn as_str(&self) -> (r: &str)
        ensures
            r@ == self@,
            validate_email_of(self@),
    {
        proof {
            use_type_invariant(self);
        }
        self.value.as_str()
    }

    pub fn to_string_value(&self) -> (r: String)
        ensures
            r@ == self@,
    {
        self.value.clone()
    }
}

impl Clone for Email {
    fn clone(&self) -> (r: Self)
        ensures
            r@ == self@,
    {
        proof {
            use_type_invariant(self);
        }
        Email { value: self.value.clone() }
    }
}

impl PartialEq for Email {
    fn eq(&self, o: &Email) -> (r: bool) {
        self.value == o.value
    }
}

impl vstd::std_specs::cmp::PartialEqSpecImpl for Email {
    open spec fn obeys_eq_spec() -> bool {
        true
    }

    open spec fn eq_spec(&self, o: &Email) -> bool {
        self@ == o@
    }
}

impl Eq for Email {}

} // verus!
