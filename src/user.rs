use vstd::prelude::*;

use crate::email::Email;
use crate::password::Password;

verus! {

/// An account: its address, its password, and whether login asks for a second factor.
#[derive(Debug)]
pub struct User {
    pub email: Email,
    pub password: Password,
    pub require_2fa: bool,
}

/// What the account store keeps for one address: the password and the 2FA flag.
pub open spec fn user_record(u: User) -> (Seq<char>, bool) {
    (u.password@, u.require_2fa)
}

impl User {
    pub fn new(email: Email, password: Password, require_2fa: bool) -> (r: User)
        ensures
            r.email@ == email@,
            r.password@ == password@,
            r.require_2fa == require_2fa,
    {
        User { email, password, require_2fa }
    }
}

impl Clone for User {
    fn clone(&self) -> (r: Self)
        ensures
            r.email@ == self.email@,
            r.password@ == self.password@,
            r.require_2fa == self.require_2fa,
    {
        User {
            email: self.email.clone(),
            password: self.password.clone(),
            require_2fa: self.require_2fa,
        }
    }
}

impl PartialEq for User {
    fn eq(&self, o: &User) -> (r: bool) {
        self.email == o.email && self.password == o.password && self.require_2fa == o.require_2fa
    }
}

impl vstd::std_specs::cmp::PartialEqSpecImpl for User {
    open spec fn obeys_eq_spec() -> bool {
        true
    }

    open spec fn eq_spec(&self, o: &User) -> bool {
        self.email@ == o.email@ && self.password@ == o.password@ && self.require_2fa
            == o.require_2fa
    }
}

} // verus!
