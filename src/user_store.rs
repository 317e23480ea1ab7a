use vstd::prelude::*;

use crate::email::Email;
use crate::error::UserStoreError;
use crate::password::Password;
use crate::user::{user_record, User};

verus! {

/// The in-process account store. Its contents are a map from address to
/// (password, 2FA flag); no two entries share an address.
pub struct HashmapUserStore {
    users: Vec<User>,
    model: Ghost<Map<Seq<char>, (Seq<char>, bool)>>,
}

impl View for HashmapUserStore {
    type V = Map<Seq<char>, (Seq<char>, bool)>;

    closed spec fn view(&self) -> Map<Seq<char>, (Seq<char>, bool)> {
        self.model@
    }
}

impl HashmapUserStore {
    /// The entries and the map agree, and addresses are unique.
    pub closed spec fn wf(&self) -> bool {
        &&& forall|i: int|
            0 <= i < self.users@.len() ==> {
                &&& self.model@.contains_key(#[trigger] self.users@[i].email@)
                &&& self.model@[self.users@[i].email@] == user_record(self.users@[i])
            }
        &&& forall|k: Seq<char>|
            #[trigger] self.model@.contains_key(k) ==> exists|i: int|
                0 <= i < self.users@.len() && #[trigger] self.users@[i].email@ == k
        &&& forall|i: int, j: int|
            0 <= i < j < self.users@.len() ==> #[trigger] self.users@[i].email@
                != #[trigger] self.users@[j].email@
    }

    /// An empty store.
    pub fn new() -> (r: HashmapUserStore)
        ensures
            r.wf(),
            r@ == Map::<Seq<char>, (Seq<char>, bool)>::empty(),
    {
        HashmapUserStore { users: Vec::new(), model: Ghost(Map::empty()) }
    }

    /// The position of the entry for `email`, if there is one.
    fn find(&self, email: &Email) -> (r: Option<usize>)
        requires
            self.wf(),
        ensures
            r matches Some(i) ==> i < self.users@.len() && self.users@[i as int].email@ == email@,
            r is Some <==> self@.contains_key(email@),
    {
        let n = self.users.len();
        let mut i: usize = 0;
        while i < n
            invariant
                self.wf(),
                n == self.users@.len(),
                i <= n,
                forall|j: int| 0 <= j < i ==> #[trigger] self.users@[j].email@ != email@,
            decreases n - i,
        {
            if self.users[i].email == *email {
                return Some(i);
            }
            i = i + 1;
        }
        proof {
            if self@.contains_key(email@) {
                let j = choose|j: int| 0 <= j < self.users@.len() && #[trigger] self.users@[j].email@ == email@;
                assert(self.users@[j].email@ != email@);
            }
        }
        None
    }

    /// Adds `user` unless its address is taken.
    pub fn add_user(&mut self, user: User) -> (r: Result<(), UserStoreError>)
        requires
            old(self).wf(),
        ensures
            final(self).wf(),
            old(self)@.contains_key(user.email@) ==> r == Err::<(), UserStoreError>(
                UserStoreError::UserAlreadyExists,
            ) && final(self)@ == old(self)@,
            !old(self)@.contains_key(user.email@) ==> r is Ok && final(self)@ == old(self)@.insert(
                user.email@,
                user_record(user),
            ),
    {
        if self.find(&user.email).is_some() {
            return Err(UserStoreError::UserAlreadyExists);
        }
        let ghost old_users = self.users@;
        let ghost key = user.email@;
        let ghost rec = user_record(user);
        self.model = Ghost(self.model@.insert(key, rec));
        self.users.push(user);
        proof {
            assert(self.users@ == old_users.push(self.users@[old_users.len() as int]));
            assert forall|k: Seq<char>| #[trigger] self.model@.contains_key(k) implies exists|i: int|
                0 <= i < self.users@.len() && #[trigger] self.users@[i].email@ == k by {
                if k == key {
                    assert(self.users@[old_users.len() as int].email@ == k);
                } else {
                    let i = choose|i: int| 0 <= i < old_users.len() && #[trigger] old_users[i].email@ == k;
                    assert(self.users@[i].email@ == k);
                }
            }
            assert forall|i: int, j: int|
                0 <= i < j < self.users@.len() implies #[trigger] self.users@[i].email@
                != #[trigger] self.users@[j].email@ by {
                if j == old_users.len() {
                    assert(old_users[i].email@ != key) by {
                        assert(self.model@.contains_key(old_users[i].email@));
                    }
                }
            }
        }
        Ok(())
    }

    /// The account stored under `email`.
    pub fn get_user(&self, email: &Email) -> (r: Result<User, UserStoreError>)
        requires
            self.wf(),
        ensures
            r is Ok <==> self@.contains_key(email@),
            r matches Ok(u) ==> u.email@ == email@ && user_record(u) == self@[email@],
            r matches Err(e) ==> e == UserStoreError::UserNotFound,
    {
        match self.find(email) {
            Some(i) => Ok(self.users[i].clone()),
            None => Err(UserStoreError::UserNotFound),
        }
    }

    /// Succeeds only when an account for `email` exists and its password is `password`.
    pub fn validate_user(&self, email: &Email, password: &Password) -> (r: Result<
        (),
        UserStoreError,
    >)
        requires
            self.wf(),
        ensures
            !self@.contains_key(email@) ==> r == Err::<(), UserStoreError>(
                UserStoreError::UserNotFound,
            ),
            self@.contains_key(email@) && self@[email@].0 == password@ ==> r is Ok,
            self@.contains_key(email@) && self@[email@].0 != password@ ==> r == Err::<
                (),
                UserStoreError,
            >(UserStoreError::InvalidCredentials),
    {
        match self.find(email) {
            Some(i) => {
                if self.users[i].password.matches(password) {
                    Ok(())
                } else {
                    Err(UserStoreError::InvalidCredentials)
                }
            },
            None => Err(UserStoreError::UserNotFound),
        }
    }
}

impl Default for HashmapUserStore {
    fn default() -> (r: HashmapUserStore)
        ensures
            r.wf(),
            r@ == Map::<Seq<char>, (Seq<char>, bool)>::empty(),
    {
        HashmapUserStore::new()
    }
}

} // verus!
