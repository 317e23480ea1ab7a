use vstd::prelude::*;

use crate::email::Email;
use crate::error::TwoFACodeStoreError;
use crate::text::concat_str;
use crate::two_fa::{two_fa_code_ok, uuid_text_of, LoginAttemptId, TwoFACode};

verus! {

/// `serde_json::Error`, carried only to be mapped to `TwoFACodeStoreError`.
#[verifier::external_type_specification]
#[verifier::external_body]
pub struct ExJsonError(serde_json::Error);

/// What `serde_json::from_str` reads from text as a pair of strings, if anything.
pub uninterp spec fn json_pair_from(s: Seq<char>) -> Option<(Seq<char>, Seq<char>)>;

/// Text that JSON writes inside quotes unchanged: no `"`, no `\\` and no control
/// character.
pub open spec fn json_plain(s: Seq<char>) -> bool {
    forall|i: int| 0 <= i < s.len() ==> #[trigger] s[i] != '"' && s[i] != '\\' && s[i] >= ' '
}

/// The compact JSON array of the two strings `a` and `b`, both plain.
pub open spec fn pair_text(a: Seq<char>, b: Seq<char>) -> Seq<char> {
    "[\""@ + a + "\",\""@ + b + "\"]"@
}

/// Relies on `serde_json::to_string` on a pair of strings: a tuple is written as a
/// compact array, a string in quotes with only control characters, `"` and `\\`
/// escaped; writing strings cannot fail.
#[verifier::external_body]
fn encode_pair(a: &str, b: &str) -> (r: Result<String, serde_json::Error>)
    requires
        json_plain(a@),
        json_plain(b@),
    ensures
        r is Ok,
        r matches Ok(s) ==> s@ == pair_text(a@, b@),
{
    serde_json::to_string(&(a, b))
}

/// `r` is the pair of strings `a` and `b`.
pub open spec fn read_as_pair(r: Result<(String, String), serde_json::Error>, a: Seq<char>, b: Seq<char>) -> bool {
    r matches Ok(p) && p.0@ == a && p.1@ == b
}

/// Relies on `serde_json::from_str` into a pair of strings; the compact array of
/// two plain strings reads back as those strings.
#[verifier::external_body]
fn decode_pair(s: &str) -> (r: Result<(String, String), serde_json::Error>)
    ensures
        r is Ok <==> json_pair_from(s@) is Some,
        r matches Ok(p) ==> json_pair_from(s@) == Some((p.0@, p.1@)),
        forall|a: Seq<char>, b: Seq<char>|
            #![trigger pair_text(a, b)]
            json_plain(a) && json_plain(b) && s@ == pair_text(a, b) ==> read_as_pair(r, a, b),
{
    serde_json::from_str::<(String, String)>(s)
}

/// The prefix of a challenge's key in the networked key-value store.
pub const TWO_FA_CODE_PREFIX: &'static str = "two_fa_code:";

/// How long, in seconds, a challenge lives in the networked store.
pub const TEN_MINUTES_IN_SECONDS: u64 = 600;

/// The networked store's key for the challenge of `email`.
pub fn get_key(email: &Email) -> (r: String)
    ensures
        r@ == TWO_FA_CODE_PREFIX@ + email@,
{
    concat_str(TWO_FA_CODE_PREFIX, email.as_str())
}

/// The text under which the networked store keeps a challenge: the pair
/// (attempt id, code) as JSON.
pub fn stored_code_value(login_attempt_id: &LoginAttemptId, code: &TwoFACode) -> (r: Result<
    String,
    TwoFACodeStoreError,
>)
    ensures
        r is Ok,
        r matches Ok(s) ==> s@ == pair_text(login_attempt_id@, code@),
{
    let id = login_attempt_id.as_str();
    let c = code.as_str();
    assert(json_plain(id@) && json_plain(c@)) by {
        assert forall|i: int| 0 <= i < c@.len() implies #[trigger] c@[i] != '"' && c@[i] != '\\'
            && c@[i] >= ' ' by {
            assert(crate::two_fa::is_ascii_digit(c@[i]));
        }
        assert forall|i: int| 0 <= i < id@.len() implies #[trigger] id@[i] != '"' && id@[i] != '\\'
            && id@[i] >= ' ' by {
            assert(crate::two_fa::is_uuid_char(id@[i]));
        }
    }
    match encode_pair(id, c) {
        Ok(s) => Ok(s),
        Err(_) => Err(TwoFACodeStoreError::UnexpectedError),
    }
}

/// `raw` is the stored text of the challenge (`id`, `code`): what
/// `stored_code_value` writes.
pub open spec fn is_stored_code(raw: Seq<char>, id: Seq<char>, code: Seq<char>) -> bool {
    &&& uuid_text_of(id) && json_plain(id)
    &&& two_fa_code_ok(code) && json_plain(code)
    &&& raw == pair_text(id, code)
}

/// Reads back a stored challenge; text that is not a pair of a valid attempt id
/// and a valid code is an unexpected error. The text that `stored_code_value`
/// wrote reads back as the same pair.
pub fn parse_stored_code(raw: &str) -> (r: Result<(LoginAttemptId, TwoFACode), TwoFACodeStoreError>)
    ensures
        forall|id: Seq<char>, code: Seq<char>| #[trigger]
            is_stored_code(raw@, id, code) ==> (r matches Ok(p) && p.0@ == id && p.1@ == code),
        r is Ok <==> (json_pair_from(raw@) matches Some(p) && uuid_text_of(p.0) && two_fa_code_ok(
            p.1,
        )),
        r matches Ok(p) ==> json_pair_from(raw@) == Some((p.0@, p.1@)),
        r matches Err(e) ==> e == TwoFACodeStoreError::UnexpectedError,
{
    let (id, code) = match decode_pair(raw) {
        Ok(p) => p,
        Err(_) => return Err(TwoFACodeStoreError::UnexpectedError),
    };
    let id = match LoginAttemptId::parse(id) {
        Ok(i) => i,
        Err(_) => return Err(TwoFACodeStoreError::UnexpectedError),
    };
    let code = match TwoFACode::parse(code) {
        Ok(c) => c,
        Err(_) => return Err(TwoFACodeStoreError::UnexpectedError),
    };
    Ok((id, code))
}

/// The outcome of a lookup in the networked store: nothing stored means no
/// challenge; stored text is read back.
pub fn stored_code_from_lookup(found: Option<String>) -> (r: Result<
    (LoginAttemptId, TwoFACode),
    TwoFACodeStoreError,
>)
    ensures
        found is None ==> r == Err::<(LoginAttemptId, TwoFACode), TwoFACodeStoreError>(
            TwoFACodeStoreError::LoginAttemptIdNotFound,
        ),
        found matches Some(s) ==> {
            &&& r is Ok <==> (json_pair_from(s@) matches Some(p) && uuid_text_of(p.0)
                && two_fa_code_ok(p.1))
            &&& r matches Ok(p) ==> json_pair_from(s@) == Some((p.0@, p.1@))
            &&& r matches Err(e) ==> e == TwoFACodeStoreError::UnexpectedError
            &&& forall|id: Seq<char>, code: Seq<char>| #[trigger]
                is_stored_code(s@, id, code) ==> (r matches Ok(p) && p.0@ == id && p.1@ == code)
        },
{
    match found {
        Some(s) => parse_stored_code(s.as_str()),
        None => Err(TwoFACodeStoreError::LoginAttemptIdNotFound),
    }
}

/// The outcome of deleting a challenge from the networked store, given how many
/// keys the deletion removed: none means there was no challenge.
pub fn removed_code_outcome(removed: u64) -> (r: Result<(), TwoFACodeStoreError>)
    ensures
        removed == 0 ==> r == Err::<(), TwoFACodeStoreError>(
            TwoFACodeStoreError::LoginAttemptIdNotFound,
        ),
        removed > 0 ==> r is Ok,
{
    if removed == 0 {
        Err(TwoFACodeStoreError::LoginAttemptIdNotFound)
    } else {
        Ok(())
    }
}

struct Challenge {
    email: Email,
    login_attempt_id: LoginAttemptId,
    code: TwoFACode,
}

/// The in-process challenge store: at most one (attempt id, code) pair per address.
pub struct HashmapTwoFACodeStore {
    codes: Vec<Challenge>,
    model: Ghost<Map<Seq<char>, (Seq<char>, Seq<char>)>>,
}

impl View for HashmapTwoFACodeStore {
    type V = Map<Seq<char>, (Seq<char>, Seq<char>)>;

    closed spec fn view(&self) -> Map<Seq<char>, (Seq<char>, Seq<char>)> {
        self.model@
    }
}

impl HashmapTwoFACodeStore {
    /// The entries and the map agree, and addresses are unique.
    pub closed spec fn wf(&self) -> bool {
        &&& forall|i: int|
            0 <= i < self.codes@.len() ==> {
                &&& self.model@.contains_key(#[trigger] self.codes@[i].email@)
                &&& self.model@[self.codes@[i].email@] == (
                    self.codes@[i].login_attempt_id@,
                    self.codes@[i].code@,
                )
            }
        &&& forall|k: Seq<char>|
            #[trigger] self.model@.contains_key(k) ==> exists|i: int|
                0 <= i < self.codes@.len() && #[trigger] self.codes@[i].email@ == k
        &&& forall|i: int, j: int|
            0 <= i < j < self.codes@.len() ==> #[trigger] self.codes@[i].email@
                != #[trigger] self.codes@[j].email@
    }

    /// An empty store.
    pub fn new() -> (r: HashmapTwoFACodeStore)
        ensures
            r.wf(),
            r@ == Map::<Seq<char>, (Seq<char>, Seq<char>)>::empty(),
    {
        HashmapTwoFACodeStore { codes: Vec::new(), model: Ghost(Map::empty()) }
    }

    fn find(&self, email: &Email) -> (r: Option<usize>)
        requires
            self.wf(),
        ensures
            r matches Some(i) ==> i < self.codes@.len() && self.codes@[i as int].email@ == email@,
            r is Some <==> self@.contains_key(email@),
    {
        let n = self.codes.len();
        let mut i: usize = 0;
        while i < n
            invariant
                self.wf(),
                n == self.codes@.len(),
                i <= n,
                forall|j: int| 0 <= j < i ==> #[trigger] self.codes@[j].email@ != email@,
            decreases n - i,
        {
            if self.codes[i].email == *email {
                return Some(i);
            }
            i = i + 1;
        }
        proof {
            if self@.contains_key(email@) {
                let j = choose|j: int| 0 <= j < self.codes@.len() && #[trigger] self.codes@[j].email@ == email@;
                assert(self.codes@[j].email@ != email@);
            }
        }
        None
    }

    /// Records the challenge of `email`, replacing any earlier one.
    pub fn add_code(&mut self, email: Email, login_attempt_id: LoginAttemptId, code: TwoFACode) -> (r:
        Result<(), TwoFACodeStoreError>)
        requires
            old(self).wf(),
        ensures
            final(self).wf(),
            r is Ok,
            final(self)@ == old(self)@.insert(email@, (login_attempt_id@, code@)),
    {
        let ghost old_codes = self.codes@;
        let ghost key = email@;
        let ghost val = (login_attempt_id@, code@);
        let found = self.find(&email);
        let entry = Challenge { email, login_attempt_id, code };
        self.model = Ghost(self.model@.insert(key, val));
        match found {
            Some(i) => {
                self.codes.set(i, entry);
                proof {
                    assert forall|k: Seq<char>| #[trigger] self.model@.contains_key(k) implies exists|
                        j: int,
                    | 0 <= j < self.codes@.len() && #[trigger] self.codes@[j].email@ == k by {
                        if k == key {
                            assert(self.codes@[i as int].email@ == k);
                        } else {
                            let j = choose|j: int|
                                0 <= j < old_codes.len() && #[trigger] old_codes[j].email@ == k;
                            assert(self.codes@[j].email@ == k);
                        }
                    }
                    assert forall|a: int, b: int|
                        0 <= a < b < self.codes@.len() implies #[trigger] self.codes@[a].email@
                        != #[trigger] self.codes@[b].email@ by {
                        assert(old_codes[a].email@ != old_codes[b].email@);
                    }
                }
            },
            None => {
                self.codes.push(entry);
                proof {
                    assert forall|k: Seq<char>| #[trigger] self.model@.contains_key(k) implies exists|
                        j: int,
                    | 0 <= j < self.codes@.len() && #[trigger] self.codes@[j].email@ == k by {
                        if k == key {
                            assert(self.codes@[old_codes.len() as int].email@ == k);
                        } else {
                            let j = choose|j: int|
                                0 <= j < old_codes.len() && #[trigger] old_codes[j].email@ == k;
                            assert(self.codes@[j].email@ == k);
                        }
                    }
                    assert forall|a: int, b: int|
                        0 <= a < b < self.codes@.len() implies #[trigger] self.codes@[a].email@
                        != #[trigger] self.codes@[b].email@ by {
                        if b == old_codes.len() {
                            assert(self.model@.contains_key(old_codes[a].email@));
                        }
                    }
                }
            },
        }
        Ok(())
    }

    /// Deletes the challenge of `email`.
    pub fn remove_code(&mut self, email: &Email) -> (r: Result<(), TwoFACodeStoreError>)
        requires
            old(self).wf(),
        ensures
            final(self).wf(),
            r is Ok <==> old(self)@.contains_key(email@),
            r matches Err(e) ==> e == TwoFACodeStoreError::LoginAttemptIdNotFound,
            final(self)@ == old(self)@.remove(email@),
    {
        match self.find(email) {
            Some(i) => {
                let ghost old_codes = self.codes@;
                let ghost key = email@;
                self.model = Ghost(self.model@.remove(key));
                self.codes.remove(i);
                proof {
                    assert forall|a: int| 0 <= a < self.codes@.len() implies {
                        &&& self.model@.contains_key(#[trigger] self.codes@[a].email@)
                        &&& self.model@[self.codes@[a].email@] == (
                            self.codes@[a].login_attempt_id@,
                            self.codes@[a].code@,
                        )
                    } by {
                        if a < i {
                            assert(self.codes@[a] == old_codes[a]);
                            assert(old_codes[a].email@ != old_codes[i as int].email@);
                        } else {
                            assert(self.codes@[a] == old_codes[a + 1]);
                            assert(old_codes[a + 1].email@ != old_codes[i as int].email@);
                        }
                    }
                    assert forall|k: Seq<char>| #[trigger] self.model@.contains_key(k) implies exists|
                        j: int,
                    | 0 <= j < self.codes@.len() && #[trigger] self.codes@[j].email@ == k by {
                        let j = choose|j: int|
                            0 <= j < old_codes.len() && #[trigger] old_codes[j].email@ == k;
                        if j < i {
                            assert(self.codes@[j].email@ == k);
                        } else {
                            assert(j != i);
                            assert(self.codes@[j - 1].email@ == k);
                        }
                    }
                    assert forall|a: int, b: int|
                        0 <= a < b < self.codes@.len() implies #[trigger] self.codes@[a].email@
                        != #[trigger] self.codes@[b].email@ by {
                        let a2 = if a < i { a } else { a + 1 };
                        let b2 = if b < i { b } else { b + 1 };
                        assert(self.codes@[a] == old_codes[a2]);
                        assert(self.codes@[b] == old_codes[b2]);
                        assert(old_codes[a2].email@ != old_codes[b2].email@);
                    }
                }
                Ok(())
            },
            None => {
                assert(self@.remove(email@) =~= self@);
                Err(TwoFACodeStoreError::LoginAttemptIdNotFound)
            },
        }
    }

    /// The challenge of `email`.
    pub fn get_code(&self, email: &Email) -> (r: Result<(LoginAttemptId, TwoFACode), TwoFACodeStoreError>)
        requires
            self.wf(),
        ensures
            r is Ok <==> self@.contains_key(email@),
            r matches Ok(p) ==> self@[email@] == (p.0@, p.1@),
            r matches Err(e) ==> e == TwoFACodeStoreError::LoginAttemptIdNotFound,
    {
        match self.find(email) {
            Some(i) => Ok((self.codes[i].login_attempt_id.clone(), self.codes[i].code.clone())),
            None => Err(TwoFACodeStoreError::LoginAttemptIdNotFound),
        }
    }
}

impl Default for HashmapTwoFACodeStore {
    fn default() -> (r: HashmapTwoFACodeStore)
        ensures
            r.wf(),
            r@ == Map::<Seq<char>, (Seq<char>, Seq<char>)>::empty(),
    {
        HashmapTwoFACodeStore::new()
    }
}

} // verus!
