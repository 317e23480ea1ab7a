use vstd::prelude::*;

use crate::auth::TOKEN_TTL_SECONDS;
use crate::error::BannedTokenStoreError;
use crate::text::concat_str;

verus! {

/// The prefix of a banned token's key in the networked key-value store.
pub const BANNED_TOKEN_KEY_PREFIX: &'static str = "banned_token:";

/// How long, in seconds, the networked store keeps a ban: the token's own lifetime.
pub const BANNED_TOKEN_TTL_SECONDS: u64 = TOKEN_TTL_SECONDS as u64;

/// The networked store's key for a banned `token`.
pub fn get_key(token: &str) -> (r: String)
    ensures
        r@ == BANNED_TOKEN_KEY_PREFIX@ + token@,
{
    concat_str(BANNED_TOKEN_KEY_PREFIX, token)
}

/// The in-process revocation ledger: the set of banned tokens.
pub struct HashsetBannedTokenStore {
    tokens: Vec<String>,
    model: Ghost<Set<Seq<char>>>,
}

impl View for HashsetBannedTokenStore {
    type V = Set<Seq<char>>;

    closed spec fn view(&self) -> Set<Seq<char>> {
        self.model@
    }
}

impl HashsetBannedTokenStore {
    /// The entries are exactly the members of the set.
    pub closed spec fn wf(&self) -> bool {
        &&& forall|i: int|
            0 <= i < self.tokens@.len() ==> self.model@.contains(#[trigger] self.tokens@[i]@)
        &&& forall|k: Seq<char>|
            #[trigger] self.model@.contains(k) ==> exists|i: int|
                0 <= i < self.tokens@.len() && #[trigger] self.tokens@[i]@ == k
    }

    /// An empty ledger.
    pub fn new() -> (r: HashsetBannedTokenStore)
        ensures
            r.wf(),
            r@ == Set::<Seq<char>>::empty(),
    {
        HashsetBannedTokenStore { tokens: Vec::new(), model: Ghost(Set::empty()) }
    }

    fn holds(&self, token: &String) -> (r: bool)
        requires
            self.wf(),
        ensures
            r == self@.contains(token@),
    {
        let n = self.tokens.len();
        let mut i: usize = 0;
        while i < n
            invariant
                self.wf(),
                n == self.tokens@.len(),
                i <= n,
                forall|j: int| 0 <= j < i ==> #[trigger] self.tokens@[j]@ != token@,
            decreases n - i,
        {
            if self.tokens[i] == *token {
                return true;
            }
            i = i + 1;
        }
        proof {
            if self@.contains(token@) {
                let j = choose|j: int| 0 <= j < self.tokens@.len() && #[trigger] self.tokens@[j]@ == token@;
                assert(self.tokens@[j]@ != token@);
            }
        }
        false
    }

    /// Bans `token`; banning it again is no error.
    pub fn add_token(&mut self, token: String) -> (r: Result<(), BannedTokenStoreError>)
        requires
            old(self).wf(),
        ensures
            final(self).wf(),
            r is Ok,
            final(self)@ == old(self)@.insert(token@),
    {
        if self.holds(&token) {
            assert(self@.insert(token@) =~= self@);
            return Ok(());
        }
        let ghost old_tokens = self.tokens@;
        let ghost key = token@;
        self.model = Ghost(self.model@.insert(key));
        self.tokens.push(token);
        proof {
            assert forall|k: Seq<char>| #[trigger] self.model@.contains(k) implies exists|i: int|
                0 <= i < self.tokens@.len() && #[trigger] self.tokens@[i]@ == k by {
                if k == key {
                    assert(self.tokens@[old_tokens.len() as int]@ == k);
                } else {
                    let i = choose|i: int| 0 <= i < old_tokens.len() && #[trigger] old_tokens[i]@ == k;
                    assert(self.tokens@[i]@ == k);
                }
            }
            assert forall|i: int| 0 <= i < self.tokens@.len() implies self.model@.contains(
                #[trigger] self.tokens@[i]@,
            ) by {
                if i < old_tokens.len() {
                    assert(self.tokens@[i] == old_tokens[i]);
                }
            }
        }
        Ok(())
    }

    /// Whether `token` is banned.
    pub fn contains_token(&self, token: &str) -> (r: Result<bool, BannedTokenStoreError>)
        requires
            self.wf(),
        ensures
            r == Ok::<bool, BannedTokenStoreError>(self@.contains(token@)),
    {
        let t = token.to_string();
        Ok(self.holds(&t))
    }
}

impl Default for HashsetBannedTokenStore {
    fn default() -> (r: HashsetBannedTokenStore)
        ensures
            r.wf(),
            r@ == Set::<Seq<char>>::empty(),
    {
        HashsetBannedTokenStore::new()
    }
}

} // verus!
