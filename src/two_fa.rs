use vstd::prelude::*;
use vstd::string::StrSliceExecFns;
use vstd::string::StringExecFns;

use crate::error::ValidationError;

verus! {

/// What `uuid::Uuid::parse_str` accepts.
pub uninterp spec fn uuid_text_of(s: Seq<char>) -> bool;

/// A character that UUID text may hold: ASCII letters and digits (hex digits,
/// and the `urn:uuid:` prefix in either case), `-`, `{`, `}` and `:`.
pub open spec fn is_uuid_char(c: char) -> bool {
    ('0' <= c && c <= '9') || ('a' <= c && c <= 'z') || ('A' <= c && c <= 'Z') || c == '-' || c
        == '{' || c == '}' || c == ':'
}

/// Text of UUID characters only.
pub open spec fn uuid_chars(s: Seq<char>) -> bool {
    forall|i: int| 0 <= i < s.len() ==> #[trigger] is_uuid_char(s[i])
}

/// Relies on `uuid::Uuid::parse_str`: whether the text is a UUID in one of the
/// simple, hyphenated, braced or URN forms, which are 32, 36, 38 or 45 ASCII
/// characters long, made of hex digits, hyphens, braces and the `urn:uuid:` prefix.
#[verifier::external_body]
fn is_uuid_text(s: &str) -> (r: bool)
    ensures
        r == uuid_text_of(s@),
        r ==> (s@.len() == 32 || s@.len() == 36 || s@.len() == 38 || s@.len() == 45),
        r ==> uuid_chars(s@),
{
    uuid::Uuid::parse_str(s).is_ok()
}

/// Relies on `uuid::Uuid::new_v4` and its hyphenated `Display` form (lower-case
/// hex digits and hyphens), which the crate documents as accepted by
/// `Uuid::parse_str`.
#[verifier::external_body]
fn new_uuid_text() -> (r: String)
    ensures
        uuid_text_of(r@),
        uuid_chars(r@),
        r@.len() == 36,
{
    uuid::Uuid::new_v4().to_string()
}

/// Relies on `rand::Rng::gen_range` over the inclusive range `lo..=hi`, which
/// panics only when the range is empty.
#[verifier::external_body]
fn random_in_range(lo: u32, hi: u32) -> (r: u32)
    requires
        lo <= hi,
    ensures
        lo <= r,
        r <= hi,
{
    rand::Rng::gen_range(&mut rand::thread_rng(), lo..=hi)
}

/// The identifier of one login that waits for its second factor.
#[derive(Debug)]
pub struct LoginAttemptId {
    value: String,
}

impl View for LoginAttemptId {
    type V = Seq<char>;

    closed spec fn view(&self) -> Seq<char> {
        self.value@
    }
}

impl LoginAttemptId {
    #[verifier::type_invariant]
    spec fn inv(self) -> bool {
        uuid_text_of(self.value@) && uuid_chars(self.value@)
    }

    /// Accepts `id` exactly when it is UUID text.
    pub fn parse(id: String) -> (r: Result<LoginAttemptId, ValidationError>)
        ensures
            r is Ok <==> uuid_text_of(id@),
            r matches Ok(a) ==> a@ == id@,
            r matches Err(e) ==> e == ValidationError::InvalidLoginAttemptId,
    {
        if is_uuid_text(id.as_str()) {
            Ok(LoginAttemptId { value: id })
        } else {
            Err(ValidationError::InvalidLoginAttemptId)
        }
    }

    /// A fresh random identifier.
    pub fn default() -> (r: LoginAttemptId)
        ensures
            uuid_text_of(r@),
            uuid_chars(r@),
            r@.len() == 36,
    {
        LoginAttemptId { value: new_uuid_text() }
    }

    pub fn as_str(&self) -> (r: &str)
        ensures
            r@ == self@,
            uuid_text_of(self@),
            uuid_chars(self@),
    {
        proof {
            use_type_invariant(self);
        }
        self.value.as_str()
    }

    /// Whether `self` and `o` are the same identifier.
    pub fn matches(&self, o: &LoginAttemptId) -> (r: bool)
        ensures
            r == (self@ == o@),
    {
        self.value == o.value
    }
}

impl Clone for LoginAttemptId {
    fn clone(&self) -> (r: Self)
        ensures
            r@ == self@,
            uuid_text_of(self@),
    {
        proof {
            use_type_invariant(self);
        }
        LoginAttemptId { value: self.value.clone() }
    }
}

impl PartialEq for LoginAttemptId {
    fn eq(&self, o: &LoginAttemptId) -> (r: bool) {
        self.value == o.value
    }
}

impl vstd::std_specs::cmp::PartialEqSpecImpl for LoginAttemptId {
    open spec fn obeys_eq_spec() -> bool {
        true
    }

    open spec fn eq_spec(&self, o: &LoginAttemptId) -> bool {
        self@ == o@
    }
}

/// The least and the greatest code that is drawn at random.
pub const TWO_FA_CODE_MIN: u32 = 100_000;

pub const TWO_FA_CODE_MAX: u32 = 999_999;

/// The number of digits in a second-factor code.
pub const TWO_FA_CODE_LEN: usize = 6;

pub open spec fn is_ascii_digit(c: char) -> bool {
    '0' <= c && c <= '9'
}

/// A second-factor code is exactly six ASCII decimal digits.
pub open spec fn two_fa_code_ok(s: Seq<char>) -> bool {
    &&& s.len() == TWO_FA_CODE_LEN
    &&& forall|i: int| 0 <= i < s.len() ==> #[trigger] is_ascii_digit(s[i])
}

/// The decimal digit of `d` (taken modulo ten) as a character.
pub open spec fn digit_char(d: int) -> char {
    ((d % 10) + 48) as char
}

/// The six decimal digits of `n`, most significant first.
pub open spec fn six_digits(n: int) -> Seq<char> {
    seq![
        digit_char(n / 100000),
        digit_char(n / 10000),
        digit_char(n / 1000),
        digit_char(n / 100),
        digit_char(n / 10),
        digit_char(n),
    ]
}

/// The character of one decimal digit, as a one-letter string.
fn digit_str(d: u32) -> (r: &'static str)
    requires
        d < 10,
    ensures
        r@ == seq![digit_char(d as int)],
{
    proof {
        reveal_strlit("0");
        reveal_strlit("1");
        reveal_strlit("2");
        reveal_strlit("3");
        reveal_strlit("4");
        reveal_strlit("5");
        reveal_strlit("6");
        reveal_strlit("7");
        reveal_strlit("8");
        reveal_strlit("9");
    }
    if d == 0 {
        "0"
    } else if d == 1 {
        "1"
    } else if d == 2 {
        "2"
    } else if d == 3 {
        "3"
    } else if d == 4 {
        "4"
    } else if d == 5 {
        "5"
    } else if d == 6 {
        "6"
    } else if d == 7 {
        "7"
    } else if d == 8 {
        "8"
    } else {
        "9"
    }
}

/// The six-digit text of `n`, with leading zeros.
pub fn six_digit_text(n: u32) -> (r: String)
    requires
        n <= 999_999,
    ensures
        r@ == six_digits(n as int),
        two_fa_code_ok(r@),
{
    let mut r = String::new();
    let mut div: u32 = 100_000;
    let mut k: usize = 0;
    while k < TWO_FA_CODE_LEN
        invariant
            k <= TWO_FA_CODE_LEN,
            r@ == six_digits(n as int).subrange(0, k as int),
            k == 0 ==> div == 100_000,
            k == 1 ==> div == 10_000,
            k == 2 ==> div == 1_000,
            k == 3 ==> div == 100,
            k == 4 ==> div == 10,
            k == 5 ==> div == 1,
        decreases TWO_FA_CODE_LEN - k,
    {
        let d = (n / div) % 10;
        r.append(digit_str(d));
        if k < 5 {
            div = div / 10;
        }
        k = k + 1;
    }
    assert(r@ == six_digits(n as int));
    r
}

/// A second-factor code: six decimal digits.
#[derive(Debug)]
pub struct TwoFACode {
    value: String,
}

impl View for TwoFACode {
    type V = Seq<char>;

    closed spec fn view(&self) -> Seq<char> {
        self.value@
    }
}

impl TwoFACode {
    #[verifier::type_invariant]
    spec fn inv(self) -> bool {
        two_fa_code_ok(self.value@)
    }

    /// Accepts `code` exactly when it is six ASCII decimal digits.
    pub fn parse(code: String) -> (r: Result<TwoFACode, ValidationError>)
        ensures
            r is Ok <==> two_fa_code_ok(code@),
            r matches Ok(c) ==> c@ == code@,
            r matches Err(e) ==> e == ValidationError::InvalidTwoFACode,
    {
        let n = code.as_str().unicode_len();
        if n != TWO_FA_CODE_LEN {
            return Err(ValidationError::InvalidTwoFACode);
        }
        let mut i: usize = 0;
        while i < n
            invariant
                n == code@.len(),
                i <= n,
                forall|j: int| 0 <= j < i ==> #[trigger] is_ascii_digit(code@[j]),
            decreases n - i,
        {
            let c = code.as_str().get_char(i);
            if !('0' <= c && c <= '9') {
                assert(!is_ascii_digit(code@[i as int]));
                return Err(ValidationError::InvalidTwoFACode);
            }
            i = i + 1;
        }
        Ok(TwoFACode { value: code })
    }

    /// A fresh random code between 100000 and 999999.
    pub fn default() -> (r: TwoFACode)
        ensures
            two_fa_code_ok(r@),
            exists|n: int| TWO_FA_CODE_MIN <= n <= TWO_FA_CODE_MAX && r@ == #[trigger] six_digits(n),
    {
        let n = random_in_range(TWO_FA_CODE_MIN, TWO_FA_CODE_MAX);
        let r = TwoFACode { value: six_digit_text(n) };
        assert(r@ == six_digits(n as int));
        r
    }

    pub fn as_str(&self) -> (r: &str)
        ensures
            r@ == self@,
            two_fa_code_ok(self@),
    {
        proof {
            use_type_invariant(self);
        }
        self.value.as_str()
    }

    /// Whether `self` and `o` are the same code.
    pub fn matches(&self, o: &TwoFACode) -> (r: bool)
        ensures
            r == (self@ == o@),
    {
        self.value == o.value
    }
}

impl Clone for TwoFACode {
    fn clone(&self) -> (r: Self)
        ensures
            r@ == self@,
            two_fa_code_ok(self@),
    {
        proof {
            use_type_invariant(self);
        }
        TwoFACode { value: self.value.clone() }
    }
}

impl PartialEq for TwoFACode {
    fn eq(&self, o: &TwoFACode) -> (r: bool) {
        self.value == o.value
    }
}

impl vstd::std_specs::cmp::PartialEqSpecImpl for TwoFACode {
    open spec fn obeys_eq_spec() -> bool {
        true
    }

    open spec fn eq_spec(&self, o: &TwoFACode) -> bool {
        self@ == o@
    }
}

} // verus!
