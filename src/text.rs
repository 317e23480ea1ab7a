use vstd::prelude::*;
use vstd::string::StringExecFns;

verus! {

/// Concatenation of two strings, as a new `String`.
pub fn concat_str(a: &str, b: &str) -> (r: String)
    ensures
        r@ == a@ + b@,
{
    let mut r = a.to_string();
    r.append(b);
    r
}

} // verus!
