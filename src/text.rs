use vstd::prelude::*;

verus! {

/// Relies on `String::push_str`: appends the characters of `t` to `s`.
#[verifier::external_body]
pub(crate) fn append(s: &mut String, t: &str)
    ensures
        final(s)@ == old(s)@ + t@,
{
    s.push_str(t)
}

/// `a` followed by `b`, as a new string.
pub fn concat2(a: &str, b: &str) -> (r: String)
    ensures
        r@ == a@ + b@,
{
    let mut r = a.to_owned();
    append(&mut r, b);
    r
}

/// `a` followed by `b` followed by `c`, as a new string.
pub fn concat3(a: &str, b: &str, c: &str) -> (r: String)
    ensures
        r@ == a@ + b@ + c@,
{
    let mut r = a.to_owned();
    append(&mut r, b);
    append(&mut r, c);
    r
}

} // verus!
