use vstd::prelude::*;
use vstd::string::StrSliceExecFns;

verus! {

/// `String::push_str`: the string grows by exactly the characters of `tail`,
/// as std documents.
#[verifier::external_body]
pub(crate) fn push_str(s: &mut String, tail: &str)
    ensures
        final(s)@ == old(s)@ + tail@,
{
    s.push_str(tail);
}

/// Appends the characters of `tail`, which is a `String`.
pub(crate) fn push_string(s: &mut String, tail: &String)
    ensures
        final(s)@ == old(s)@ + tail@,
{
    push_str(s, tail.as_str());
}

} // verus!

verus! {

/// `String::push`: the string grows by exactly `c`, as std documents.
#[verifier::external_body]
pub(crate) fn push_char(s: &mut String, c: char)
    ensures
        final(s)@ == old(s)@.push(c),
{
    s.push(c);
}

/// The characters of a string, one by one.
pub(crate) fn chars_of(s: &String) -> (r: Vec<char>)
    ensures
        r@ == s@,
{
    let text = s.as_str();
    let n = text.unicode_len();
    let mut out: Vec<char> = Vec::new();
    let mut i: usize = 0;
    while i < n
        invariant
            n == text@.len(),
            text@ == s@,
            i <= n,
            out@ == text@.take(i as int),
        decreases n - i,
    {
        let c = text.get_char(i);
        out.push(c);
        assert(text@.take(i + 1) =~= text@.take(i as int).push(c));
        i = i + 1;
    }
    assert(text@.take(n as int) =~= text@);
    out
}

/// A string made of the given characters.
pub(crate) fn string_of(chars: &Vec<char>) -> (r: String)
    ensures
        r@ == chars@,
{
    let mut out = String::new();
    let mut i: usize = 0;
    while i < chars.len()
        invariant
            i <= chars.len(),
            out@ == chars@.take(i as int),
        decreases chars.len() - i,
    {
        push_char(&mut out, chars[i]);
        assert(chars@.take(i + 1) =~= chars@.take(i as int).push(chars@[i as int]));
        i = i + 1;
    }
    assert(chars@.take(chars.len() as int) =~= chars@);
    out
}

} // verus!
