//! Small helpers for building strings character by character.

use vstd::prelude::*;

verus! {

/// Relies on String::push: appends one character to the string.
#[verifier::external_body]
pub fn push_char(s: &mut String, c: char)
    ensures
        final(s)@ == old(s)@.push(c),
{
    s.push(c)
}

/// Relies on char::from_u32: `Some` exactly for Unicode scalar values,
/// that is everything below 0x110000 except the surrogate range.
#[verifier::external_body]
pub fn char_from_u32(u: u32) -> (r: Option<char>)
    ensures
        r == if u < 0xD800 || (0xE000 <= u && u < 0x110000) {
            Some(u as char)
        } else {
            None::<char>
        },
{
    char::from_u32(u)
}

/// The characters of a string, as a vector.
pub fn str_chars(s: &str) -> (r: Vec<char>)
    ensures
        r@ == s@,
{
    let n = s.unicode_len();
    let mut r: Vec<char> = Vec::new();
    let mut i: usize = 0;
    while i < n
        invariant
            n == s@.len(),
            i <= n,
            r@ == s@.subrange(0, i as int),
        decreases n - i,
    {
        r.push(s.get_char(i));
        i = i + 1;
        proof {
            assert(r@ =~= s@.subrange(0, i as int));
        }
    }
    proof {
        assert(r@ =~= s@);
    }
    r
}

/// A string holding the given characters.
pub fn chars_to_string(v: &[char]) -> (r: String)
    ensures
        r@ == v@,
{
    let mut r = String::new();
    let mut i: usize = 0;
    while i < v.len()
        invariant
            i <= v@.len(),
            r@ == v@.subrange(0, i as int),
        decreases v@.len() - i,
    {
        push_char(&mut r, v[i]);
        i = i + 1;
        proof {
            assert(r@ =~= v@.subrange(0, i as int));
        }
    }
    proof {
        assert(r@ =~= v@);
    }
    r
}

} // verus!

verus! {

/// Relies on str's `==`: equality of the two strings' characters.
#[verifier::external_body]
pub fn str_eq(a: &str, b: &str) -> (r: bool)
    ensures
        r == (a@ == b@),
{
    a == b
}

} // verus!
