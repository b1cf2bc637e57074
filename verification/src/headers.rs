//! Header maps. An entry whose name or value is not a legal HTTP header
//! name or value is dropped, not an error: the request goes out without it.

use vstd::prelude::*;

verus! {

/// Characters allowed in an HTTP header name (an HTTP token).
pub open spec fn is_token_char(c: char) -> bool {
    let u = c as u32;
    (48 <= u <= 57) || (65 <= u <= 90) || (97 <= u <= 122) || c == '!' || c == '#' || c == '$'
        || c == '%' || c == '&' || c == '\'' || c == '*' || c == '+' || c == '-' || c == '.'
        || c == '^' || c == '_' || c == '`' || c == '|' || c == '~'
}

pub open spec fn valid_header_name(s: Seq<char>) -> bool {
    s.len() > 0 && forall|i: int| 0 <= i < s.len() ==> is_token_char(#[trigger] s[i])
}

/// Characters allowed in an HTTP header value: no control characters but
/// the horizontal tab.
pub open spec fn is_value_char(c: char) -> bool {
    let u = c as u32;
    u == 9 || (32 <= u && u != 127)
}

pub open spec fn valid_header_value(s: Seq<char>) -> bool {
    forall|i: int| 0 <= i < s.len() ==> is_value_char(#[trigger] s[i])
}

pub open spec fn valid_header(name: Seq<char>, value: Seq<char>) -> bool {
    valid_header_name(name) && valid_header_value(value)
}

/// The model of a header list: each entry as its characters.
pub open spec fn headers_model(hs: Seq<(String, String)>) -> Seq<(Seq<char>, Seq<char>)> {
    Seq::new(
        hs.len(),
        |i: int|
            if 0 <= i < hs.len() {
                (hs[i].0@, hs[i].1@)
            } else {
                (Seq::empty(), Seq::empty())
            },
    )
}

/// The first `k` entries, with the invalid ones dropped.
pub open spec fn sanitized_prefix(hs: Seq<(Seq<char>, Seq<char>)>, k: int) -> Seq<
    (Seq<char>, Seq<char>),
>
    decreases k,
{
    if k <= 0 || k > hs.len() {
        Seq::empty()
    } else {
        sanitized_prefix(hs, k - 1) + if valid_header(hs[k - 1].0, hs[k - 1].1) {
            seq![hs[k - 1]]
        } else {
            Seq::empty()
        }
    }
}

/// A header list with the invalid entries dropped, order kept.
pub open spec fn sanitized(hs: Seq<(Seq<char>, Seq<char>)>) -> Seq<(Seq<char>, Seq<char>)> {
    sanitized_prefix(hs, hs.len() as int)
}

fn check_header_name(s: &str) -> (b: bool)
    ensures
        b == valid_header_name(s@),
{
    let n = s.unicode_len();
    if n == 0 {
        return false;
    }
    let mut i: usize = 0;
    while i < n
        invariant
            n == s@.len(),
            i <= n,
            forall|k: int| 0 <= k < i ==> is_token_char(#[trigger] s@[k]),
        decreases n - i,
    {
        let c = s.get_char(i);
        let u = c as u32;
        let ok = (48 <= u && u <= 57) || (65 <= u && u <= 90) || (97 <= u && u <= 122) || c == '!'
            || c == '#' || c == '$' || c == '%' || c == '&' || c == '\'' || c == '*' || c == '+'
            || c == '-' || c == '.' || c == '^' || c == '_' || c == '`' || c == '|' || c == '~';
        if !ok {
            return false;
        }
        i = i + 1;
    }
    true
}

fn check_header_value(s: &str) -> (b: bool)
    ensures
        b == valid_header_value(s@),
{
    let n = s.unicode_len();
    let mut i: usize = 0;
    while i < n
        invariant
            n == s@.len(),
            i <= n,
            forall|k: int| 0 <= k < i ==> is_value_char(#[trigger] s@[k]),
        decreases n - i,
    {
        let c = s.get_char(i);
        let u = c as u32;
        if !(u == 9 || (32 <= u && u != 127)) {
            return false;
        }
        i = i + 1;
    }
    true
}

/// Drops every entry whose name or value is not a legal header name or
/// value; the rest keep their order.
pub fn sanitize_headers(hs: Vec<(String, String)>) -> (r: Vec<(String, String)>)
    ensures
        headers_model(r@) == sanitized(headers_model(hs@)),
{
    let ghost m = headers_model(hs@);
    let mut r: Vec<(String, String)> = Vec::new();
    let mut i: usize = 0;
    proof {
        assert(headers_model(r@) =~= sanitized_prefix(m, 0));
    }
    while i < hs.len()
        invariant
            i <= hs@.len(),
            m == headers_model(hs@),
            m.len() == hs@.len(),
            headers_model(r@) == sanitized_prefix(m, i as int),
            forall|k: int|
                0 <= k < hs@.len() ==> #[trigger] m[k] == (hs@[k].0@, hs@[k].1@),
        decreases hs@.len() - i,
    {
        let name_ok = check_header_name(hs[i].0.as_str());
        let value_ok = check_header_value(hs[i].1.as_str());
        if name_ok && value_ok {
            let name = hs[i].0.clone();
            let value = hs[i].1.clone();
            r.push((name, value));
        }
        i = i + 1;
        proof {
            assert(headers_model(r@) =~= sanitized_prefix(m, i as int));
        }
    }
    proof {
        assert(headers_model(r@) =~= sanitized(m));
    }
    r
}

} // verus!
