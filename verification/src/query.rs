//! Building request URLs: query parameters are appended in
//! `application/x-www-form-urlencoded` form, and a parameter that is not
//! given is not written at all.

use vstd::prelude::*;
use crate::json::hex_char;
use crate::json::hex_char_e;
use crate::text::push_char;

verus! {

/// Characters that form-encoding writes as themselves.
pub open spec fn is_unreserved(c: char) -> bool {
    let u = c as u32;
    (48 <= u <= 57) || (65 <= u <= 90) || (97 <= u <= 122) || c == '*' || c == '-' || c == '.'
        || c == '_'
}

/// The UTF-8 bytes of one character.
pub open spec fn utf8_bytes(c: char) -> Seq<u8> {
    let u = c as u32;
    if u < 0x80 {
        seq![u as u8]
    } else if u < 0x800 {
        seq![(0xC0 + u / 64) as u8, (0x80 + u % 64) as u8]
    } else if u < 0x10000 {
        seq![(0xE0 + u / 4096) as u8, (0x80 + (u / 64) % 64) as u8, (0x80 + u % 64) as u8]
    } else {
        seq![
            (0xF0 + u / 0x40000) as u8,
            (0x80 + (u / 4096) % 64) as u8,
            (0x80 + (u / 64) % 64) as u8,
            (0x80 + u % 64) as u8,
        ]
    }
}

/// One byte, percent-encoded: `%` and two uppercase hexadecimal digits.
pub open spec fn pct(b: u8) -> Seq<char> {
    seq!['%', hex_char((b / 16) as u32), hex_char((b % 16) as u32)]
}

/// The percent-encoding of the first `k` bytes.
pub open spec fn pct_bytes(bs: Seq<u8>, k: int) -> Seq<char>
    decreases k,
{
    if k <= 0 || k > bs.len() {
        Seq::empty()
    } else {
        pct_bytes(bs, k - 1) + pct(bs[k - 1])
    }
}

/// How one character is written in a query string: itself if unreserved,
/// `+` for a space, and its percent-encoded UTF-8 bytes otherwise.
pub open spec fn enc_char(c: char) -> Seq<char> {
    if c == ' ' {
        seq!['+']
    } else if is_unreserved(c) {
        seq![c]
    } else {
        pct_bytes(utf8_bytes(c), utf8_bytes(c).len() as int)
    }
}

/// The form-encoding of the first `k` characters of `s`.
pub open spec fn form_encoded_prefix(s: Seq<char>, k: int) -> Seq<char>
    decreases k,
{
    if k <= 0 || k > s.len() {
        Seq::empty()
    } else {
        form_encoded_prefix(s, k - 1) + enc_char(s[k - 1])
    }
}

/// The form-encoding of a whole string.
pub open spec fn form_encoded(s: Seq<char>) -> Seq<char> {
    form_encoded_prefix(s, s.len() as int)
}

/// What appending one `name=value` pair adds to a URL: `?` before the
/// first pair, `&` before every later one.
pub open spec fn query_pair(started: bool, name: Seq<char>, value: Seq<char>) -> Seq<char> {
    seq![
        if started {
            '&'
        } else {
            '?'
        },
    ] + form_encoded(name) + seq!['='] + form_encoded(value)
}

fn emit_pct(out: &mut String, b: u8)
    ensures
        final(out)@ == old(out)@ + pct(b),
{
    push_char(out, '%');
    push_char(out, hex_char_e((b / 16) as u32));
    push_char(out, hex_char_e((b % 16) as u32));
    proof {
        assert(out@ =~= old(out)@ + pct(b));
    }
}

/// Appends the form-encoding of `s` to `out`.
fn append_encoded(out: &mut String, s: &str)
    ensures
        final(out)@ == old(out)@ + form_encoded(s@),
{
    let n = s.unicode_len();
    let mut i: usize = 0;
    proof {
        assert(out@ =~= out@ + form_encoded_prefix(s@, 0));
    }
    while i < n
        invariant
            n == s@.len(),
            i <= n,
            out@ == old(out)@ + form_encoded_prefix(s@, i as int),
        decreases n - i,
    {
        let ghost pre = out@;
        let c = s.get_char(i);
        let u = c as u32;
        if c == ' ' {
            push_char(out, '+');
        } else if (48 <= u && u <= 57) || (65 <= u && u <= 90) || (97 <= u && u <= 122) || c == '*'
            || c == '-' || c == '.' || c == '_' {
            push_char(out, c);
        } else if u < 0x80 {
            emit_pct(out, u as u8);
            proof {
                let bs = utf8_bytes(c);
                assert(bs =~= seq![u as u8]);
                assert(pct_bytes(bs, 0) =~= Seq::<char>::empty());
                assert(pct_bytes(bs, 1) =~= pct(bs[0]));
                assert(out@ =~= pre + enc_char(c));
            }
        } else if u < 0x800 {
            emit_pct(out, (0xC0 + u / 64) as u8);
            emit_pct(out, (0x80 + u % 64) as u8);
            proof {
                let bs = utf8_bytes(c);
                assert(pct_bytes(bs, 0) =~= Seq::<char>::empty());
                assert(pct_bytes(bs, 1) =~= pct(bs[0]));
                assert(pct_bytes(bs, 2) =~= pct(bs[0]) + pct(bs[1]));
                assert(out@ =~= pre + enc_char(c));
            }
        } else if u < 0x10000 {
            emit_pct(out, (0xE0 + u / 4096) as u8);
            emit_pct(out, (0x80 + (u / 64) % 64) as u8);
            emit_pct(out, (0x80 + u % 64) as u8);
            proof {
                let bs = utf8_bytes(c);
                assert(pct_bytes(bs, 0) =~= Seq::<char>::empty());
                assert(pct_bytes(bs, 1) =~= pct(bs[0]));
                assert(pct_bytes(bs, 2) =~= pct(bs[0]) + pct(bs[1]));
                assert(pct_bytes(bs, 3) =~= pct(bs[0]) + pct(bs[1]) + pct(bs[2]));
                assert(out@ =~= pre + enc_char(c));
            }
        } else {
            emit_pct(out, (0xF0 + u / 0x40000) as u8);
            emit_pct(out, (0x80 + (u / 4096) % 64) as u8);
            emit_pct(out, (0x80 + (u / 64) % 64) as u8);
            emit_pct(out, (0x80 + u % 64) as u8);
            proof {
                let bs = utf8_bytes(c);
                assert(pct_bytes(bs, 0) =~= Seq::<char>::empty());
                assert(pct_bytes(bs, 1) =~= pct(bs[0]));
                assert(pct_bytes(bs, 2) =~= pct(bs[0]) + pct(bs[1]));
                assert(pct_bytes(bs, 3) =~= pct(bs[0]) + pct(bs[1]) + pct(bs[2]));
                assert(pct_bytes(bs, 4) =~= pct(bs[0]) + pct(bs[1]) + pct(bs[2]) + pct(bs[3]));
                assert(out@ =~= pre + enc_char(c));
            }
        }
        proof {
            assert(out@ =~= pre + enc_char(c));
        }
        i = i + 1;
        proof {
            assert(out@ =~= old(out)@ + form_encoded_prefix(s@, i as int));
        }
    }
}

/// A request URL under construction: a fixed base, then query pairs.
pub struct ApiUrl {
    url: String,
    has_query: bool,
}

impl ApiUrl {
    /// The text of the URL so far.
    pub closed spec fn text(&self) -> Seq<char> {
        self.url@
    }

    /// Whether a first query pair has been appended.
    pub closed spec fn started(&self) -> bool {
        self.has_query
    }

    /// A URL holding just the base, with no query string.
    pub fn from_base(base: &str) -> (r: ApiUrl)
        ensures
            r.text() == base@,
            !r.started(),
    {
        ApiUrl { url: base.to_owned(), has_query: false }
    }

    /// A URL holding the base with one path segment appended after `/`.
    pub fn from_base_with_segment(base: &str, segment: &str) -> (r: ApiUrl)
        ensures
            r.text() == base@ + seq!['/'] + segment@,
            !r.started(),
    {
        let mut url = base.to_owned();
        push_char(&mut url, '/');
        url.append(segment);
        ApiUrl { url, has_query: false }
    }

    /// Appends one `name=value` query pair, form-encoded.
    pub fn append_pair(&mut self, name: &str, value: &str)
        ensures
            final(self).text() == old(self).text() + query_pair(old(self).started(), name@, value@),
            final(self).started(),
    {
        let ghost pre = self.url@;
        if self.has_query {
            push_char(&mut self.url, '&');
        } else {
            push_char(&mut self.url, '?');
        }
        append_encoded(&mut self.url, name);
        push_char(&mut self.url, '=');
        append_encoded(&mut self.url, value);
        self.has_query = true;
        proof {
            assert(self.url@ =~= pre + query_pair(old(self).started(), name@, value@));
        }
    }

    /// The finished URL.
    pub fn into_string(self) -> (r: String)
        ensures
            r@ == self.text(),
    {
        self.url
    }
}

} // verus!
