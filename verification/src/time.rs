//! Timestamps. The service writes instants as RFC 3339 text; the library
//! keeps the text as it came, checked once on the way in.

use vstd::prelude::*;

verus! {

/// Whether a string is a well-formed RFC 3339 timestamp, as chrono's
/// parser decides it. The answer depends on the characters alone.
pub uninterp spec fn rfc3339_ok(s: Seq<char>) -> bool;

/// Relies on chrono's DateTime::parse_from_rfc3339 for what counts as a
/// well-formed RFC 3339 timestamp.
#[verifier::external_body]
fn rfc3339_valid(s: &str) -> (r: bool)
    ensures
        r == rfc3339_ok(s@),
{
    chrono::DateTime::parse_from_rfc3339(s).is_ok()
}

/// An instant, kept as the RFC 3339 text it arrived as.
#[derive(Debug, Clone, PartialEq, Eq, Hash)]
pub struct Timestamp {
    raw: String,
}

impl Timestamp {
    /// The timestamp's text.
    pub closed spec fn text(&self) -> Seq<char> {
        self.raw@
    }

    /// Every constructed timestamp passed the RFC 3339 check.
    pub closed spec fn well_formed(&self) -> bool {
        rfc3339_ok(self.raw@)
    }

    /// Accepts exactly the strings that parse as RFC 3339.
    pub fn parse(s: &str) -> (r: Option<Timestamp>)
        ensures
            r is Some <==> rfc3339_ok(s@),
            r matches Some(t) ==> t.text() == s@ && t.well_formed(),
    {
        if rfc3339_valid(s) {
            Some(Timestamp { raw: s.to_owned() })
        } else {
            None
        }
    }

    /// The timestamp's text.
    pub fn as_str(&self) -> (r: &str)
        ensures
            r@ == self.text(),
    {
        self.raw.as_str()
    }
}

} // verus!
