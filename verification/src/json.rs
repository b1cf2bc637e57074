//! JSON values, a parser and a serializer.
//!
//! Numbers are kept as their source lexeme, so nothing is lost between
//! decoding a response body and re-encoding it.

use vstd::prelude::*;

verus! {

/// A JSON value. Object members keep their order and duplicates, as they
/// appeared in the source text.
#[derive(Debug, PartialEq, Eq, Hash)]
pub enum Json {
    Null,
    Bool(bool),
    Num(String),
    Str(String),
    Arr(Vec<Json>),
    Obj(Vec<(String, Json)>),
}

/// The mathematical model of a JSON value: strings become sequences of
/// characters, arrays and objects become sequences.
pub enum JsonModel {
    Null,
    Bool(bool),
    Num(Seq<char>),
    Str(Seq<char>),
    Arr(Seq<JsonModel>),
    Obj(Seq<(Seq<char>, JsonModel)>),
}

pub open spec fn json_model(j: Json) -> JsonModel
    decreases j,
{
    match j {
        Json::Null => JsonModel::Null,
        Json::Bool(b) => JsonModel::Bool(b),
        Json::Num(s) => JsonModel::Num(s@),
        Json::Str(s) => JsonModel::Str(s@),
        Json::Arr(items) => JsonModel::Arr(
            Seq::new(
                items@.len(),
                |i: int|
                    if 0 <= i < items@.len() {
                        json_model(items@[i])
                    } else {
                        JsonModel::Null
                    },
            ),
        ),
        Json::Obj(fields) => JsonModel::Obj(
            Seq::new(
                fields@.len(),
                |i: int|
                    if 0 <= i < fields@.len() {
                        (fields@[i].0@, json_model(fields@[i].1))
                    } else {
                        (Seq::empty(), JsonModel::Null)
                    },
            ),
        ),
    }
}

impl View for Json {
    type V = JsonModel;

    open spec fn view(&self) -> JsonModel {
        json_model(*self)
    }
}

// ---------------------------------------------------------------------------
// Character classes
// ---------------------------------------------------------------------------

pub open spec fn is_ws(c: char) -> bool {
    c == ' ' || c == '\t' || c == '\n' || c == '\r'
}

pub open spec fn is_digit(c: char) -> bool {
    48 <= c as u32 <= 57
}

/// The value of a hexadecimal digit, or `None`.
pub open spec fn hex_val(c: char) -> Option<u32> {
    let u = c as u32;
    if 48 <= u <= 57 {
        Some((u - 48) as u32)
    } else if 65 <= u <= 70 {
        Some((u - 55) as u32)
    } else if 97 <= u <= 102 {
        Some((u - 87) as u32)
    } else {
        None
    }
}

// ---------------------------------------------------------------------------
// Number lexemes
// ---------------------------------------------------------------------------

/// The first index at or after `i` that does not hold a decimal digit.
pub open spec fn digits_end(s: Seq<char>, i: int) -> int
    decreases s.len() - i,
{
    if i < s.len() && is_digit(s[i]) {
        digits_end(s, i + 1)
    } else {
        i
    }
}

/// The length of the number lexeme at the head of `s`, or `None` if `s`
/// does not begin with a number. The grammar is JSON's: an optional minus
/// sign, an integer part without leading zeroes, an optional fraction and
/// an optional exponent.
pub open spec fn number_len(s: Seq<char>) -> Option<int> {
    let i0: int = if s.len() > 0 && s[0] == '-' {
        1
    } else {
        0
    };
    if i0 >= s.len() || !is_digit(s[i0]) {
        None
    } else {
        let i1: int = if s[i0] == '0' {
            i0 + 1
        } else {
            digits_end(s, i0)
        };
        let i2: int = if i1 < s.len() && s[i1] == '.' {
            if i1 + 1 < s.len() && is_digit(s[i1 + 1]) {
                digits_end(s, i1 + 1)
            } else {
                -1
            }
        } else {
            i1
        };
        if i2 < 0 {
            None
        } else {
            let i3: int = if i2 < s.len() && (s[i2] == 'e' || s[i2] == 'E') {
                let j: int = if i2 + 1 < s.len() && (s[i2 + 1] == '+' || s[i2 + 1] == '-') {
                    i2 + 2
                } else {
                    i2 + 1
                };
                if j < s.len() && is_digit(s[j]) {
                    digits_end(s, j)
                } else {
                    -1
                }
            } else {
                i2
            };
            if i3 < 0 {
                None
            } else {
                Some(i3)
            }
        }
    }
}

/// A whole sequence is one valid number lexeme.
pub open spec fn is_number_lexeme(s: Seq<char>) -> bool {
    number_len(s) == Some(s.len() as int)
}

// ---------------------------------------------------------------------------
// String bodies and escapes
// ---------------------------------------------------------------------------

/// The four hexadecimal digits at the head of `s`, as a value.
pub open spec fn hex4(s: Seq<char>) -> Option<u32> {
    if s.len() >= 4 && hex_val(s[0]) is Some && hex_val(s[1]) is Some && hex_val(s[2]) is Some
        && hex_val(s[3]) is Some {
        Some(
            (hex_val(s[0]).unwrap() * 0x1000 + hex_val(s[1]).unwrap() * 0x100 + hex_val(
                s[2],
            ).unwrap() * 0x10 + hex_val(s[3]).unwrap()) as u32,
        )
    } else {
        None
    }
}

/// Parses the body of a string, after the opening quote: the decoded
/// characters and the rest of the input after the closing quote.
pub open spec fn sp_string_body(s: Seq<char>) -> Option<(Seq<char>, Seq<char>)>
    decreases s.len(),
{
    if s.len() == 0 {
        None
    } else if s[0] == '"' {
        Some((Seq::empty(), s.skip(1)))
    } else if s[0] == '\\' {
        if s.len() < 2 {
            None
        } else {
            let e = s[1];
            if e == '"' || e == '\\' || e == '/' {
                cons_string_char(e, sp_string_body(s.skip(2)))
            } else if e == 'b' {
                cons_string_char(8 as char, sp_string_body(s.skip(2)))
            } else if e == 'f' {
                cons_string_char(12 as char, sp_string_body(s.skip(2)))
            } else if e == 'n' {
                cons_string_char('\n', sp_string_body(s.skip(2)))
            } else if e == 'r' {
                cons_string_char('\r', sp_string_body(s.skip(2)))
            } else if e == 't' {
                cons_string_char('\t', sp_string_body(s.skip(2)))
            } else if e == 'u' {
                match hex4(s.skip(2)) {
                    None => None,
                    Some(cp) => {
                        if cp < 0xD800 || cp >= 0xE000 {
                            cons_string_char(cp as char, sp_string_body(s.skip(6)))
                        } else if cp < 0xDC00 {
                            // high surrogate: a low surrogate escape must follow
                            if s.len() >= 12 && s[6] == '\\' && s[7] == 'u' {
                                match hex4(s.skip(8)) {
                                    None => None,
                                    Some(lo) => {
                                        if 0xDC00 <= lo < 0xE000 {
                                            let combined = (0x10000 + (cp - 0xD800) * 0x400 + (lo
                                                - 0xDC00)) as u32;
                                            cons_string_char(
                                                combined as char,
                                                sp_string_body(s.skip(12)),
                                            )
                                        } else {
                                            None
                                        }
                                    },
                                }
                            } else {
                                None
                            }
                        } else {
                            // lone low surrogate
                            None
                        }
                    },
                }
            } else {
                None
            }
        }
    } else if (s[0] as u32) < 0x20 {
        // unescaped control characters are not allowed
        None
    } else {
        cons_string_char(s[0], sp_string_body(s.skip(1)))
    }
}

pub open spec fn cons_string_char(c: char, rest: Option<(Seq<char>, Seq<char>)>) -> Option<
    (Seq<char>, Seq<char>),
> {
    match rest {
        None => None,
        Some((content, r)) => Some((seq![c] + content, r)),
    }
}

// ---------------------------------------------------------------------------
// Values
// ---------------------------------------------------------------------------

/// Drops leading whitespace.
pub open spec fn skip_ws(s: Seq<char>) -> Seq<char>
    decreases s.len(),
{
    if s.len() > 0 && is_ws(s[0]) {
        skip_ws(s.skip(1))
    } else {
        s
    }
}

pub open spec fn starts_lit(s: Seq<char>, t: Seq<char>) -> bool {
    s.len() >= t.len() && s.subrange(0, t.len() as int) == t
}

/// Parses one JSON value at the head of `s` (after leading whitespace):
/// the value and the rest of the input. The fuel bounds the recursion
/// depth; any fuel above `s.len()` gives the same answer.
pub open spec fn sp_value(s: Seq<char>, fuel: nat) -> Option<(JsonModel, Seq<char>)>
    decreases fuel, 0int,
{
    if fuel == 0 {
        None
    } else {
        let s = skip_ws(s);
        if s.len() == 0 {
            None
        } else if starts_lit(s, seq!['n', 'u', 'l', 'l']) {
            Some((JsonModel::Null, s.skip(4)))
        } else if starts_lit(s, seq!['t', 'r', 'u', 'e']) {
            Some((JsonModel::Bool(true), s.skip(4)))
        } else if starts_lit(s, seq!['f', 'a', 'l', 's', 'e']) {
            Some((JsonModel::Bool(false), s.skip(5)))
        } else if s[0] == '"' {
            match sp_string_body(s.skip(1)) {
                None => None,
                Some((content, r)) => Some((JsonModel::Str(content), r)),
            }
        } else if s[0] == '-' || is_digit(s[0]) {
            match number_len(s) {
                None => None,
                Some(n) => Some((JsonModel::Num(s.subrange(0, n)), s.skip(n))),
            }
        } else if s[0] == '[' {
            let t = skip_ws(s.skip(1));
            if t.len() > 0 && t[0] == ']' {
                Some((JsonModel::Arr(Seq::empty()), t.skip(1)))
            } else {
                match sp_elements(s.skip(1), (fuel - 1) as nat) {
                    None => None,
                    Some((items, r)) => Some((JsonModel::Arr(items), r)),
                }
            }
        } else if s[0] == '{' {
            let t = skip_ws(s.skip(1));
            if t.len() > 0 && t[0] == '}' {
                Some((JsonModel::Obj(Seq::empty()), t.skip(1)))
            } else {
                match sp_members(s.skip(1), (fuel - 1) as nat) {
                    None => None,
                    Some((fields, r)) => Some((JsonModel::Obj(fields), r)),
                }
            }
        } else {
            None
        }
    }
}

/// Parses a non-empty, comma-separated list of values and the closing
/// bracket.
pub open spec fn sp_elements(s: Seq<char>, fuel: nat) -> Option<(Seq<JsonModel>, Seq<char>)>
    decreases fuel, 1int,
{
    if fuel == 0 {
        None
    } else {
        match sp_value(s, fuel) {
            None => None,
            Some((v, r)) => {
                let r = skip_ws(r);
                if r.len() > 0 && r[0] == ']' {
                    Some((seq![v], r.skip(1)))
                } else if r.len() > 0 && r[0] == ',' {
                    match sp_elements(r.skip(1), (fuel - 1) as nat) {
                        None => None,
                        Some((items, rr)) => Some((seq![v] + items, rr)),
                    }
                } else {
                    None
                }
            },
        }
    }
}

/// Parses a non-empty, comma-separated list of `"key": value` members and
/// the closing brace.
pub open spec fn sp_members(s: Seq<char>, fuel: nat) -> Option<
    (Seq<(Seq<char>, JsonModel)>, Seq<char>),
>
    decreases fuel, 1int,
{
    if fuel == 0 {
        None
    } else {
        let t = skip_ws(s);
        if t.len() > 0 && t[0] == '"' {
            match sp_string_body(t.skip(1)) {
                None => None,
                Some((key, r)) => {
                    let r = skip_ws(r);
                    if r.len() > 0 && r[0] == ':' {
                        match sp_value(r.skip(1), fuel) {
                            None => None,
                            Some((v, r2)) => {
                                let r2 = skip_ws(r2);
                                if r2.len() > 0 && r2[0] == '}' {
                                    Some((seq![(key, v)], r2.skip(1)))
                                } else if r2.len() > 0 && r2[0] == ',' {
                                    match sp_members(r2.skip(1), (fuel - 1) as nat) {
                                        None => None,
                                        Some((fields, rr)) => Some((seq![(key, v)] + fields, rr)),
                                    }
                                } else {
                                    None
                                }
                            },
                        }
                    } else {
                        None
                    }
                },
            }
        } else {
            None
        }
    }
}

/// What parsing a whole document means: one value, with nothing but
/// whitespace around it.
pub open spec fn spec_parse(s: Seq<char>) -> Option<JsonModel> {
    match sp_value(s, s.len() + 1) {
        None => None,
        Some((v, r)) => {
            if skip_ws(r).len() == 0 {
                Some(v)
            } else {
                None
            }
        },
    }
}

} // verus!

verus! {

// ---------------------------------------------------------------------------
// Bounds and progress lemmas
// ---------------------------------------------------------------------------

pub proof fn lemma_digits_end_bounds(s: Seq<char>, i: int)
    requires
        0 <= i <= s.len(),
    ensures
        i <= digits_end(s, i) <= s.len(),
    decreases s.len() - i,
{
    if i < s.len() && is_digit(s[i]) {
        lemma_digits_end_bounds(s, i + 1);
    }
}

pub proof fn lemma_number_len_bounds(s: Seq<char>)
    ensures
        number_len(s) matches Some(n) ==> 1 <= n <= s.len(),
{
    let i0: int = if s.len() > 0 && s[0] == '-' {
        1
    } else {
        0
    };
    if i0 < s.len() && is_digit(s[i0]) {
        lemma_digits_end_bounds(s, i0);
        if i0 + 1 <= s.len() {
            lemma_digits_end_bounds(s, i0 + 1);
        }
        let i1: int = if s[i0] == '0' {
            i0 + 1
        } else {
            digits_end(s, i0)
        };
        assert(i0 < i1 <= s.len());
        if i1 < s.len() && s[i1] == '.' && i1 + 1 < s.len() && is_digit(s[i1 + 1]) {
            lemma_digits_end_bounds(s, i1 + 1);
        }
        let i2: int = if i1 < s.len() && s[i1] == '.' {
            if i1 + 1 < s.len() && is_digit(s[i1 + 1]) {
                digits_end(s, i1 + 1)
            } else {
                -1
            }
        } else {
            i1
        };
        if i2 >= 0 {
            assert(i1 <= i2 <= s.len());
            if i2 < s.len() && (s[i2] == 'e' || s[i2] == 'E') {
                let j: int = if i2 + 1 < s.len() && (s[i2 + 1] == '+' || s[i2 + 1] == '-') {
                    i2 + 2
                } else {
                    i2 + 1
                };
                if j < s.len() && is_digit(s[j]) {
                    lemma_digits_end_bounds(s, j);
                }
            }
        }
    }
}

pub proof fn lemma_skip_ws_len(s: Seq<char>)
    ensures
        skip_ws(s).len() <= s.len(),
    decreases s.len(),
{
    if s.len() > 0 && is_ws(s[0]) {
        lemma_skip_ws_len(s.skip(1));
    }
}

pub proof fn lemma_skip_ws_at(s: Seq<char>, i: int)
    requires
        0 <= i <= s.len(),
        forall|k: int| 0 <= k < i ==> is_ws(s[k]),
        i == s.len() || !is_ws(s[i]),
    ensures
        skip_ws(s) == s.skip(i),
    decreases i,
{
    if i == 0 {
        assert(skip_ws(s) =~= s.skip(0));
    } else {
        assert(is_ws(s[0]));
        lemma_skip_ws_at(s.skip(1), i - 1);
        assert(s.skip(1).skip(i - 1) =~= s.skip(i));
    }
}

pub proof fn lemma_string_body_consumes(s: Seq<char>)
    ensures
        sp_string_body(s) matches Some((c, r)) ==> r.len() < s.len(),
    decreases s.len(),
{
    if s.len() == 0 {
    } else if s[0] == '"' {
    } else if s[0] == '\\' {
        if s.len() >= 2 {
            lemma_string_body_consumes(s.skip(2));
            if s.len() >= 6 {
                lemma_string_body_consumes(s.skip(6));
            }
            if s.len() >= 12 {
                lemma_string_body_consumes(s.skip(12));
            }
        }
    } else {
        lemma_string_body_consumes(s.skip(1));
    }
}

/// Every successful parse consumes at least one character.
pub proof fn lemma_sp_value_consumes(s: Seq<char>, fuel: nat)
    ensures
        sp_value(s, fuel) matches Some((v, r)) ==> r.len() < s.len(),
    decreases fuel, 0int,
{
    if fuel > 0 {
        let t = skip_ws(s);
        lemma_skip_ws_len(s);
        if t.len() == 0 {
        } else if starts_lit(t, seq!['n', 'u', 'l', 'l']) {
        } else if starts_lit(t, seq!['t', 'r', 'u', 'e']) {
        } else if starts_lit(t, seq!['f', 'a', 'l', 's', 'e']) {
        } else if t[0] == '"' {
            lemma_string_body_consumes(t.skip(1));
        } else if t[0] == '-' || is_digit(t[0]) {
            lemma_number_len_bounds(t);
        } else if t[0] == '[' {
            let t2 = skip_ws(t.skip(1));
            lemma_skip_ws_len(t.skip(1));
            if !(t2.len() > 0 && t2[0] == ']') {
                lemma_sp_elements_consumes(t.skip(1), (fuel - 1) as nat);
            }
        } else if t[0] == '{' {
            let t2 = skip_ws(t.skip(1));
            lemma_skip_ws_len(t.skip(1));
            if !(t2.len() > 0 && t2[0] == '}') {
                lemma_sp_members_consumes(t.skip(1), (fuel - 1) as nat);
            }
        }
    }
}

pub proof fn lemma_sp_elements_consumes(s: Seq<char>, fuel: nat)
    ensures
        sp_elements(s, fuel) matches Some((x, r)) ==> r.len() < s.len(),
    decreases fuel, 1int,
{
    if fuel > 0 {
        lemma_sp_value_consumes(s, fuel);
        if let Some((v, r)) = sp_value(s, fuel) {
            let r2 = skip_ws(r);
            lemma_skip_ws_len(r);
            if r2.len() > 0 && r2[0] == ',' {
                lemma_sp_elements_consumes(r2.skip(1), (fuel - 1) as nat);
            }
        }
    }
}

pub proof fn lemma_sp_members_consumes(s: Seq<char>, fuel: nat)
    ensures
        sp_members(s, fuel) matches Some((x, r)) ==> r.len() < s.len(),
    decreases fuel, 1int,
{
    if fuel > 0 {
        let t = skip_ws(s);
        lemma_skip_ws_len(s);
        if t.len() > 0 && t[0] == '"' {
            lemma_string_body_consumes(t.skip(1));
            if let Some((key, r0)) = sp_string_body(t.skip(1)) {
                let r1 = skip_ws(r0);
                lemma_skip_ws_len(r0);
                if r1.len() > 0 && r1[0] == ':' {
                    lemma_sp_value_consumes(r1.skip(1), fuel);
                    if let Some((v, r2)) = sp_value(r1.skip(1), fuel) {
                        let r3 = skip_ws(r2);
                        lemma_skip_ws_len(r2);
                        if r3.len() > 0 && r3[0] == ',' {
                            lemma_sp_members_consumes(r3.skip(1), (fuel - 1) as nat);
                        }
                    }
                }
            }
        }
    }
}

/// The fuel does not matter once it exceeds the length of the input.
pub proof fn lemma_sp_value_fuel(s: Seq<char>, f1: nat, f2: nat)
    requires
        f1 > s.len(),
        f2 > s.len(),
    ensures
        sp_value(s, f1) == sp_value(s, f2),
    decreases f1 + f2, 0int,
{
    let t = skip_ws(s);
    lemma_skip_ws_len(s);
    if t.len() == 0 {
    } else if starts_lit(t, seq!['n', 'u', 'l', 'l']) {
    } else if starts_lit(t, seq!['t', 'r', 'u', 'e']) {
    } else if starts_lit(t, seq!['f', 'a', 'l', 's', 'e']) {
    } else if t[0] == '"' {
    } else if t[0] == '-' || is_digit(t[0]) {
    } else if t[0] == '[' {
        let t2 = skip_ws(t.skip(1));
        if !(t2.len() > 0 && t2[0] == ']') {
            lemma_sp_elements_fuel(t.skip(1), (f1 - 1) as nat, (f2 - 1) as nat);
        }
    } else if t[0] == '{' {
        let t2 = skip_ws(t.skip(1));
        if !(t2.len() > 0 && t2[0] == '}') {
            lemma_sp_members_fuel(t.skip(1), (f1 - 1) as nat, (f2 - 1) as nat);
        }
    }
}

pub proof fn lemma_sp_elements_fuel(s: Seq<char>, f1: nat, f2: nat)
    requires
        f1 > s.len(),
        f2 > s.len(),
    ensures
        sp_elements(s, f1) == sp_elements(s, f2),
    decreases f1 + f2, 1int,
{
    lemma_sp_value_fuel(s, f1, f2);
    lemma_sp_value_consumes(s, f1);
    if let Some((v, r)) = sp_value(s, f1) {
        let r2 = skip_ws(r);
        lemma_skip_ws_len(r);
        if r2.len() > 0 && r2[0] == ',' {
            lemma_sp_elements_fuel(r2.skip(1), (f1 - 1) as nat, (f2 - 1) as nat);
        }
    }
}

pub proof fn lemma_sp_members_fuel(s: Seq<char>, f1: nat, f2: nat)
    requires
        f1 > s.len(),
        f2 > s.len(),
    ensures
        sp_members(s, f1) == sp_members(s, f2),
    decreases f1 + f2, 1int,
{
    let t = skip_ws(s);
    lemma_skip_ws_len(s);
    if t.len() > 0 && t[0] == '"' {
        lemma_string_body_consumes(t.skip(1));
        if let Some((key, r0)) = sp_string_body(t.skip(1)) {
            let r1 = skip_ws(r0);
            lemma_skip_ws_len(r0);
            if r1.len() > 0 && r1[0] == ':' {
                lemma_sp_value_fuel(r1.skip(1), f1, f2);
                lemma_sp_value_consumes(r1.skip(1), f1);
                if let Some((v, r2)) = sp_value(r1.skip(1), f1) {
                    let r3 = skip_ws(r2);
                    lemma_skip_ws_len(r2);
                    if r3.len() > 0 && r3[0] == ',' {
                        lemma_sp_members_fuel(r3.skip(1), (f1 - 1) as nat, (f2 - 1) as nat);
                    }
                }
            }
        }
    }
}

} // verus!

use crate::text::{char_from_u32, chars_to_string, str_chars};
use vstd::slice::slice_subrange;

verus! {

/// The models of a sequence of JSON values.
pub open spec fn seq_models(s: Seq<Json>) -> Seq<JsonModel> {
    Seq::new(
        s.len(),
        |i: int|
            if 0 <= i < s.len() {
                json_model(s[i])
            } else {
                JsonModel::Null
            },
    )
}

/// The models of a sequence of object members.
pub open spec fn fields_models(s: Seq<(String, Json)>) -> Seq<(Seq<char>, JsonModel)> {
    Seq::new(
        s.len(),
        |i: int|
            if 0 <= i < s.len() {
                (s[i].0@, json_model(s[i].1))
            } else {
                (Seq::empty(), JsonModel::Null)
            },
    )
}

// ---------------------------------------------------------------------------
// The parser
// ---------------------------------------------------------------------------

fn ws_at(s: &[char], k: usize) -> (b: bool)
    requires
        k < s@.len(),
    ensures
        b == is_ws(s@[k as int]),
{
    let c = s[k];
    c == ' ' || c == '\t' || c == '\n' || c == '\r'
}

fn digit_at(s: &[char], k: usize) -> (b: bool)
    requires
        k < s@.len(),
    ensures
        b == is_digit(s@[k as int]),
{
    let u = s[k] as u32;
    48 <= u && u <= 57
}

/// Drops leading whitespace from a slice.
pub fn skip_ws_e<'a>(s: &'a [char]) -> (r: &'a [char])
    ensures
        r@ == skip_ws(s@),
        r@.len() <= s@.len(),
{
    let mut i: usize = 0;
    while i < s.len() && ws_at(s, i)
        invariant
            i <= s@.len(),
            forall|k: int| 0 <= k < i ==> is_ws(s@[k]),
        decreases s@.len() - i,
    {
        i = i + 1;
    }
    proof {
        lemma_skip_ws_at(s@, i as int);
    }
    let r = slice_subrange(s, i, s.len());
    proof {
        assert(r@ =~= s@.skip(i as int));
    }
    r
}

fn hexd(c: char) -> (r: Option<u32>)
    ensures
        r == hex_val(c),
{
    let u = c as u32;
    if 48 <= u && u <= 57 {
        Some(u - 48)
    } else if 65 <= u && u <= 70 {
        Some(u - 55)
    } else if 97 <= u && u <= 102 {
        Some(u - 87)
    } else {
        None
    }
}

/// The value of the four hexadecimal digits of `s` starting at `at`.
fn hex4_e(s: &[char], at: usize) -> (r: Option<u32>)
    requires
        at <= s@.len(),
    ensures
        r == hex4(s@.skip(at as int)),
{
    if s.len() - at < 4 {
        return None;
    }
    let h0 = hexd(s[at]);
    let h1 = hexd(s[at + 1]);
    let h2 = hexd(s[at + 2]);
    let h3 = hexd(s[at + 3]);
    match (h0, h1, h2, h3) {
        (Some(a), Some(b), Some(c), Some(d)) => {
            proof {
                assert(s@.skip(at as int)[0] == s@[at as int]);
                assert(s@.skip(at as int)[1] == s@[at as int + 1]);
                assert(s@.skip(at as int)[2] == s@[at as int + 2]);
                assert(s@.skip(at as int)[3] == s@[at as int + 3]);
            }
            Some(a * 0x1000 + b * 0x100 + c * 0x10 + d)
        },
        _ => {
            proof {
                assert(s@.skip(at as int)[0] == s@[at as int]);
                assert(s@.skip(at as int)[1] == s@[at as int + 1]);
                assert(s@.skip(at as int)[2] == s@[at as int + 2]);
                assert(s@.skip(at as int)[3] == s@[at as int + 3]);
            }
            None
        },
    }
}

fn digits_end_e(s: &[char], i: usize) -> (j: usize)
    requires
        i <= s@.len(),
    ensures
        j as int == digits_end(s@, i as int),
        i <= j <= s@.len(),
{
    let mut k = i;
    while k < s.len() && digit_at(s, k)
        invariant
            i <= k <= s@.len(),
            digits_end(s@, i as int) == digits_end(s@, k as int),
        decreases s@.len() - k,
    {
        k = k + 1;
    }
    k
}

/// The length of the number lexeme at the head of `s`.
pub fn number_len_e(s: &[char]) -> (r: Option<usize>)
    ensures
        match r {
            Some(n) => number_len(s@) == Some(n as int) && 1 <= n <= s@.len(),
            None => number_len(s@) is None,
        },
{
    proof {
        lemma_number_len_bounds(s@);
    }
    let n = s.len();
    let i0: usize = if n > 0 && s[0] == '-' {
        1
    } else {
        0
    };
    if i0 >= n {
        return None;
    }
    if !digit_at(s, i0) {
        return None;
    }
    let i1: usize = if s[i0] == '0' {
        i0 + 1
    } else {
        digits_end_e(s, i0)
    };
    let i2: usize;
    if i1 < n && s[i1] == '.' {
        if i1 + 1 < n && digit_at(s, i1 + 1) {
            i2 = digits_end_e(s, i1 + 1);
        } else {
            return None;
        }
    } else {
        i2 = i1;
    }
    let i3: usize;
    if i2 < n && (s[i2] == 'e' || s[i2] == 'E') {
        let j: usize = if i2 + 1 < n && (s[i2 + 1] == '+' || s[i2 + 1] == '-') {
            i2 + 2
        } else {
            i2 + 1
        };
        if j < n && digit_at(s, j) {
            i3 = digits_end_e(s, j);
        } else {
            return None;
        }
    } else {
        i3 = i2;
    }
    Some(i3)
}

/// Parses a string body, after the opening quote: the decoded characters
/// and the rest of the input after the closing quote.
pub fn parse_string_body<'a>(s: &'a [char]) -> (r: Option<(Vec<char>, &'a [char])>)
    ensures
        match r {
            Some(p) => sp_string_body(s@) == Some((p.0@, p.1@)) && p.1@.len() < s@.len(),
            None => sp_string_body(s@) is None,
        },
    decreases s@.len(),
{
    if s.len() == 0 {
        return None;
    }
    let c0 = s[0];
    if c0 == '"' {
        let rem = slice_subrange(s, 1, s.len());
        let content: Vec<char> = Vec::new();
        proof {
            assert(rem@ =~= s@.skip(1));
            assert(content@ =~= Seq::<char>::empty());
        }
        return Some((content, rem));
    }
    if c0 == '\\' {
        if s.len() < 2 {
            return None;
        }
        let e = s[1];
        if e == 'u' {
            match hex4_e(s, 2) {
                None => {
                    return None;
                },
                Some(cp) => {
                    proof {
                        assert(hex4(s@.skip(2)) == Some(cp));
                    }
                    if cp < 0xD800 || cp >= 0xE000 {
                        let ch = match char_from_u32(cp) {
                            Some(c) => c,
                            None => {
                                proof {
                                    assert(cp <= 0xFFFF);
                                    assert(false);
                                }
                                vstd::pervasive::unreached()
                            },
                        };
                        let sub = slice_subrange(s, 6, s.len());
                        proof {
                            assert(sub@ =~= s@.skip(6));
                        }
                        match parse_string_body(sub) {
                            None => {
                                return None;
                            },
                            Some((mut content, rem)) => {
                                let ghost old_content = content@;
                                content.insert(0, ch);
                                proof {
                                    assert(content@ =~= seq![ch] + old_content);
                                }
                                return Some((content, rem));
                            },
                        }
                    } else if cp < 0xDC00 {
                        if s.len() >= 12 && s[6] == '\\' && s[7] == 'u' {
                            match hex4_e(s, 8) {
                                None => {
                                    return None;
                                },
                                Some(lo) => {
                                    proof {
                                        assert(hex4(s@.skip(8)) == Some(lo));
                                    }
                                    if 0xDC00 <= lo && lo < 0xE000 {
                                        let combined: u32 = 0x10000 + (cp - 0xD800) * 0x400 + (lo
                                            - 0xDC00);
                                        let ch = match char_from_u32(combined) {
                                            Some(c) => c,
                                            None => {
                                                proof {
                                                    assert(false);
                                                }
                                                vstd::pervasive::unreached()
                                            },
                                        };
                                        let sub = slice_subrange(s, 12, s.len());
                                        proof {
                                            assert(sub@ =~= s@.skip(12));
                                        }
                                        match parse_string_body(sub) {
                                            None => {
                                                return None;
                                            },
                                            Some((mut content, rem)) => {
                                                let ghost old_content = content@;
                                                content.insert(0, ch);
                                                proof {
                                                    assert(content@ =~= seq![ch] + old_content);
                                                }
                                                return Some((content, rem));
                                            },
                                        }
                                    } else {
                                        return None;
                                    }
                                },
                            }
                        } else {
                            return None;
                        }
                    } else {
                        return None;
                    }
                },
            }
        } else {
            let decoded: char;
            if e == '"' || e == '\\' || e == '/' {
                decoded = e;
            } else if e == 'b' {
                decoded = '\u{8}';
            } else if e == 'f' {
                decoded = '\u{c}';
            } else if e == 'n' {
                decoded = '\n';
            } else if e == 'r' {
                decoded = '\r';
            } else if e == 't' {
                decoded = '\t';
            } else {
                return None;
            }
            let sub = slice_subrange(s, 2, s.len());
            proof {
                assert(sub@ =~= s@.skip(2));
            }
            match parse_string_body(sub) {
                None => {
                    return None;
                },
                Some((mut content, rem)) => {
                    let ghost old_content = content@;
                    content.insert(0, decoded);
                    proof {
                        assert(content@ =~= seq![decoded] + old_content);
                    }
                    return Some((content, rem));
                },
            }
        }
    }
    if (c0 as u32) < 0x20 {
        return None;
    }
    let sub = slice_subrange(s, 1, s.len());
    proof {
        assert(sub@ =~= s@.skip(1));
    }
    match parse_string_body(sub) {
        None => None,
        Some((mut content, rem)) => {
            let ghost old_content = content@;
            content.insert(0, c0);
            proof {
                assert(content@ =~= seq![c0] + old_content);
            }
            Some((content, rem))
        },
    }
}

} // verus!

verus! {

pub proof fn lemma_arr_model(items: Vec<Json>)
    ensures
        json_model(Json::Arr(items)) == JsonModel::Arr(seq_models(items@)),
{
    let m = json_model(Json::Arr(items));
    assert(m->Arr_0 =~= seq_models(items@));
    assert(m == JsonModel::Arr(seq_models(items@)));
}

pub proof fn lemma_obj_model(fields: Vec<(String, Json)>)
    ensures
        json_model(Json::Obj(fields)) == JsonModel::Obj(fields_models(fields@)),
{
    let m = json_model(Json::Obj(fields));
    assert(m->Obj_0 =~= fields_models(fields@));
    assert(m == JsonModel::Obj(fields_models(fields@)));
}

/// Parses one JSON value, preceded by optional whitespace: the value and
/// the rest of the input after it.
pub fn parse_value<'a>(s: &'a [char]) -> (r: Option<(Json, &'a [char])>)
    ensures
        match r {
            Some(p) => sp_value(s@, s@.len() + 1) == Some((p.0@, p.1@)) && p.1@.len() < s@.len(),
            None => sp_value(s@, s@.len() + 1) is None,
        },
    decreases s@.len(), 0int,
{
    let t = skip_ws_e(s);
    let ghost fuel = s@.len() + 1;
    if t.len() == 0 {
        return None;
    }
    let c0 = t[0];
    if c0 == 'n' {
        if t.len() >= 4 && t[1] == 'u' && t[2] == 'l' && t[3] == 'l' {
            proof {
                assert(t@.subrange(0, 4) =~= seq!['n', 'u', 'l', 'l']);
            }
            let rem = slice_subrange(t, 4, t.len());
            proof {
                assert(rem@ =~= t@.skip(4));
            }
            Some((Json::Null, rem))
        } else {
            proof {
                if starts_lit(t@, seq!['n', 'u', 'l', 'l']) {
                    assert(t@.subrange(0, 4)[1] == t@[1]);
                    assert(t@.subrange(0, 4)[2] == t@[2]);
                    assert(t@.subrange(0, 4)[3] == t@[3]);
                }
                if starts_lit(t@, seq!['t', 'r', 'u', 'e']) {
                    assert(t@.subrange(0, 4)[0] == t@[0]);
                }
                if starts_lit(t@, seq!['f', 'a', 'l', 's', 'e']) {
                    assert(t@.subrange(0, 5)[0] == t@[0]);
                }
            }
            None
        }
    } else if c0 == 't' {
        if t.len() >= 4 && t[1] == 'r' && t[2] == 'u' && t[3] == 'e' {
            proof {
                assert(t@.subrange(0, 4) =~= seq!['t', 'r', 'u', 'e']);
                if starts_lit(t@, seq!['n', 'u', 'l', 'l']) {
                    assert(t@.subrange(0, 4)[0] == t@[0]);
                }
            }
            let rem = slice_subrange(t, 4, t.len());
            proof {
                assert(rem@ =~= t@.skip(4));
            }
            Some((Json::Bool(true), rem))
        } else {
            proof {
                if starts_lit(t@, seq!['n', 'u', 'l', 'l']) {
                    assert(t@.subrange(0, 4)[0] == t@[0]);
                }
                if starts_lit(t@, seq!['t', 'r', 'u', 'e']) {
                    assert(t@.subrange(0, 4)[1] == t@[1]);
                    assert(t@.subrange(0, 4)[2] == t@[2]);
                    assert(t@.subrange(0, 4)[3] == t@[3]);
                }
                if starts_lit(t@, seq!['f', 'a', 'l', 's', 'e']) {
                    assert(t@.subrange(0, 5)[0] == t@[0]);
                }
            }
            None
        }
    } else if c0 == 'f' {
        if t.len() >= 5 && t[1] == 'a' && t[2] == 'l' && t[3] == 's' && t[4] == 'e' {
            proof {
                assert(t@.subrange(0, 5) =~= seq!['f', 'a', 'l', 's', 'e']);
                if starts_lit(t@, seq!['n', 'u', 'l', 'l']) {
                    assert(t@.subrange(0, 4)[0] == t@[0]);
                }
                if starts_lit(t@, seq!['t', 'r', 'u', 'e']) {
                    assert(t@.subrange(0, 4)[0] == t@[0]);
                }
            }
            let rem = slice_subrange(t, 5, t.len());
            proof {
                assert(rem@ =~= t@.skip(5));
            }
            Some((Json::Bool(false), rem))
        } else {
            proof {
                if starts_lit(t@, seq!['n', 'u', 'l', 'l']) {
                    assert(t@.subrange(0, 4)[0] == t@[0]);
                }
                if starts_lit(t@, seq!['t', 'r', 'u', 'e']) {
                    assert(t@.subrange(0, 4)[0] == t@[0]);
                }
                if starts_lit(t@, seq!['f', 'a', 'l', 's', 'e']) {
                    assert(t@.subrange(0, 5)[1] == t@[1]);
                    assert(t@.subrange(0, 5)[2] == t@[2]);
                    assert(t@.subrange(0, 5)[3] == t@[3]);
                    assert(t@.subrange(0, 5)[4] == t@[4]);
                }
            }
            None
        }
    } else {
        proof {
            if starts_lit(t@, seq!['n', 'u', 'l', 'l']) {
                assert(t@.subrange(0, 4)[0] == t@[0]);
            }
            if starts_lit(t@, seq!['t', 'r', 'u', 'e']) {
                assert(t@.subrange(0, 4)[0] == t@[0]);
            }
            if starts_lit(t@, seq!['f', 'a', 'l', 's', 'e']) {
                assert(t@.subrange(0, 5)[0] == t@[0]);
            }
        }
        if c0 == '"' {
            let tb = slice_subrange(t, 1, t.len());
            proof {
                assert(tb@ =~= t@.skip(1));
            }
            match parse_string_body(tb) {
                None => None,
                Some((content, rem)) => {
                    let text = chars_to_string(content.as_slice());
                    Some((Json::Str(text), rem))
                },
            }
        } else {
            if c0 == '-' || digit_at(t, 0) {
                match number_len_e(t) {
                    None => None,
                    Some(n) => {
                        let lex = chars_to_string(slice_subrange(t, 0, n));
                        let rem = slice_subrange(t, n, t.len());
                        proof {
                            assert(lex@ =~= t@.subrange(0, n as int));
                            assert(rem@ =~= t@.skip(n as int));
                        }
                        Some((Json::Num(lex), rem))
                    },
                }
            } else if c0 == '[' {
                let t1 = slice_subrange(t, 1, t.len());
                proof {
                    assert(t1@ =~= t@.skip(1));
                }
                let t2 = skip_ws_e(t1);
                if t2.len() > 0 && t2[0] == ']' {
                    let rem = slice_subrange(t2, 1, t2.len());
                    let items: Vec<Json> = Vec::new();
                    proof {
                        assert(rem@ =~= t2@.skip(1));
                        lemma_arr_model(items);
                        assert(seq_models(items@) =~= Seq::<JsonModel>::empty());
                    }
                    Some((Json::Arr(items), rem))
                } else {
                    match parse_elements(t1) {
                        None => {
                            proof {
                                lemma_sp_elements_fuel(t1@, t1@.len() + 1, (fuel - 1) as nat);
                            }
                            None
                        },
                        Some((items, rem)) => {
                            proof {
                                lemma_sp_elements_fuel(t1@, t1@.len() + 1, (fuel - 1) as nat);
                                lemma_arr_model(items);
                            }
                            Some((Json::Arr(items), rem))
                        },
                    }
                }
            } else if c0 == '{' {
                let t1 = slice_subrange(t, 1, t.len());
                proof {
                    assert(t1@ =~= t@.skip(1));
                }
                let t2 = skip_ws_e(t1);
                if t2.len() > 0 && t2[0] == '}' {
                    let rem = slice_subrange(t2, 1, t2.len());
                    let fields: Vec<(String, Json)> = Vec::new();
                    proof {
                        assert(rem@ =~= t2@.skip(1));
                        lemma_obj_model(fields);
                        assert(fields_models(fields@) =~= Seq::<(Seq<char>, JsonModel)>::empty());
                    }
                    Some((Json::Obj(fields), rem))
                } else {
                    match parse_members(t1) {
                        None => {
                            proof {
                                lemma_sp_members_fuel(t1@, t1@.len() + 1, (fuel - 1) as nat);
                            }
                            None
                        },
                        Some((fields, rem)) => {
                            proof {
                                lemma_sp_members_fuel(t1@, t1@.len() + 1, (fuel - 1) as nat);
                                lemma_obj_model(fields);
                            }
                            Some((Json::Obj(fields), rem))
                        },
                    }
                }
            } else {
                None
            }
        }
    }
}

/// Parses the elements of a non-empty array, after the opening bracket,
/// through the closing bracket.
pub fn parse_elements<'a>(s: &'a [char]) -> (r: Option<(Vec<Json>, &'a [char])>)
    ensures
        match r {
            Some(p) => sp_elements(s@, s@.len() + 1) == Some((seq_models(p.0@), p.1@))
                && p.1@.len() < s@.len(),
            None => sp_elements(s@, s@.len() + 1) is None,
        },
    decreases s@.len(), 1int,
{
    let ghost fuel = s@.len() + 1;
    match parse_value(s) {
        None => None,
        Some((v, r0)) => {
            let r1 = skip_ws_e(r0);
            if r1.len() > 0 && r1[0] == ']' {
                let rem = slice_subrange(r1, 1, r1.len());
                let mut items: Vec<Json> = Vec::new();
                items.push(v);
                proof {
                    assert(rem@ =~= r1@.skip(1));
                    assert(seq_models(items@) =~= seq![json_model(v)]);
                }
                Some((items, rem))
            } else if r1.len() > 0 && r1[0] == ',' {
                let next = slice_subrange(r1, 1, r1.len());
                proof {
                    assert(next@ =~= r1@.skip(1));
                }
                match parse_elements(next) {
                    None => {
                        proof {
                            lemma_sp_elements_fuel(next@, next@.len() + 1, (fuel - 1) as nat);
                        }
                        None
                    },
                    Some((mut items, rem)) => {
                        let ghost old_items = items@;
                        items.insert(0, v);
                        proof {
                            lemma_sp_elements_fuel(next@, next@.len() + 1, (fuel - 1) as nat);
                            assert(seq_models(items@) =~= seq![json_model(v)] + seq_models(
                                old_items,
                            ));
                        }
                        Some((items, rem))
                    },
                }
            } else {
                None
            }
        },
    }
}

/// Parses the members of a non-empty object, after the opening brace,
/// through the closing brace.
pub fn parse_members<'a>(s: &'a [char]) -> (r: Option<(Vec<(String, Json)>, &'a [char])>)
    ensures
        match r {
            Some(p) => sp_members(s@, s@.len() + 1) == Some((fields_models(p.0@), p.1@))
                && p.1@.len() < s@.len(),
            None => sp_members(s@, s@.len() + 1) is None,
        },
    decreases s@.len(), 1int,
{
    let ghost fuel = s@.len() + 1;
    let t = skip_ws_e(s);
    if t.len() == 0 {
        return None;
    }
    if t[0] != '"' {
        return None;
    }
    let tb = slice_subrange(t, 1, t.len());
    proof {
        assert(tb@ =~= t@.skip(1));
    }
    match parse_string_body(tb) {
        None => None,
        Some((keyv, r0)) => {
            let key = chars_to_string(keyv.as_slice());
            let r1 = skip_ws_e(r0);
            if r1.len() == 0 {
                return None;
            }
            if r1[0] != ':' {
                return None;
            }
            let rv = slice_subrange(r1, 1, r1.len());
            proof {
                assert(rv@ =~= r1@.skip(1));
            }
            match parse_value(rv) {
                None => {
                    proof {
                        lemma_sp_value_fuel(rv@, rv@.len() + 1, fuel);
                    }
                    None
                },
                Some((v, r2)) => {
                    proof {
                        lemma_sp_value_fuel(rv@, rv@.len() + 1, fuel);
                    }
                    let r3 = skip_ws_e(r2);
                    if r3.len() > 0 && r3[0] == '}' {
                        let rem = slice_subrange(r3, 1, r3.len());
                        let mut fields: Vec<(String, Json)> = Vec::new();
                        fields.push((key, v));
                        proof {
                            assert(rem@ =~= r3@.skip(1));
                            assert(fields_models(fields@) =~= seq![(key@, json_model(v))]);
                        }
                        Some((fields, rem))
                    } else if r3.len() > 0 && r3[0] == ',' {
                        let next = slice_subrange(r3, 1, r3.len());
                        proof {
                            assert(next@ =~= r3@.skip(1));
                        }
                        match parse_members(next) {
                            None => {
                                proof {
                                    lemma_sp_members_fuel(
                                        next@,
                                        next@.len() + 1,
                                        (fuel - 1) as nat,
                                    );
                                }
                                None
                            },
                            Some((mut fields, rem)) => {
                                let ghost old_fields = fields@;
                                fields.insert(0, (key, v));
                                proof {
                                    lemma_sp_members_fuel(
                                        next@,
                                        next@.len() + 1,
                                        (fuel - 1) as nat,
                                    );
                                    assert(fields_models(fields@) =~= seq![(key@, json_model(v))]
                                        + fields_models(old_fields));
                                }
                                Some((fields, rem))
                            },
                        }
                    } else {
                        None
                    }
                },
            }
        },
    }
}

/// Parses a whole JSON document: one value with nothing but whitespace
/// around it.
pub fn parse_json(s: &str) -> (r: Option<Json>)
    ensures
        match r {
            Some(j) => spec_parse(s@) == Some(j@),
            None => spec_parse(s@) is None,
        },
{
    let chars = str_chars(s);
    match parse_value(chars.as_slice()) {
        None => None,
        Some((j, rem)) => {
            let rem2 = skip_ws_e(rem);
            if rem2.len() == 0 {
                proof {
                    assert(skip_ws(rem@).len() == 0);
                }
                Some(j)
            } else {
                None
            }
        },
    }
}

} // verus!

use crate::text::push_char;

verus! {

// ---------------------------------------------------------------------------
// The serializer
// ---------------------------------------------------------------------------

pub open spec fn hex_char(n: u32) -> char {
    if n == 0 {
        '0'
    } else if n == 1 {
        '1'
    } else if n == 2 {
        '2'
    } else if n == 3 {
        '3'
    } else if n == 4 {
        '4'
    } else if n == 5 {
        '5'
    } else if n == 6 {
        '6'
    } else if n == 7 {
        '7'
    } else if n == 8 {
        '8'
    } else if n == 9 {
        '9'
    } else if n == 10 {
        'A'
    } else if n == 11 {
        'B'
    } else if n == 12 {
        'C'
    } else if n == 13 {
        'D'
    } else if n == 14 {
        'E'
    } else {
        'F'
    }
}

/// How one character is written inside a string: escaped where JSON
/// requires it, itself otherwise.
pub open spec fn esc_char(c: char) -> Seq<char> {
    if c == '"' {
        seq!['\\', '"']
    } else if c == '\\' {
        seq!['\\', '\\']
    } else if c == '\u{8}' {
        seq!['\\', 'b']
    } else if c == '\u{c}' {
        seq!['\\', 'f']
    } else if c == '\n' {
        seq!['\\', 'n']
    } else if c == '\r' {
        seq!['\\', 'r']
    } else if c == '\t' {
        seq!['\\', 't']
    } else if (c as u32) < 0x20 {
        seq!['\\', 'u', '0', '0', hex_char((c as u32) / 16), hex_char((c as u32) % 16)]
    } else {
        seq![c]
    }
}

/// The escaped form of the first `k` characters of `s`.
pub open spec fn esc_string(s: Seq<char>, k: int) -> Seq<char>
    decreases k,
{
    if k <= 0 || k > s.len() {
        Seq::empty()
    } else {
        esc_string(s, k - 1) + esc_char(s[k - 1])
    }
}

/// The text of a JSON value, as the serializer writes it: no whitespace,
/// object members in order.
pub open spec fn json_text(j: JsonModel) -> Seq<char>
    decreases j, 0int,
{
    match j {
        JsonModel::Null => seq!['n', 'u', 'l', 'l'],
        JsonModel::Bool(b) => if b {
            seq!['t', 'r', 'u', 'e']
        } else {
            seq!['f', 'a', 'l', 's', 'e']
        },
        JsonModel::Num(lex) => lex,
        JsonModel::Str(s) => seq!['"'] + esc_string(s, s.len() as int) + seq!['"'],
        JsonModel::Arr(items) => if items.len() == 0 {
            seq!['[', ']']
        } else {
            seq!['['] + json_text_items(items, items.len() as int) + seq![']']
        },
        JsonModel::Obj(fields) => if fields.len() == 0 {
            seq!['{', '}']
        } else {
            seq!['{'] + json_text_members(fields, fields.len() as int) + seq!['}']
        },
    }
}

/// The text of the first `k` array elements, separated by commas.
pub open spec fn json_text_items(items: Seq<JsonModel>, k: int) -> Seq<char>
    decreases items, k,
{
    if k <= 0 || k > items.len() {
        Seq::empty()
    } else if k == 1 {
        json_text(items[0])
    } else {
        json_text_items(items, k - 1) + seq![','] + json_text(items[k - 1])
    }
}

/// The text of the first `k` object members, separated by commas.
pub open spec fn json_text_members(fields: Seq<(Seq<char>, JsonModel)>, k: int) -> Seq<char>
    decreases fields, k,
{
    if k <= 0 || k > fields.len() {
        Seq::empty()
    } else {
        let member = seq!['"'] + esc_string(fields[k - 1].0, fields[k - 1].0.len() as int)
            + seq!['"', ':'] + json_text(fields[k - 1].1);
        if k == 1 {
            member
        } else {
            json_text_members(fields, k - 1) + seq![','] + member
        }
    }
}

pub fn hex_char_e(n: u32) -> (c: char)
    requires
        n < 16,
    ensures
        c == hex_char(n),
{
    if n == 0 {
        '0'
    } else if n == 1 {
        '1'
    } else if n == 2 {
        '2'
    } else if n == 3 {
        '3'
    } else if n == 4 {
        '4'
    } else if n == 5 {
        '5'
    } else if n == 6 {
        '6'
    } else if n == 7 {
        '7'
    } else if n == 8 {
        '8'
    } else if n == 9 {
        '9'
    } else if n == 10 {
        'A'
    } else if n == 11 {
        'B'
    } else if n == 12 {
        'C'
    } else if n == 13 {
        'D'
    } else if n == 14 {
        'E'
    } else {
        'F'
    }
}

/// Appends the escaped form of `s` to `out`.
fn write_escaped(s: &str, out: &mut String)
    ensures
        final(out)@ == old(out)@ + esc_string(s@, s@.len() as int),
{
    let n = s.unicode_len();
    let mut i: usize = 0;
    proof {
        assert(out@ =~= out@ + esc_string(s@, 0));
    }
    while i < n
        invariant
            n == s@.len(),
            i <= n,
            out@ == old(out)@ + esc_string(s@, i as int),
        decreases n - i,
    {
        let ghost pre = out@;
        let c = s.get_char(i);
        if c == '"' {
            push_char(out, '\\');
            push_char(out, '"');
        } else if c == '\\' {
            push_char(out, '\\');
            push_char(out, '\\');
        } else if c == '\u{8}' {
            push_char(out, '\\');
            push_char(out, 'b');
        } else if c == '\u{c}' {
            push_char(out, '\\');
            push_char(out, 'f');
        } else if c == '\n' {
            push_char(out, '\\');
            push_char(out, 'n');
        } else if c == '\r' {
            push_char(out, '\\');
            push_char(out, 'r');
        } else if c == '\t' {
            push_char(out, '\\');
            push_char(out, 't');
        } else {
            let u = c as u32;
            if u < 0x20 {
                push_char(out, '\\');
                push_char(out, 'u');
                push_char(out, '0');
                push_char(out, '0');
                push_char(out, hex_char_e(u / 16));
                push_char(out, hex_char_e(u % 16));
            } else {
                push_char(out, c);
            }
        }
        proof {
            assert(out@ =~= pre + esc_char(c));
        }
        i = i + 1;
        proof {
            assert(out@ =~= old(out)@ + esc_string(s@, i as int));
        }
    }
}

/// Appends the text of `j` to `out`.
#[verifier::loop_isolation(false)]
#[verifier::rlimit(60)]
pub fn write_json(j: &Json, out: &mut String)
    ensures
        final(out)@ == old(out)@ + json_text(j@),
    decreases *j,
{
    match j {
        Json::Null => {
            push_char(out, 'n');
            push_char(out, 'u');
            push_char(out, 'l');
            push_char(out, 'l');
            proof {
                assert(out@ =~= old(out)@ + json_text(j@));
            }
        },
        Json::Bool(b) => {
            if *b {
                push_char(out, 't');
                push_char(out, 'r');
                push_char(out, 'u');
                push_char(out, 'e');
            } else {
                push_char(out, 'f');
                push_char(out, 'a');
                push_char(out, 'l');
                push_char(out, 's');
                push_char(out, 'e');
            }
            proof {
                assert(out@ =~= old(out)@ + json_text(j@));
            }
        },
        Json::Num(lex) => {
            out.append(lex.as_str());
        },
        Json::Str(s) => {
            push_char(out, '"');
            write_escaped(s.as_str(), out);
            push_char(out, '"');
            proof {
                assert(out@ =~= old(out)@ + json_text(j@));
            }
        },
        Json::Arr(items) => {
            proof {
                lemma_arr_model(*items);
            }
            let ghost m = seq_models(items@);
            push_char(out, '[');
            let mut k: usize = 0;
            while k < items.len()
                invariant
                    k <= items@.len(),
                    m == seq_models(items@),
                    m.len() == items@.len(),
                    out@ == old(out)@ + seq!['['] + json_text_items(m, k as int),
                    forall|i: int|
                        0 <= i < items@.len() ==> #[trigger] m[i] == json_model(items@[i]),
                decreases items@.len() - k,
            {
                if k > 0 {
                    push_char(out, ',');
                }
                proof {
                    assert(*j is Arr);
                    assert((*j)->Arr_0 == *items);
                    assert(decreases_to!(*j => (*j)->Arr_0));
                    assert(decreases_to!(*items => items@[k as int]));
                }
                write_json(&items[k], out);
                k = k + 1;
                proof {
                    if k == 1 {
                        assert(out@ =~= old(out)@ + seq!['['] + json_text_items(m, 1));
                    } else {
                        assert(out@ =~= old(out)@ + seq!['['] + (json_text_items(m, k - 1)
                            + seq![','] + json_text(m[k - 1])));
                    }
                }
            }
            push_char(out, ']');
            proof {
                if items@.len() == 0 {
                    assert(out@ =~= old(out)@ + json_text(j@));
                } else {
                    assert(out@ =~= old(out)@ + (seq!['['] + json_text_items(
                        m,
                        items@.len() as int,
                    ) + seq![']']));
                }
            }
        },
        Json::Obj(fields) => {
            proof {
                lemma_obj_model(*fields);
            }
            let ghost m = fields_models(fields@);
            push_char(out, '{');
            let mut k: usize = 0;
            while k < fields.len()
                invariant
                    k <= fields@.len(),
                    m == fields_models(fields@),
                    m.len() == fields@.len(),
                    out@ == old(out)@ + seq!['{'] + json_text_members(m, k as int),
                    forall|i: int|
                        0 <= i < fields@.len() ==> #[trigger] m[i] == (
                        fields@[i].0@,
                        json_model(fields@[i].1),
                        ),
                decreases fields@.len() - k,
            {
                if k > 0 {
                    push_char(out, ',');
                }
                push_char(out, '"');
                write_escaped(fields[k].0.as_str(), out);
                push_char(out, '"');
                push_char(out, ':');
                proof {
                    assert(*j is Obj);
                    assert((*j)->Obj_0 == *fields);
                    assert(decreases_to!(*j => (*j)->Obj_0));
                    assert(decreases_to!(*fields => fields@[k as int]));
                    assert(decreases_to!(fields@[k as int] => fields@[k as int].1));
                }
                write_json(&fields[k].1, out);
                k = k + 1;
                proof {
                    let member = seq!['"'] + esc_string(m[k - 1].0, m[k - 1].0.len() as int)
                        + seq!['"', ':'] + json_text(m[k - 1].1);
                    if k == 1 {
                        assert(out@ =~= old(out)@ + seq!['{'] + member);
                    } else {
                        assert(out@ =~= old(out)@ + seq!['{'] + (json_text_members(m, k - 1)
                            + seq![','] + member));
                    }
                }
            }
            push_char(out, '}');
            proof {
                if fields@.len() == 0 {
                    assert(out@ =~= old(out)@ + json_text(j@));
                } else {
                    assert(out@ =~= old(out)@ + (seq!['{'] + json_text_members(
                        m,
                        fields@.len() as int,
                    ) + seq!['}']));
                }
            }
        },
    }
}

/// The text of a JSON value, as one string.
pub fn to_text(j: &Json) -> (r: String)
    ensures
        r@ == json_text(j@),
{
    let mut out = String::new();
    write_json(j, &mut out);
    proof {
        assert(out@ =~= json_text(j@));
    }
    out
}

} // verus!
