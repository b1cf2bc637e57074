//! Decoding JSON values into typed results.
//!
//! Every response type implements [`FromJson`]: what shapes it accepts
//! (`json_wf`), what a decoded value says about the JSON it came from
//! (`json_models`), and the decoder itself. Objects are read by key, the
//! last occurrence of a key winning; unknown keys are ignored.

use vstd::prelude::*;
use crate::json::{is_number_lexeme, json_model, fields_models, seq_models, Json, JsonModel};
use crate::json::number_len_e;
use crate::text::str_eq;
use crate::time::{rfc3339_ok, Timestamp};

verus! {

// ---------------------------------------------------------------------------
// Looking a key up in an object
// ---------------------------------------------------------------------------

/// The value under `name`, the last occurrence winning.
pub open spec fn obj_lookup(m: Seq<(Seq<char>, JsonModel)>, name: Seq<char>) -> Option<JsonModel>
    decreases m.len(),
{
    if m.len() == 0 {
        None
    } else if m.last().0 == name {
        Some(m.last().1)
    } else {
        obj_lookup(m.drop_last(), name)
    }
}

fn get_field<'a>(fields: &'a Vec<(String, Json)>, name: &str) -> (r: Option<&'a Json>)
    ensures
        match r {
            Some(j) => obj_lookup(fields_models(fields@), name@) == Some(j@),
            None => obj_lookup(fields_models(fields@), name@) is None,
        },
{
    let ghost m = fields_models(fields@);
    let mut i: usize = fields.len();
    proof {
        assert(m.take(i as int) =~= m);
    }
    while i > 0
        invariant
            i <= fields@.len(),
            m == fields_models(fields@),
            m.len() == fields@.len(),
            obj_lookup(m, name@) == obj_lookup(m.take(i as int), name@),
            forall|k: int|
                0 <= k < m.len() ==> #[trigger] m[k] == (fields@[k].0@, json_model(fields@[k].1)),
        decreases i,
    {
        i = i - 1;
        if str_eq(fields[i].0.as_str(), name) {
            proof {
                assert(m.take(i as int + 1).last() == m[i as int]);
            }
            return Some(&fields[i].1);
        }
        proof {
            assert(m.take(i as int + 1).last() == m[i as int]);
            assert(m.take(i as int + 1).drop_last() =~= m.take(i as int));
        }
    }
    proof {
        assert(m.take(0) =~= Seq::<(Seq<char>, JsonModel)>::empty());
    }
    None
}

/// A JSON value models an object exactly when it is an object.
pub proof fn lemma_model_obj(j: Json)
    ensures
        (json_model(j) is Obj) <==> (j is Obj),
{
    match j {
        Json::Null => {},
        Json::Bool(b) => {},
        Json::Num(s) => {},
        Json::Str(s) => {},
        Json::Arr(items) => {},
        Json::Obj(fields) => {},
    }
}

/// A JSON value models `Null` exactly when it is `Null`.
pub proof fn lemma_model_null(j: Json)
    ensures
        (json_model(j) is Null) <==> (j is Null),
{
    match j {
        Json::Null => {},
        Json::Bool(b) => {},
        Json::Num(s) => {},
        Json::Str(s) => {},
        Json::Arr(items) => {},
        Json::Obj(fields) => {},
    }
}

// ---------------------------------------------------------------------------
// The decoding trait
// ---------------------------------------------------------------------------

/// A type that can be decoded from a JSON value.
pub trait FromJson: Sized {
    /// The JSON shapes this type accepts.
    spec fn json_wf(j: JsonModel) -> bool;

    /// What a decoded value says of the JSON it came from.
    spec fn json_models(&self, j: JsonModel) -> bool;

    /// Decodes, succeeding exactly on the accepted shapes.
    fn from_json(j: &Json) -> (r: Option<Self>)
        ensures
            r is Some <==> Self::json_wf(j@),
            r matches Some(v) ==> v.json_models(j@),
    ;
}

/// A required field: present and well-formed for `T`.
pub open spec fn req_wf<T: FromJson>(m: Seq<(Seq<char>, JsonModel)>, name: Seq<char>) -> bool {
    obj_lookup(m, name) matches Some(jf) && T::json_wf(jf)
}

pub open spec fn req_models<T: FromJson>(
    v: T,
    m: Seq<(Seq<char>, JsonModel)>,
    name: Seq<char>,
) -> bool {
    obj_lookup(m, name) matches Some(jf) && v.json_models(jf)
}

/// An optional field: absent, `null`, or well-formed for `T`.
pub open spec fn opt_wf<T: FromJson>(m: Seq<(Seq<char>, JsonModel)>, name: Seq<char>) -> bool {
    match obj_lookup(m, name) {
        None => true,
        Some(jf) => jf is Null || T::json_wf(jf),
    }
}

pub open spec fn opt_models<T: FromJson>(
    v: Option<T>,
    m: Seq<(Seq<char>, JsonModel)>,
    name: Seq<char>,
) -> bool {
    match obj_lookup(m, name) {
        None => v is None,
        Some(jf) => match v {
            None => jf is Null,
            Some(x) => x.json_models(jf),
        },
    }
}

/// Reads a required field of an object.
pub fn req_field<T: FromJson>(fields: &Vec<(String, Json)>, name: &str) -> (r: Option<T>)
    ensures
        r is Some <==> req_wf::<T>(fields_models(fields@), name@),
        r matches Some(v) ==> req_models(v, fields_models(fields@), name@),
{
    match get_field(fields, name) {
        None => None,
        Some(j) => T::from_json(j),
    }
}

/// Reads an optional field of an object: an absent or `null` field is
/// `None`, anything else must be well-formed for `T`.
pub fn opt_field<T: FromJson>(fields: &Vec<(String, Json)>, name: &str) -> (r: Option<Option<T>>)
    ensures
        r is Some <==> opt_wf::<T>(fields_models(fields@), name@),
        r matches Some(v) ==> opt_models(v, fields_models(fields@), name@),
{
    match get_field(fields, name) {
        None => Some(None),
        Some(j) => match j {
            Json::Null => Some(None),
            other => {
                proof {
                    lemma_model_null(*other);
                }
                match T::from_json(other) {
                    Some(v) => Some(Some(v)),
                    None => None,
                }
            },
        },
    }
}

// ---------------------------------------------------------------------------
// Integer lexemes
// ---------------------------------------------------------------------------

pub open spec fn all_digits(s: Seq<char>) -> bool {
    forall|i: int| 0 <= i < s.len() ==> crate::json::is_digit(#[trigger] s[i])
}

/// A non-empty run of digits without a superfluous leading zero.
pub open spec fn is_uint_lexeme(s: Seq<char>) -> bool {
    s.len() > 0 && all_digits(s) && (s.len() == 1 || s[0] != '0')
}

/// The value of the first `k` digits.
pub open spec fn dec_digits_val(s: Seq<char>, k: int) -> nat
    decreases k,
{
    if k <= 0 || k > s.len() {
        0
    } else {
        dec_digits_val(s, k - 1) * 10 + (if crate::json::is_digit(s[k - 1]) {
            (s[k - 1] as u32 - 48) as nat
        } else {
            0
        })
    }
}

pub open spec fn dec_val(s: Seq<char>) -> nat {
    dec_digits_val(s, s.len() as int)
}

/// An integer lexeme: an optional minus sign before digits.
pub open spec fn is_int_lexeme(s: Seq<char>) -> bool {
    if s.len() > 0 && s[0] == '-' {
        is_uint_lexeme(s.skip(1))
    } else {
        is_uint_lexeme(s)
    }
}

pub open spec fn int_val(s: Seq<char>) -> int {
    if s.len() > 0 && s[0] == '-' {
        -(dec_val(s.skip(1)) as int)
    } else {
        dec_val(s) as int
    }
}

proof fn lemma_dec_val_mono(s: Seq<char>, i: int, k: int)
    requires
        0 <= i <= k <= s.len(),
    ensures
        dec_digits_val(s, k) >= dec_digits_val(s, i),
    decreases k,
{
    if k > i {
        lemma_dec_val_mono(s, i, k - 1);
        assert(dec_digits_val(s, k - 1) * 10 == dec_digits_val(s, k - 1) * 9 + dec_digits_val(
            s,
            k - 1,
        ));
    }
}

/// Reads an unsigned decimal string; fails on anything that is not a
/// plain digit run, and on values beyond `u64`.
fn parse_u64_str(s: &str) -> (r: Option<u64>)
    ensures
        match r {
            Some(v) => is_uint_lexeme(s@) && dec_val(s@) == v,
            None => !is_uint_lexeme(s@) || dec_val(s@) > u64::MAX,
        },
{
    let n = s.unicode_len();
    if n == 0 {
        return None;
    }
    if n > 1 && s.get_char(0) == '0' {
        return None;
    }
    let mut acc: u128 = 0;
    let mut i: usize = 0;
    while i < n
        invariant
            n == s@.len(),
            i <= n,
            forall|k: int| 0 <= k < i ==> crate::json::is_digit(#[trigger] s@[k]),
            acc == dec_digits_val(s@, i as int),
            acc <= u64::MAX,
        decreases n - i,
    {
        let c = s.get_char(i);
        let u = c as u32;
        if !(48 <= u && u <= 57) {
            return None;
        }
        let d: u128 = (u - 48) as u128;
        let next: u128 = acc * 10 + d;
        if next > u64::MAX as u128 {
            proof {
                assert(next == dec_digits_val(s@, i as int + 1));
                lemma_dec_val_mono(s@, i as int + 1, s@.len() as int);
            }
            return None;
        }
        acc = next;
        i = i + 1;
    }
    Some(acc as u64)
}

/// Reads a signed decimal string, within the given magnitude bounds.
fn parse_i64_str(s: &str) -> (r: Option<i64>)
    ensures
        match r {
            Some(v) => is_int_lexeme(s@) && int_val(s@) == v,
            None => !is_int_lexeme(s@) || int_val(s@) > i64::MAX || int_val(s@) < i64::MIN,
        },
{
    let n = s.unicode_len();
    if n > 0 && s.get_char(0) == '-' {
        let rest = s.substring_char(1, n);
        proof {
            assert(rest@ == s@.skip(1));
        }
        match parse_u64_str(rest) {
            None => {
                proof {
                    if is_uint_lexeme(s@.skip(1)) {
                        assert(dec_val(s@.skip(1)) > u64::MAX as nat);
                    }
                }
                None
            },
            Some(mag) => {
                if mag <= 9223372036854775807u64 {
                    Some(-(mag as i64))
                } else if mag == 9223372036854775808u64 {
                    Some(i64::MIN)
                } else {
                    None
                }
            },
        }
    } else {
        match parse_u64_str(s) {
            None => None,
            Some(mag) => {
                if mag <= 9223372036854775807u64 {
                    Some(mag as i64)
                } else {
                    None
                }
            },
        }
    }
}

// ---------------------------------------------------------------------------
// Base implementations
// ---------------------------------------------------------------------------

impl FromJson for String {
    open spec fn json_wf(j: JsonModel) -> bool {
        j is Str
    }

    open spec fn json_models(&self, j: JsonModel) -> bool {
        j == JsonModel::Str(self@)
    }

    fn from_json(j: &Json) -> (r: Option<Self>) {
        match j {
            Json::Str(s) => Some(s.clone()),
            _ => None,
        }
    }
}

impl FromJson for bool {
    open spec fn json_wf(j: JsonModel) -> bool {
        j is Bool
    }

    open spec fn json_models(&self, j: JsonModel) -> bool {
        j == JsonModel::Bool(*self)
    }

    fn from_json(j: &Json) -> (r: Option<Self>) {
        match j {
            Json::Bool(b) => Some(*b),
            _ => None,
        }
    }
}

impl FromJson for u64 {
    open spec fn json_wf(j: JsonModel) -> bool {
        j matches JsonModel::Num(lex) && is_uint_lexeme(lex) && dec_val(lex) <= u64::MAX
    }

    open spec fn json_models(&self, j: JsonModel) -> bool {
        j matches JsonModel::Num(lex) && is_uint_lexeme(lex) && dec_val(lex) == *self
    }

    fn from_json(j: &Json) -> (r: Option<Self>) {
        match j {
            Json::Num(lex) => parse_u64_str(lex.as_str()),
            _ => None,
        }
    }
}

impl FromJson for u32 {
    open spec fn json_wf(j: JsonModel) -> bool {
        j matches JsonModel::Num(lex) && is_uint_lexeme(lex) && dec_val(lex) <= u32::MAX
    }

    open spec fn json_models(&self, j: JsonModel) -> bool {
        j matches JsonModel::Num(lex) && is_uint_lexeme(lex) && dec_val(lex) == *self
    }

    fn from_json(j: &Json) -> (r: Option<Self>) {
        match j {
            Json::Num(lex) => match parse_u64_str(lex.as_str()) {
                Some(v) => if v <= u32::MAX as u64 {
                    Some(v as u32)
                } else {
                    None
                },
                None => None,
            },
            _ => None,
        }
    }
}

impl FromJson for u8 {
    open spec fn json_wf(j: JsonModel) -> bool {
        j matches JsonModel::Num(lex) && is_uint_lexeme(lex) && dec_val(lex) <= u8::MAX
    }

    open spec fn json_models(&self, j: JsonModel) -> bool {
        j matches JsonModel::Num(lex) && is_uint_lexeme(lex) && dec_val(lex) == *self
    }

    fn from_json(j: &Json) -> (r: Option<Self>) {
        match j {
            Json::Num(lex) => match parse_u64_str(lex.as_str()) {
                Some(v) => if v <= u8::MAX as u64 {
                    Some(v as u8)
                } else {
                    None
                },
                None => None,
            },
            _ => None,
        }
    }
}

impl FromJson for i64 {
    open spec fn json_wf(j: JsonModel) -> bool {
        j matches JsonModel::Num(lex) && is_int_lexeme(lex) && i64::MIN <= int_val(lex)
            <= i64::MAX
    }

    open spec fn json_models(&self, j: JsonModel) -> bool {
        j matches JsonModel::Num(lex) && is_int_lexeme(lex) && int_val(lex) == *self
    }

    fn from_json(j: &Json) -> (r: Option<Self>) {
        match j {
            Json::Num(lex) => parse_i64_str(lex.as_str()),
            _ => None,
        }
    }
}

impl FromJson for i32 {
    open spec fn json_wf(j: JsonModel) -> bool {
        j matches JsonModel::Num(lex) && is_int_lexeme(lex) && i32::MIN <= int_val(lex)
            <= i32::MAX
    }

    open spec fn json_models(&self, j: JsonModel) -> bool {
        j matches JsonModel::Num(lex) && is_int_lexeme(lex) && int_val(lex) == *self
    }

    fn from_json(j: &Json) -> (r: Option<Self>) {
        match j {
            Json::Num(lex) => match parse_i64_str(lex.as_str()) {
                Some(v) => if i32::MIN as i64 <= v && v <= i32::MAX as i64 {
                    Some(v as i32)
                } else {
                    None
                },
                None => None,
            },
            _ => None,
        }
    }
}

impl FromJson for Timestamp {
    open spec fn json_wf(j: JsonModel) -> bool {
        j matches JsonModel::Str(s) && rfc3339_ok(s)
    }

    open spec fn json_models(&self, j: JsonModel) -> bool {
        j == JsonModel::Str(self.text()) && self.well_formed()
    }

    fn from_json(j: &Json) -> (r: Option<Self>) {
        match j {
            Json::Str(s) => Timestamp::parse(s.as_str()),
            _ => None,
        }
    }
}

/// A JSON number carried as its lexeme, for fields whose values are not
/// integers.
#[derive(Debug, Clone, PartialEq, Eq, Hash)]
pub struct JsonNumber {
    text: String,
}

impl JsonNumber {
    /// The number's lexeme.
    pub closed spec fn lexeme(&self) -> Seq<char> {
        self.text@
    }

    /// Every constructed number holds a valid JSON number lexeme.
    pub closed spec fn well_formed(&self) -> bool {
        is_number_lexeme(self.text@)
    }

    /// Accepts exactly the valid JSON number lexemes.
    pub fn new(s: &str) -> (r: Option<JsonNumber>)
        ensures
            r is Some <==> is_number_lexeme(s@),
            r matches Some(v) ==> v.lexeme() == s@ && v.well_formed(),
    {
        let chars = crate::text::str_chars(s);
        match number_len_e(chars.as_slice()) {
            Some(n) if n == chars.len() => Some(JsonNumber { text: s.to_owned() }),
            _ => None,
        }
    }

    /// The number's lexeme.
    pub fn as_str(&self) -> (r: &str)
        ensures
            r@ == self.lexeme(),
    {
        self.text.as_str()
    }
}

impl FromJson for JsonNumber {
    open spec fn json_wf(j: JsonModel) -> bool {
        j matches JsonModel::Num(lex) && is_number_lexeme(lex)
    }

    open spec fn json_models(&self, j: JsonModel) -> bool {
        j == JsonModel::Num(self.lexeme()) && self.well_formed()
    }

    fn from_json(j: &Json) -> (r: Option<Self>) {
        match j {
            Json::Num(lex) => JsonNumber::new(lex.as_str()),
            _ => None,
        }
    }
}

impl<T: FromJson> FromJson for Option<T> {
    open spec fn json_wf(j: JsonModel) -> bool {
        j is Null || T::json_wf(j)
    }

    open spec fn json_models(&self, j: JsonModel) -> bool {
        match self {
            None => j is Null,
            Some(v) => v.json_models(j),
        }
    }

    fn from_json(j: &Json) -> (r: Option<Self>) {
        match j {
            Json::Null => Some(None),
            other => {
                proof {
                    lemma_model_null(*other);
                }
                match T::from_json(other) {
                    Some(v) => Some(Some(v)),
                    None => None,
                }
            },
        }
    }
}

impl<T: FromJson> FromJson for Vec<T> {
    open spec fn json_wf(j: JsonModel) -> bool {
        j matches JsonModel::Arr(items) && forall|k: int|
            0 <= k < items.len() ==> #[trigger] T::json_wf(items[k])
    }

    open spec fn json_models(&self, j: JsonModel) -> bool {
        j matches JsonModel::Arr(items) && items.len() == self@.len() && forall|k: int|
            0 <= k < items.len() ==> #[trigger] self@[k].json_models(items[k])
    }

    fn from_json(j: &Json) -> (r: Option<Self>) {
        match j {
            Json::Arr(items) => {
                proof {
                    crate::json::lemma_arr_model(*items);
                }
                let ghost m = seq_models(items@);
                let mut out: Vec<T> = Vec::new();
                let mut i: usize = 0;
                while i < items.len()
                    invariant
                        i <= items@.len(),
                        json_model(*j) == JsonModel::Arr(m),
                        m == seq_models(items@),
                        m.len() == items@.len(),
                        out@.len() == i,
                        forall|k: int|
                            0 <= k < m.len() ==> #[trigger] m[k] == json_model(items@[k]),
                        forall|k: int| 0 <= k < i ==> #[trigger] T::json_wf(m[k]),
                        forall|k: int| 0 <= k < i ==> #[trigger] out@[k].json_models(m[k]),
                    decreases items@.len() - i,
                {
                    match T::from_json(&items[i]) {
                        None => {
                            proof {
                                let items2 = json_model(*j)->Arr_0;
                                assert(items2 == m);
                                assert(!T::json_wf(items2[i as int]));
                            }
                            return None;
                        },
                        Some(v) => {
                            out.push(v);
                        },
                    }
                    i = i + 1;
                }
                Some(out)
            },
            _ => None,
        }
    }
}

/// A JSON object read as a list of name/number pairs, in order, for
/// objects whose values are all numbers.
#[derive(Debug, Clone, PartialEq, Eq, Hash)]
pub struct NumberMap {
    pub entries: Vec<(String, JsonNumber)>,
}

impl FromJson for NumberMap {
    open spec fn json_wf(j: JsonModel) -> bool {
        j matches JsonModel::Obj(fields) && forall|k: int|
            0 <= k < fields.len() ==> #[trigger] JsonNumber::json_wf(fields[k].1)
    }

    open spec fn json_models(&self, j: JsonModel) -> bool {
        j matches JsonModel::Obj(fields) && fields.len() == self.entries@.len() && forall|k: int|
            0 <= k < fields.len()
                ==> (#[trigger] self.entries@[k]).0@ == fields[k].0
                && self.entries@[k].1.json_models(fields[k].1)
    }

    fn from_json(j: &Json) -> (r: Option<Self>) {
        match j {
            Json::Obj(fields) => {
                proof {
                    crate::json::lemma_obj_model(*fields);
                }
                let ghost m = fields_models(fields@);
                let mut out: Vec<(String, JsonNumber)> = Vec::new();
                let mut i: usize = 0;
                while i < fields.len()
                    invariant
                        i <= fields@.len(),
                        json_model(*j) == JsonModel::Obj(m),
                        m == fields_models(fields@),
                        m.len() == fields@.len(),
                        out@.len() == i,
                        forall|k: int|
                            0 <= k < m.len() ==> #[trigger] m[k] == (
                            fields@[k].0@,
                            json_model(fields@[k].1),
                            ),
                        forall|k: int| 0 <= k < i ==> #[trigger] JsonNumber::json_wf(m[k].1),
                        forall|k: int|
                            0 <= k < i
                                ==> (#[trigger] out@[k]).0@ == m[k].0
                                && out@[k].1.json_models(m[k].1),
                    decreases fields@.len() - i,
                {
                    match JsonNumber::from_json(&fields[i].1) {
                        None => {
                            proof {
                                let fields2 = json_model(*j)->Obj_0;
                                assert(fields2 == m);
                                assert(!JsonNumber::json_wf(fields2[i as int].1));
                            }
                            return None;
                        },
                        Some(v) => {
                            let name = fields[i].0.clone();
                            out.push((name, v));
                        },
                    }
                    i = i + 1;
                }
                Some(NumberMap { entries: out })
            },
            _ => None,
        }
    }
}

} // verus!
