//! Properties that hold across the library's functions: above all, that
//! parsing the serialized text of a well-formed JSON value gives back
//! exactly that value, and that a serialized envelope decodes to its
//! payload.

use vstd::prelude::*;
use crate::json::{esc_char, esc_string, hex4, hex_char, hex_val, is_digit, is_number_lexeme,
    is_ws, json_text, json_text_items, json_text_members, number_len, digits_end, skip_ws,
    sp_elements, sp_members, sp_string_body, sp_value, spec_parse, starts_lit, JsonModel};

verus! {

// ---------------------------------------------------------------------------
// Well-formed models
// ---------------------------------------------------------------------------

/// A JSON value whose number lexemes are all valid: exactly the values
/// whose serialized text parses back.
pub open spec fn wf_model(j: JsonModel) -> bool
    decreases j,
{
    match j {
        JsonModel::Null => true,
        JsonModel::Bool(b) => true,
        JsonModel::Num(lex) => is_number_lexeme(lex),
        JsonModel::Str(s) => true,
        JsonModel::Arr(items) => forall|i: int|
            0 <= i < items.len() ==> wf_model(#[trigger] items[i]),
        JsonModel::Obj(fields) => forall|i: int|
            0 <= i < fields.len() ==> wf_model(#[trigger] fields[i].1),
    }
}

// ---------------------------------------------------------------------------
// Strings
// ---------------------------------------------------------------------------

/// The escaped form of `s` from index `i` on.
pub open spec fn esc_from(s: Seq<char>, i: int) -> Seq<char>
    decreases s.len() - i,
{
    if i < 0 || i >= s.len() {
        Seq::empty()
    } else {
        esc_char(s[i]) + esc_from(s, i + 1)
    }
}

proof fn lemma_esc_agree(s: Seq<char>, k: int)
    requires
        0 <= k <= s.len(),
    ensures
        esc_string(s, k) + esc_from(s, k) == esc_from(s, 0),
    decreases k,
{
    if k == 0 {
        assert(esc_string(s, 0) + esc_from(s, 0) =~= esc_from(s, 0));
    } else {
        lemma_esc_agree(s, k - 1);
        assert(esc_from(s, k - 1) == esc_char(s[k - 1]) + esc_from(s, k));
        assert(esc_string(s, k) + esc_from(s, k) =~= esc_string(s, k - 1) + (esc_char(s[k - 1])
            + esc_from(s, k)));
    }
}

proof fn lemma_hex_rt(h: u32)
    requires
        h < 16,
    ensures
        hex_val(hex_char(h)) == Some(h),
{
}

/// Parsing the escaped text of a string, a closing quote and a rest
/// yields the string and the rest.
#[verifier::rlimit(100)]
proof fn lemma_string_rt(s: Seq<char>, i: int, rest: Seq<char>)
    requires
        0 <= i <= s.len(),
    ensures
        sp_string_body(esc_from(s, i) + seq!['"'] + rest) == Some((s.skip(i), rest)),
    decreases s.len() - i,
{
    let input = esc_from(s, i) + seq!['"'] + rest;
    if i == s.len() {
        assert(esc_from(s, i) =~= Seq::<char>::empty());
        assert(input =~= seq!['"'] + rest);
        assert(input[0] == '"');
        assert(input.skip(1) =~= rest);
        assert(s.skip(i) =~= Seq::<char>::empty());
    } else {
        let c = s[i];
        let e = esc_char(c);
        let tail = esc_from(s, i + 1) + seq!['"'] + rest;
        assert(input =~= e + tail);
        lemma_string_rt(s, i + 1, rest);
        assert(seq![c] + s.skip(i + 1) =~= s.skip(i));
        if c == '"' || c == '\\' {
            assert(input[0] == '\\');
            assert(input[1] == c);
            assert(input.skip(2) =~= tail);
        } else if c == '\u{8}' {
            assert(input[0] == '\\' && input[1] == 'b');
            assert(input.skip(2) =~= tail);
        } else if c == '\u{c}' {
            assert(input[0] == '\\' && input[1] == 'f');
            assert(input.skip(2) =~= tail);
        } else if c == '\n' {
            assert(input[0] == '\\' && input[1] == 'n');
            assert(input.skip(2) =~= tail);
        } else if c == '\r' {
            assert(input[0] == '\\' && input[1] == 'r');
            assert(input.skip(2) =~= tail);
        } else if c == '\t' {
            assert(input[0] == '\\' && input[1] == 't');
            assert(input.skip(2) =~= tail);
        } else if (c as u32) < 0x20 {
            let u = c as u32;
            assert(input[0] == '\\' && input[1] == 'u');
            assert(input[2] == '0' && input[3] == '0');
            assert(input[4] == hex_char(u / 16) && input[5] == hex_char(u % 16));
            lemma_hex_rt(u / 16);
            lemma_hex_rt(u % 16);
            let h4 = input.skip(2);
            assert(h4[0] == '0' && h4[1] == '0' && h4[2] == hex_char(u / 16) && h4[3] == hex_char(
                u % 16,
            ));
            assert(hex4(h4) == Some(u)) by {
                assert(hex_val('0') == Some(0u32));
                assert((u / 16) * 0x10 + u % 16 == u);
            }
            assert(u < 0xD800);
            vstd::utf8::char_u32_cast(c, u);
            assert((u as char) == c);
            assert(input.skip(6) =~= tail);
        } else {
            assert(e =~= seq![c]);
            assert(input[0] == c);
            assert(input[0] != '"' && input[0] != '\\');
            assert(!((input[0] as u32) < 0x20));
            assert(input.skip(1) =~= tail);
        }
    }
}

} // verus!

verus! {

// ---------------------------------------------------------------------------
// Numbers
// ---------------------------------------------------------------------------

/// What may follow a serialized number so that the parser does not read
/// past it: anything but more number characters.
pub open spec fn num_boundary(rest: Seq<char>) -> bool {
    rest.len() == 0 || !(is_digit(rest[0]) || rest[0] == '.' || rest[0] == 'e' || rest[0] == 'E'
        || rest[0] == '+' || rest[0] == '-')
}

proof fn lemma_digits_end_concat(a: Seq<char>, b: Seq<char>, i: int)
    requires
        0 <= i <= a.len(),
        b.len() == 0 || !is_digit(b[0]),
    ensures
        digits_end(a + b, i) == digits_end(a, i),
    decreases a.len() - i,
{
    let s = a + b;
    if i < a.len() {
        assert(s[i] == a[i]);
        if is_digit(a[i]) {
            lemma_digits_end_concat(a, b, i + 1);
        }
    } else {
        if i < s.len() {
            assert(s[i] == b[0]);
        }
    }
}

#[verifier::rlimit(100)]
proof fn lemma_number_rt(lex: Seq<char>, rest: Seq<char>)
    requires
        is_number_lexeme(lex),
        num_boundary(rest),
    ensures
        number_len(lex + rest) == Some(lex.len() as int),
{
    let s = lex + rest;
    let n = lex.len() as int;
    crate::json::lemma_number_len_bounds(lex);
    assert(forall|k: int| 0 <= k < n ==> s[k] == lex[k]);
    let i0: int = if lex.len() > 0 && lex[0] == '-' {
        1
    } else {
        0
    };
    assert(i0 < n && is_digit(lex[i0]));
    let i1: int = if lex[i0] == '0' {
        i0 + 1
    } else {
        digits_end(lex, i0)
    };
    crate::json::lemma_digits_end_bounds(lex, i0);
    lemma_digits_end_concat(lex, rest, i0);
    assert(i0 < i1 <= n);
    let i2: int = if i1 < n && lex[i1] == '.' {
        if i1 + 1 < n && is_digit(lex[i1 + 1]) {
            digits_end(lex, i1 + 1)
        } else {
            -1
        }
    } else {
        i1
    };
    assert(i2 >= 0);
    if i1 < n && lex[i1] == '.' {
        assert(i1 + 1 < n && is_digit(lex[i1 + 1]));
        crate::json::lemma_digits_end_bounds(lex, i1 + 1);
        lemma_digits_end_concat(lex, rest, i1 + 1);
    }
    assert(i1 <= i2 <= n);
    // the fraction decision is the same on s
    assert((i1 < s.len() && s[i1] == '.') <==> (i1 < n && lex[i1] == '.')) by {
        if i1 == n {
            if i1 < s.len() {
                assert(s[i1] == rest[0]);
            }
        }
    }
    let i3: int = if i2 < n && (lex[i2] == 'e' || lex[i2] == 'E') {
        let jj: int = if i2 + 1 < n && (lex[i2 + 1] == '+' || lex[i2 + 1] == '-') {
            i2 + 2
        } else {
            i2 + 1
        };
        if jj < n && is_digit(lex[jj]) {
            digits_end(lex, jj)
        } else {
            -1
        }
    } else {
        i2
    };
    assert(i3 == n);
    assert((i2 < s.len() && (s[i2] == 'e' || s[i2] == 'E')) <==> (i2 < n && (lex[i2] == 'e'
        || lex[i2] == 'E'))) by {
        if i2 == n {
            if i2 < s.len() {
                assert(s[i2] == rest[0]);
            }
        }
    }
    if i2 < n && (lex[i2] == 'e' || lex[i2] == 'E') {
        let jj: int = if i2 + 1 < n && (lex[i2 + 1] == '+' || lex[i2 + 1] == '-') {
            i2 + 2
        } else {
            i2 + 1
        };
        assert(jj < n && is_digit(lex[jj]));
        crate::json::lemma_digits_end_bounds(lex, jj);
        lemma_digits_end_concat(lex, rest, jj);
        // the sign decision is the same on s
        assert((i2 + 1 < s.len() && (s[i2 + 1] == '+' || s[i2 + 1] == '-')) <==> (i2 + 1 < n && (
        lex[i2 + 1] == '+' || lex[i2 + 1] == '-'))) by {
            if i2 + 1 == n {
                if i2 + 1 < s.len() {
                    assert(s[i2 + 1] == rest[0]);
                }
            }
        }
    }
}

// ---------------------------------------------------------------------------
// First characters
// ---------------------------------------------------------------------------

proof fn lemma_text_first(j: JsonModel)
    requires
        wf_model(j),
    ensures
        json_text(j).len() > 0,
        !is_ws(json_text(j)[0]),
        json_text(j)[0] != ']',
        json_text(j)[0] != '}',
        json_text(j)[0] != ',',
        json_text(j)[0] != ':',
{
    match j {
        JsonModel::Null => {},
        JsonModel::Bool(b) => {},
        JsonModel::Num(lex) => {
            crate::json::lemma_number_len_bounds(lex);
            if lex[0] != '-' {
                assert(is_digit(lex[0]));
            }
        },
        JsonModel::Str(s) => {},
        JsonModel::Arr(items) => {},
        JsonModel::Obj(fields) => {},
    }
}

} // verus!

verus! {

// ---------------------------------------------------------------------------
// Arrays and objects: the serialized text, decomposed from the left
// ---------------------------------------------------------------------------

pub open spec fn items_text(items: Seq<JsonModel>) -> Seq<char>
    decreases items.len(),
{
    if items.len() == 0 {
        Seq::empty()
    } else if items.len() == 1 {
        json_text(items[0])
    } else {
        json_text(items[0]) + seq![','] + items_text(items.skip(1))
    }
}

proof fn lemma_jti_shift(items: Seq<JsonModel>, k: int)
    requires
        2 <= items.len(),
        1 <= k <= items.len() - 1,
    ensures
        json_text_items(items, k + 1) == json_text(items[0]) + seq![','] + json_text_items(
            items.skip(1),
            k,
        ),
    decreases k,
{
    if k == 1 {
        assert(items.skip(1)[0] == items[1]);
        assert(json_text_items(items, 1) == json_text(items[0]));
        assert(json_text_items(items.skip(1), 1) == json_text(items.skip(1)[0]));
        assert(json_text_items(items, 2) =~= json_text(items[0]) + seq![','] + json_text_items(
            items.skip(1),
            1,
        ));
    } else {
        lemma_jti_shift(items, k - 1);
        assert(items.skip(1)[k - 1] == items[k]);
        assert(json_text_items(items, k + 1) =~= json_text(items[0]) + seq![',']
            + json_text_items(items.skip(1), k));
    }
}

proof fn lemma_items_text_eq(items: Seq<JsonModel>)
    requires
        items.len() >= 1,
    ensures
        json_text_items(items, items.len() as int) == items_text(items),
    decreases items.len(),
{
    if items.len() == 1 {
    } else {
        lemma_jti_shift(items, items.len() - 1);
        lemma_items_text_eq(items.skip(1));
    }
}

pub open spec fn member_text(f: (Seq<char>, JsonModel)) -> Seq<char> {
    seq!['"'] + esc_string(f.0, f.0.len() as int) + seq!['"', ':'] + json_text(f.1)
}

pub open spec fn members_text(fields: Seq<(Seq<char>, JsonModel)>) -> Seq<char>
    decreases fields.len(),
{
    if fields.len() == 0 {
        Seq::empty()
    } else if fields.len() == 1 {
        member_text(fields[0])
    } else {
        member_text(fields[0]) + seq![','] + members_text(fields.skip(1))
    }
}

proof fn lemma_jtm_shift(fields: Seq<(Seq<char>, JsonModel)>, k: int)
    requires
        2 <= fields.len(),
        1 <= k <= fields.len() - 1,
    ensures
        json_text_members(fields, k + 1) == member_text(fields[0]) + seq![','] + json_text_members(
            fields.skip(1),
            k,
        ),
    decreases k,
{
    if k == 1 {
        assert(fields.skip(1)[0] == fields[1]);
        assert(json_text_members(fields, 1) == member_text(fields[0]));
        assert(json_text_members(fields.skip(1), 1) == member_text(fields.skip(1)[0]));
        assert(json_text_members(fields, 2) =~= member_text(fields[0]) + seq![',']
            + json_text_members(fields.skip(1), 1));
    } else {
        lemma_jtm_shift(fields, k - 1);
        assert(fields.skip(1)[k - 1] == fields[k]);
        assert(json_text_members(fields, k + 1) =~= member_text(fields[0]) + seq![',']
            + json_text_members(fields.skip(1), k));
    }
}

proof fn lemma_members_text_eq(fields: Seq<(Seq<char>, JsonModel)>)
    requires
        fields.len() >= 1,
    ensures
        json_text_members(fields, fields.len() as int) == members_text(fields),
    decreases fields.len(),
{
    if fields.len() == 1 {
    } else {
        lemma_jtm_shift(fields, fields.len() - 1);
        lemma_members_text_eq(fields.skip(1));
    }
}

} // verus!

verus! {

// ---------------------------------------------------------------------------
// The round trip
// ---------------------------------------------------------------------------

proof fn lemma_not_literal(s: Seq<char>)
    requires
        s.len() > 0,
        s[0] != 'n',
        s[0] != 't',
        s[0] != 'f',
    ensures
        !starts_lit(s, seq!['n', 'u', 'l', 'l']),
        !starts_lit(s, seq!['t', 'r', 'u', 'e']),
        !starts_lit(s, seq!['f', 'a', 'l', 's', 'e']),
{
    if starts_lit(s, seq!['n', 'u', 'l', 'l']) {
        assert(s.subrange(0, 4)[0] == s[0]);
    }
    if starts_lit(s, seq!['t', 'r', 'u', 'e']) {
        assert(s.subrange(0, 4)[0] == s[0]);
    }
    if starts_lit(s, seq!['f', 'a', 'l', 's', 'e']) {
        assert(s.subrange(0, 5)[0] == s[0]);
    }
}

/// The round trip for the leaf values: null, booleans, numbers and
/// strings.
#[verifier::rlimit(100)]
proof fn lemma_value_rt_scalar(j: JsonModel, rest: Seq<char>, fuel: nat)
    requires
        wf_model(j),
        num_boundary(rest),
        fuel > (json_text(j) + rest).len(),
        j is Null || j is Bool || j is Num || j is Str,
    ensures
        sp_value(json_text(j) + rest, fuel) == Some((j, rest)),
{
    let s = json_text(j) + rest;
    lemma_text_first(j);
    assert(s[0] == json_text(j)[0]);
    assert(skip_ws(s) == s);
    match j {
        JsonModel::Null => {
            assert(starts_lit(s, seq!['n', 'u', 'l', 'l'])) by {
                assert(s.subrange(0, 4) =~= seq!['n', 'u', 'l', 'l']);
            }
            assert(s.skip(4) =~= rest);
        },
        JsonModel::Bool(b) => {
            if b {
                assert(s[0] == 't');
                if starts_lit(s, seq!['n', 'u', 'l', 'l']) {
                    assert(s.subrange(0, 4)[0] == s[0]);
                }
                assert(starts_lit(s, seq!['t', 'r', 'u', 'e'])) by {
                    assert(s.subrange(0, 4) =~= seq!['t', 'r', 'u', 'e']);
                }
                assert(s.skip(4) =~= rest);
            } else {
                assert(s[0] == 'f');
                if starts_lit(s, seq!['n', 'u', 'l', 'l']) {
                    assert(s.subrange(0, 4)[0] == s[0]);
                }
                if starts_lit(s, seq!['t', 'r', 'u', 'e']) {
                    assert(s.subrange(0, 4)[0] == s[0]);
                }
                assert(starts_lit(s, seq!['f', 'a', 'l', 's', 'e'])) by {
                    assert(s.subrange(0, 5) =~= seq!['f', 'a', 'l', 's', 'e']);
                }
                assert(s.skip(5) =~= rest);
            }
        },
        JsonModel::Num(lex) => {
            crate::json::lemma_number_len_bounds(lex);
            if lex[0] != '-' {
                assert(is_digit(lex[0]));
            }
            lemma_not_literal(s);
            assert(s[0] != '"');
            lemma_number_rt(lex, rest);
            assert(s.subrange(0, lex.len() as int) =~= lex);
            assert(s.skip(lex.len() as int) =~= rest);
        },
        JsonModel::Str(content) => {
            assert(s[0] == '"');
            lemma_not_literal(s);
            lemma_esc_agree(content, content.len() as int);
            assert(esc_from(content, content.len() as int) =~= Seq::<char>::empty());
            assert(esc_string(content, content.len() as int) + Seq::<char>::empty() =~= esc_string(
                content,
                content.len() as int,
            ));
            assert(s.skip(1) =~= esc_from(content, 0) + seq!['"'] + rest);
            lemma_string_rt(content, 0, rest);
            assert(content.skip(0) =~= content);
        },
        JsonModel::Arr(items) => {},
        JsonModel::Obj(fields) => {},
    }
}

/// The round trip for arrays.
#[verifier::rlimit(100)]
proof fn lemma_value_rt_arr(j: JsonModel, rest: Seq<char>, fuel: nat)
    requires
        wf_model(j),
        num_boundary(rest),
        fuel > (json_text(j) + rest).len(),
        j is Arr,
    ensures
        sp_value(json_text(j) + rest, fuel) == Some((j, rest)),
    decreases j, 0int,
{
    let s = json_text(j) + rest;
    lemma_text_first(j);
    assert(s[0] == json_text(j)[0]);
    assert(skip_ws(s) == s);
    let items = j->Arr_0;
    assert(s[0] == '[');
    lemma_not_literal(s);
    if items.len() == 0 {
        assert(s.skip(1) =~= seq![']'] + rest);
        let t = skip_ws(s.skip(1));
        assert(t == s.skip(1));
        assert(t.skip(1) =~= rest);
        assert(sp_value(s, fuel) == Some((JsonModel::Arr(Seq::empty()), rest)));
        assert(JsonModel::Arr(Seq::<JsonModel>::empty()) == j) by {
            assert(items =~= Seq::<JsonModel>::empty());
        }
    } else {
        lemma_items_text_eq(items);
        assert(s.skip(1) =~= items_text(items) + seq![']'] + rest);
        lemma_text_first(items[0]);
        let body = items_text(items) + seq![']'] + rest;
        assert(body[0] == json_text(items[0])[0]) by {
            if items.len() == 1 {
            } else {
                assert(items_text(items)[0] == json_text(items[0])[0]);
            }
        }
        assert(skip_ws(body) == body);
        assert(body[0] != ']');
        lemma_elements_rt(items, rest, (fuel - 1) as nat);
    }
}

/// The round trip for objects.
#[verifier::rlimit(100)]
proof fn lemma_value_rt_obj(j: JsonModel, rest: Seq<char>, fuel: nat)
    requires
        wf_model(j),
        num_boundary(rest),
        fuel > (json_text(j) + rest).len(),
        j is Obj,
    ensures
        sp_value(json_text(j) + rest, fuel) == Some((j, rest)),
    decreases j, 0int,
{
    let s = json_text(j) + rest;
    lemma_text_first(j);
    assert(s[0] == json_text(j)[0]);
    assert(skip_ws(s) == s);
    let fields = j->Obj_0;
    assert(s[0] == '{');
    lemma_not_literal(s);
    if fields.len() == 0 {
        assert(s.skip(1) =~= seq!['}'] + rest);
        let t = skip_ws(s.skip(1));
        assert(t == s.skip(1));
        assert(t.skip(1) =~= rest);
        assert(sp_value(s, fuel) == Some((JsonModel::Obj(Seq::empty()), rest)));
        assert(JsonModel::Obj(Seq::<(Seq<char>, JsonModel)>::empty()) == j) by {
            assert(fields =~= Seq::<(Seq<char>, JsonModel)>::empty());
        }
    } else {
        lemma_members_text_eq(fields);
        assert(s.skip(1) =~= members_text(fields) + seq!['}'] + rest);
        let body = members_text(fields) + seq!['}'] + rest;
        assert(body[0] == '"') by {
            assert(member_text(fields[0])[0] == '"');
            if fields.len() == 1 {
            } else {
                assert(members_text(fields)[0] == member_text(fields[0])[0]);
            }
        }
        assert(skip_ws(body) == body);
        assert(body[0] != '}');
        lemma_members_rt(fields, rest, (fuel - 1) as nat);
    }
}

/// Parsing the serialized text of a well-formed value, followed by
/// anything that does not extend a number, yields the value and leaves
/// the rest.
proof fn lemma_value_rt(j: JsonModel, rest: Seq<char>, fuel: nat)
    requires
        wf_model(j),
        num_boundary(rest),
        fuel > (json_text(j) + rest).len(),
    ensures
        sp_value(json_text(j) + rest, fuel) == Some((j, rest)),
    decreases j, 1int,
{
    match j {
        JsonModel::Null => {
            lemma_value_rt_scalar(j, rest, fuel);
        },
        JsonModel::Bool(b) => {
            lemma_value_rt_scalar(j, rest, fuel);
        },
        JsonModel::Num(lex) => {
            lemma_value_rt_scalar(j, rest, fuel);
        },
        JsonModel::Str(content) => {
            lemma_value_rt_scalar(j, rest, fuel);
        },
        JsonModel::Arr(items) => {
            lemma_value_rt_arr(j, rest, fuel);
        },
        JsonModel::Obj(fields) => {
            lemma_value_rt_obj(j, rest, fuel);
        },
    }
}

/// Parsing the serialized elements of a non-empty array, the closing
/// bracket and a rest yields the elements and the rest.
#[verifier::rlimit(100)]
proof fn lemma_elements_rt(items: Seq<JsonModel>, rest: Seq<char>, fuel: nat)
    requires
        items.len() >= 1,
        forall|i: int| 0 <= i < items.len() ==> wf_model(#[trigger] items[i]),
        fuel > (items_text(items) + seq![']'] + rest).len(),
    ensures
        sp_elements(items_text(items) + seq![']'] + rest, fuel) == Some((items, rest)),
    decreases items, 1int,
{
    let s = items_text(items) + seq![']'] + rest;
    if items.len() == 1 {
        let tail = seq![']'] + rest;
        assert(s =~= json_text(items[0]) + tail);
        lemma_value_rt(items[0], tail, fuel);
        assert(skip_ws(tail) == tail);
        assert(tail[0] == ']');
        assert(tail.skip(1) =~= rest);
        assert(seq![items[0]] =~= items);
    } else {
        let tail = seq![','] + items_text(items.skip(1)) + seq![']'] + rest;
        assert(s =~= json_text(items[0]) + tail);
        lemma_value_rt(items[0], tail, fuel);
        assert(skip_ws(tail) == tail);
        assert(tail[0] == ',');
        let next = items_text(items.skip(1)) + seq![']'] + rest;
        assert(tail.skip(1) =~= next);
        vstd::seq::axiom_seq_len_decreases::<JsonModel>(items, items.skip(1));
        lemma_elements_rt(items.skip(1), rest, (fuel - 1) as nat);
        assert(seq![items[0]] + items.skip(1) =~= items);
    }
}

/// Parsing the serialized members of a non-empty object, the closing
/// brace and a rest yields the members and the rest.
#[verifier::rlimit(100)]
proof fn lemma_members_rt(fields: Seq<(Seq<char>, JsonModel)>, rest: Seq<char>, fuel: nat)
    requires
        fields.len() >= 1,
        forall|i: int| 0 <= i < fields.len() ==> wf_model(#[trigger] fields[i].1),
        fuel > (members_text(fields) + seq!['}'] + rest).len(),
    ensures
        sp_members(members_text(fields) + seq!['}'] + rest, fuel) == Some((fields, rest)),
    decreases fields, 1int,
{
    let s = members_text(fields) + seq!['}'] + rest;
    let key = fields[0].0;
    let v = fields[0].1;
    let tail2: Seq<char> = if fields.len() == 1 {
        seq!['}'] + rest
    } else {
        seq![','] + members_text(fields.skip(1)) + seq!['}'] + rest
    };
    assert(s =~= member_text(fields[0]) + tail2);
    assert(s[0] == '"');
    assert(skip_ws(s) == s);
    let rst = seq![':'] + json_text(v) + tail2;
    lemma_esc_agree(key, key.len() as int);
    assert(esc_from(key, key.len() as int) =~= Seq::<char>::empty());
    assert(esc_string(key, key.len() as int) + Seq::<char>::empty() =~= esc_string(
        key,
        key.len() as int,
    ));
    assert(s.skip(1) =~= esc_from(key, 0) + seq!['"'] + rst);
    lemma_string_rt(key, 0, rst);
    assert(key.skip(0) =~= key);
    assert(skip_ws(rst) == rst);
    assert(rst[0] == ':');
    assert(rst.skip(1) =~= json_text(v) + tail2);
    assert(num_boundary(tail2));
    lemma_value_rt(v, tail2, fuel);
    assert(skip_ws(tail2) == tail2);
    if fields.len() == 1 {
        assert(tail2[0] == '}');
        assert(tail2.skip(1) =~= rest);
        assert(seq![(key, v)] =~= fields);
    } else {
        assert(tail2[0] == ',');
        let next = members_text(fields.skip(1)) + seq!['}'] + rest;
        assert(tail2.skip(1) =~= next);
        vstd::seq::axiom_seq_len_decreases::<(Seq<char>, JsonModel)>(fields, fields.skip(1));
        lemma_members_rt(fields.skip(1), rest, (fuel - 1) as nat);
        assert(seq![(key, v)] + fields.skip(1) =~= fields);
    }
}

/// The round trip: parsing the serialized text of a well-formed JSON
/// value yields back exactly that value.
pub proof fn lemma_parse_round_trip(j: JsonModel)
    requires
        wf_model(j),
    ensures
        spec_parse(json_text(j)) == Some(j),
{
    let s = json_text(j);
    assert(s + Seq::<char>::empty() =~= s);
    lemma_value_rt(j, Seq::empty(), s.len() + 1);
    assert(skip_ws(Seq::<char>::empty()).len() == 0);
}

} // verus!

use crate::codec::{int_val, is_int_lexeme, obj_lookup, FromJson};
use crate::utils::fetch::{envelope_ok, payload_models};

verus! {

// ---------------------------------------------------------------------------
// The envelope round trip
// ---------------------------------------------------------------------------

/// An envelope built around a payload: a numeric status, the payload
/// under `data`, and a null `error`.
pub open spec fn envelope_model(status_lex: Seq<char>, d: JsonModel) -> JsonModel {
    JsonModel::Obj(
        seq![
            ("status"@, JsonModel::Num(status_lex)),
            ("data"@, d),
            ("error"@, JsonModel::Null),
        ],
    )
}

/// The envelope round trip: serializing an envelope around any
/// well-formed payload gives a body that decodes, and anything the
/// decoder yields from that body models exactly that payload.
#[verifier::rlimit(100)]
pub proof fn lemma_envelope_round_trip<T: FromJson>(status_lex: Seq<char>, d: JsonModel)
    requires
        wf_model(d),
        is_number_lexeme(status_lex),
        is_int_lexeme(status_lex),
        i32::MIN <= int_val(status_lex) <= i32::MAX,
        T::json_wf(d),
    ensures
        envelope_ok::<T>(json_text(envelope_model(status_lex, d))),
        forall|v: T|
            payload_models(v, json_text(envelope_model(status_lex, d))) ==> v.json_models(d),
{
    let env = envelope_model(status_lex, d);
    let m = env->Obj_0;
    assert(wf_model(env)) by {
        assert forall|i: int| 0 <= i < m.len() implies wf_model(#[trigger] m[i].1) by {
            if i == 0 {
                assert(wf_model(m[0].1));
            } else if i == 1 {
                assert(wf_model(m[1].1));
            } else {
                assert(wf_model(m[2].1));
            }
        }
    }
    lemma_parse_round_trip(env);
    reveal_strlit("status");
    reveal_strlit("data");
    reveal_strlit("error");
    assert("status"@.len() == 6);
    assert("data"@.len() == 4);
    assert("error"@.len() == 5);
    let ab = seq![("status"@, JsonModel::Num(status_lex)), ("data"@, d)];
    let a = seq![("status"@, JsonModel::Num(status_lex))];
    assert(m.drop_last() =~= ab);
    assert(ab.drop_last() =~= a);
    assert(m.last().0 != "status"@);
    assert(obj_lookup(m, "status"@) == obj_lookup(ab, "status"@));
    assert(ab.last().0 != "status"@);
    assert(obj_lookup(ab, "status"@) == obj_lookup(a, "status"@));
    assert(a.last().0 == "status"@);
    assert(obj_lookup(a, "status"@) == Some(JsonModel::Num(status_lex)));
    assert(m.last().0 != "data"@);
    assert(obj_lookup(m, "data"@) == obj_lookup(ab, "data"@));
    assert(ab.last().0 == "data"@);
    assert(obj_lookup(ab, "data"@) == Some(d));
    assert(m.last().0 == "error"@);
    assert(obj_lookup(m, "error"@) == Some(JsonModel::Null));
    assert forall|v: T|
        payload_models(v, json_text(envelope_model(status_lex, d))) implies v.json_models(
        d,
    ) by {
    }
}

} // verus!
