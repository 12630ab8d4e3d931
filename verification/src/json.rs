//! The JSON wire format the protocol speaks: a value model, an exact
//! grammar written as specification functions, a parser proved equal to
//! that grammar, and an encoder proved to produce the text the grammar
//! accepts.
//!
//! The grammar covers objects, arrays, strings with the single-character
//! escapes and `\uXXXX` for scalar values outside the surrogate range,
//! numbers (kept as their lexeme), booleans and null. Inside strings,
//! raw control characters are refused, as are `\uXXXX` escapes naming
//! surrogates (paired surrogate escapes are not combined).

use vstd::prelude::*;
use crate::text::chars_eq_str;

verus! {

broadcast use vstd::std_specs::vec::group_vec_axioms;

/// One parsed JSON value. Strings hold their decoded characters;
/// numbers hold their lexeme uninterpreted.
#[derive(Debug)]
pub enum JsonValue {
    Null,
    Bool(bool),
    Num(Vec<char>),
    Str(Vec<char>),
    Arr(Vec<JsonValue>),
    Obj(Vec<(Vec<char>, JsonValue)>),
}

/// The mathematical model of a JSON value.
pub enum JsonModel {
    Null,
    Bool(bool),
    Num(Seq<char>),
    Str(Seq<char>),
    Arr(Seq<JsonModel>),
    Obj(Seq<(Seq<char>, JsonModel)>),
}

impl View for JsonValue {
    type V = JsonModel;

    open spec fn view(&self) -> JsonModel
        decreases self,
    {
        match self {
            JsonValue::Null => JsonModel::Null,
            JsonValue::Bool(b) => JsonModel::Bool(*b),
            JsonValue::Num(l) => JsonModel::Num(l@),
            JsonValue::Str(s) => JsonModel::Str(s@),
            JsonValue::Arr(items) => JsonModel::Arr(arr_model(items@)),
            JsonValue::Obj(fields) => JsonModel::Obj(obj_model(fields@)),
        }
    }
}

/// The models of the elements of an array, element by element.
pub open spec fn arr_model(items: Seq<JsonValue>) -> Seq<JsonModel>
    decreases items,
{
    Seq::new(
        items.len(),
        |i: int|
            if 0 <= i < items.len() {
                items[i]@
            } else {
                JsonModel::Null
            },
    )
}

/// The models of the fields of an object, field by field.
pub open spec fn obj_model(fields: Seq<(Vec<char>, JsonValue)>) -> Seq<(Seq<char>, JsonModel)>
    decreases fields,
{
    Seq::new(
        fields.len(),
        |i: int|
            if 0 <= i < fields.len() {
                (fields[i].0@, fields[i].1@)
            } else {
                (Seq::<char>::empty(), JsonModel::Null)
            },
    )
}

impl JsonModel {
    /// The value of the first field named `key`, if the model is an
    /// object holding one.
    pub open spec fn field(self, key: Seq<char>) -> Option<JsonModel> {
        match self {
            JsonModel::Obj(fields) => JsonModel::lookup(fields, key),
            _ => None,
        }
    }

    /// First-match lookup among object fields.
    pub open spec fn lookup(fields: Seq<(Seq<char>, JsonModel)>, key: Seq<char>) -> Option<
        JsonModel,
    >
        decreases fields.len(),
    {
        if fields.len() == 0 {
            None
        } else if fields[0].0 == key {
            Some(fields[0].1)
        } else {
            JsonModel::lookup(fields.skip(1), key)
        }
    }
}

impl JsonValue {
    /// The value of the first field named `key`, when `self` is an
    /// object that has one; `None` otherwise.
    pub fn get(&self, key: &str) -> (r: Option<&JsonValue>)
        ensures
            match r {
                Some(v) => self@.field(key@) == Some(v@),
                None => self@.field(key@) is None,
            },
    {
        match self {
            JsonValue::Obj(fields) => {
                let mut i: usize = 0;
                while i < fields.len()
                    invariant
                        i <= fields@.len(),
                        self@ == JsonModel::Obj(obj_model(fields@)),
                        forall|k: int| 0 <= k < i ==> obj_model(fields@)[k].0 != key@,
                    decreases fields@.len() - i,
                {
                    if chars_eq_str(&fields[i].0, key) {
                        proof {
                            lemma_lookup_first_match(obj_model(fields@), key@, i as int);
                        }
                        return Some(&fields[i].1);
                    }
                    i = i + 1;
                }
                proof {
                    lemma_lookup_no_match(obj_model(fields@), key@);
                }
                None
            },
            _ => None,
        }
    }
}

// ------------------------------------------------------------------
// Reading numbers and strings out of a parsed value.
// ------------------------------------------------------------------

/// Numeric value of a run of decimal digits.
pub open spec fn dec_val(s: Seq<char>) -> int
    decreases s.len(),
{
    if s.len() == 0 {
        0
    } else {
        dec_val(s.drop_last()) * 10 + (s.last() as u32 - 48)
    }
}

/// Every character is a decimal digit.
pub open spec fn all_digits(s: Seq<char>) -> bool {
    forall|k: int| 0 <= k < s.len() ==> is_digit(s[k])
}

/// The `u32` a model names: a number whose lexeme is a plain run of
/// digits with a value that fits.
pub open spec fn model_u32(m: JsonModel) -> Option<u32> {
    match m {
        JsonModel::Num(lex) => if lex.len() > 0 && all_digits(lex) && dec_val(lex) <= u32::MAX {
            Some(dec_val(lex) as u32)
        } else {
            None
        },
        _ => None,
    }
}

/// A digit run names a value of at least zero.
proof fn lemma_dec_val_nonneg(s: Seq<char>)
    requires
        all_digits(s),
    ensures
        dec_val(s) >= 0,
    decreases s.len(),
{
    if s.len() > 0 {
        assert(all_digits(s.drop_last()));
        lemma_dec_val_nonneg(s.drop_last());
    }
}

/// Extending a digit run to the right never lowers its value.
proof fn lemma_dec_val_take_le(s: Seq<char>, i: int)
    requires
        all_digits(s),
        0 <= i <= s.len(),
    ensures
        dec_val(s.take(i)) <= dec_val(s),
    decreases s.len() - i,
{
    if i < s.len() {
        assert(s.take(i + 1).drop_last() =~= s.take(i));
        assert(s.take(i + 1).last() == s[i]);
        assert(all_digits(s.take(i)));
        lemma_dec_val_nonneg(s.take(i));
        assert(dec_val(s.take(i)) <= dec_val(s.take(i + 1)));
        lemma_dec_val_take_le(s, i + 1);
    } else {
        assert(s.take(i) =~= s);
    }
}

impl JsonValue {
    /// The `u32` this value names, when it is a number whose lexeme is
    /// a plain digit run with a value that fits; `None` otherwise.
    pub fn as_u32(&self) -> (r: Option<u32>)
        ensures
            r == model_u32(self@),
    {
        match self {
            JsonValue::Num(lex) => {
                if lex.len() == 0 {
                    return None;
                }
                let mut acc: u64 = 0;
                let mut i: usize = 0;
                while i < lex.len()
                    invariant
                        i <= lex@.len(),
                        0 < lex@.len(),
                        self@ == JsonModel::Num(lex@),
                        all_digits(lex@.take(i as int)),
                        acc as int == dec_val(lex@.take(i as int)),
                        acc <= u32::MAX,
                    decreases lex@.len() - i,
                {
                    let c = lex[i];
                    if !is_digit_char(c) {
                        return None;
                    }
                    let d: u64 = (c as u32 - 48) as u64;
                    let next: u64 = acc * 10 + d;
                    proof {
                        assert(lex@.take(i + 1 as int).drop_last() =~= lex@.take(i as int));
                        assert(lex@.take(i + 1 as int).last() == lex@[i as int]);
                    }
                    if next > 0xFFFF_FFFF {
                        proof {
                            if all_digits(lex@) {
                                lemma_dec_val_take_le(lex@, i + 1 as int);
                            }
                        }
                        return None;
                    }
                    acc = next;
                    i = i + 1;
                }
                proof {
                    assert(lex@.take(i as int) =~= lex@);
                }
                Some(acc as u32)
            },
            _ => None,
        }
    }

    /// The characters this value holds, when it is a string.
    pub fn chars_value(&self) -> (r: Option<Vec<char>>)
        ensures
            match r {
                Some(cs) => self@ == JsonModel::Str(cs@),
                None => !(self@ is Str),
            },
    {
        match self {
            JsonValue::Str(cs) => {
                let copy = copy_range(cs, 0, cs.len());
                proof {
                    assert(copy@ =~= cs@);
                }
                Some(copy)
            },
            _ => None,
        }
    }

    /// A value equal to this one in model.
    #[verifier::loop_isolation(false)]
    pub fn duplicate(&self) -> (r: JsonValue)
        ensures
            r@ == self@,
        decreases self,
    {
        match self {
            JsonValue::Null => JsonValue::Null,
            JsonValue::Bool(b) => JsonValue::Bool(*b),
            JsonValue::Num(l) => {
                let copy = copy_range(l, 0, l.len());
                proof {
                    assert(copy@ =~= l@);
                }
                JsonValue::Num(copy)
            },
            JsonValue::Str(s) => {
                let copy = copy_range(s, 0, s.len());
                proof {
                    assert(copy@ =~= s@);
                }
                JsonValue::Str(copy)
            },
            JsonValue::Arr(items) => {
                let mut out: Vec<JsonValue> = Vec::new();
                let mut i: usize = 0;
                while i < items.len()
                    invariant
                        i <= items@.len(),
                        out@.len() == i,
                        forall|k: int| 0 <= k < i ==> out@[k]@ == items@[k]@,
                    decreases items@.len() - i,
                {
                    proof {
                        assert(decreases_to!(*self => *items));
                        assert(decreases_to!(*items => items@[i as int]));
                    }
                    let d = items[i].duplicate();
                    out.push(d);
                    i = i + 1;
                }
                proof {
                    assert(arr_model(out@) =~= arr_model(items@));
                }
                JsonValue::Arr(out)
            },
            JsonValue::Obj(fields) => {
                let mut out: Vec<(Vec<char>, JsonValue)> = Vec::new();
                let mut i: usize = 0;
                while i < fields.len()
                    invariant
                        i <= fields@.len(),
                        out@.len() == i,
                        forall|k: int|
                            0 <= k < i ==> out@[k].0@ == fields@[k].0@ && out@[k].1@
                                == fields@[k].1@,
                    decreases fields@.len() - i,
                {
                    proof {
                        assert(decreases_to!(*self => *fields));
                        assert(decreases_to!(*fields => fields@[i as int]));
                        assert(decreases_to!(fields@[i as int] => fields@[i as int].1));
                    }
                    let k = copy_range(&fields[i].0, 0, fields[i].0.len());
                    let d = fields[i].1.duplicate();
                    out.push((k, d));
                    i = i + 1;
                }
                proof {
                    assert(obj_model(out@) =~= obj_model(fields@));
                }
                JsonValue::Obj(out)
            },
        }
    }

    /// The text this value holds, when it is a string.
    pub fn str_value(&self) -> (r: Option<String>)
        ensures
            match r {
                Some(t) => self@ == JsonModel::Str(t@),
                None => !(self@ is Str),
            },
    {
        match self {
            JsonValue::Str(cs) => Some(crate::text::string_from_chars(cs)),
            _ => None,
        }
    }
}

// ------------------------------------------------------------------
// The encoder: canonical text of a model, without insignificant
// whitespace, escaping only what must be escaped.
// ------------------------------------------------------------------

/// Hexadecimal digit character for a value below 16.
pub open spec fn hex_char(d: int) -> char {
    if d == 0 {
        '0'
    } else if d == 1 {
        '1'
    } else if d == 2 {
        '2'
    } else if d == 3 {
        '3'
    } else if d == 4 {
        '4'
    } else if d == 5 {
        '5'
    } else if d == 6 {
        '6'
    } else if d == 7 {
        '7'
    } else if d == 8 {
        '8'
    } else if d == 9 {
        '9'
    } else if d == 10 {
        'a'
    } else if d == 11 {
        'b'
    } else if d == 12 {
        'c'
    } else if d == 13 {
        'd'
    } else if d == 14 {
        'e'
    } else {
        'f'
    }
}

/// The encoded form of one string character: quotes and backslashes
/// escaped, control characters written as `\u00XX`, all else itself.
pub open spec fn enc_char(c: char) -> Seq<char> {
    if c == '"' {
        seq!['\\', '"']
    } else if c == '\\' {
        seq!['\\', '\\']
    } else if (c as u32) < 32 {
        seq!['\\', 'u', '0', '0', hex_char(c as u32 as int / 16), hex_char(c as u32 as int % 16)]
    } else {
        seq![c]
    }
}

/// Encoded string body from index `idx` on.
pub open spec fn enc_str_from(s: Seq<char>, idx: int) -> Seq<char>
    decreases s.len() - idx,
{
    if 0 <= idx < s.len() {
        enc_char(s[idx]) + enc_str_from(s, idx + 1)
    } else {
        Seq::empty()
    }
}

/// Encoded string body.
pub open spec fn enc_str_body(s: Seq<char>) -> Seq<char> {
    enc_str_from(s, 0)
}

/// Canonical text of a model.
pub open spec fn enc_value(v: JsonModel) -> Seq<char>
    decreases v, 0int,
{
    match v {
        JsonModel::Null => seq!['n', 'u', 'l', 'l'],
        JsonModel::Bool(b) => if b {
            seq!['t', 'r', 'u', 'e']
        } else {
            seq!['f', 'a', 'l', 's', 'e']
        },
        JsonModel::Num(lex) => lex,
        JsonModel::Str(s) => seq!['"'] + enc_str_body(s) + seq!['"'],
        JsonModel::Arr(items) => seq!['['] + enc_elements(items, 0) + seq![']'],
        JsonModel::Obj(fields) => seq!['{'] + enc_members(fields, 0) + seq!['}'],
    }
}

/// Comma-separated element texts from `idx` on.
pub open spec fn enc_elements(items: Seq<JsonModel>, idx: int) -> Seq<char>
    decreases items, items.len() - idx,
{
    if !(0 <= idx && idx < items.len()) {
        Seq::empty()
    } else if idx == items.len() - 1 {
        enc_value(items[idx])
    } else {
        enc_value(items[idx]) + seq![','] + enc_elements(items, idx + 1)
    }
}

/// Comma-separated `"key":value` texts from `idx` on.
pub open spec fn enc_members(fields: Seq<(Seq<char>, JsonModel)>, idx: int) -> Seq<char>
    decreases fields, fields.len() - idx,
{
    if !(0 <= idx && idx < fields.len()) {
        Seq::empty()
    } else {
        let one = seq!['"'] + enc_str_body(fields[idx].0) + seq!['"', ':'] + enc_value(
            fields[idx].1,
        );
        if idx == fields.len() - 1 {
            one
        } else {
            one + seq![','] + enc_members(fields, idx + 1)
        }
    }
}

fn hex_char_exec(d: u32) -> (r: char)
    requires
        d < 16,
    ensures
        r == hex_char(d as int),
{
    if d == 0 {
        '0'
    } else if d == 1 {
        '1'
    } else if d == 2 {
        '2'
    } else if d == 3 {
        '3'
    } else if d == 4 {
        '4'
    } else if d == 5 {
        '5'
    } else if d == 6 {
        '6'
    } else if d == 7 {
        '7'
    } else if d == 8 {
        '8'
    } else if d == 9 {
        '9'
    } else if d == 10 {
        'a'
    } else if d == 11 {
        'b'
    } else if d == 12 {
        'c'
    } else if d == 13 {
        'd'
    } else if d == 14 {
        'e'
    } else {
        'f'
    }
}

fn enc_char_into(c: char, out: &mut Vec<char>)
    ensures
        final(out)@ == old(out)@ + enc_char(c),
{
    if c == '"' {
        out.push('\\');
        out.push('"');
        assert(final(out)@ =~= old(out)@ + enc_char(c));
    } else if c == '\\' {
        out.push('\\');
        out.push('\\');
        assert(final(out)@ =~= old(out)@ + enc_char(c));
    } else if (c as u32) < 32 {
        let v = c as u32;
        out.push('\\');
        out.push('u');
        out.push('0');
        out.push('0');
        out.push(hex_char_exec(v / 16));
        out.push(hex_char_exec(v % 16));
        assert(final(out)@ =~= old(out)@ + enc_char(c));
    } else {
        out.push(c);
        assert(final(out)@ =~= old(out)@ + enc_char(c));
    }
}

fn enc_str_into(s: &Vec<char>, out: &mut Vec<char>)
    ensures
        final(out)@ == old(out)@ + enc_str_body(s@),
{
    let mut i: usize = 0;
    while i < s.len()
        invariant
            i <= s@.len(),
            out@ + enc_str_from(s@, i as int) == old(out)@ + enc_str_body(s@),
        decreases s@.len() - i,
    {
        let ghost before = out@;
        enc_char_into(s[i], out);
        proof {
            assert(out@ + enc_str_from(s@, i + 1 as int) =~= before + enc_str_from(s@, i as int));
        }
        i = i + 1;
    }
    proof {
        assert(out@ + enc_str_from(s@, i as int) =~= out@);
    }
}

/// Writes the canonical text of `v` after what `out` already holds.
#[verifier::loop_isolation(false)]
fn enc_value_into(v: &JsonValue, out: &mut Vec<char>)
    ensures
        final(out)@ == old(out)@ + enc_value(v@),
    decreases v, 0int,
{
    match v {
        JsonValue::Null => {
            out.push('n');
            out.push('u');
            out.push('l');
            out.push('l');
            assert(final(out)@ =~= old(out)@ + enc_value(v@));
        },
        JsonValue::Bool(b) => {
            if *b {
                out.push('t');
                out.push('r');
                out.push('u');
                out.push('e');
            } else {
                out.push('f');
                out.push('a');
                out.push('l');
                out.push('s');
                out.push('e');
            }
            assert(final(out)@ =~= old(out)@ + enc_value(v@));
        },
        JsonValue::Num(lex) => {
            let mut i: usize = 0;
            while i < lex.len()
                invariant
                    i <= lex@.len(),
                    out@ == old(out)@ + lex@.take(i as int),
                decreases lex@.len() - i,
            {
                out.push(lex[i]);
                proof {
                    assert(old(out)@ + lex@.take(i + 1 as int) =~= (old(out)@ + lex@.take(
                        i as int,
                    )).push(lex@[i as int]));
                }
                i = i + 1;
            }
            proof {
                assert(lex@.take(i as int) =~= lex@);
            }
        },
        JsonValue::Str(s) => {
            out.push('"');
            enc_str_into(s, out);
            out.push('"');
            assert(final(out)@ =~= old(out)@ + enc_value(v@));
        },
        JsonValue::Arr(items) => {
            out.push('[');
            let ghost start = out@;
            let mut i: usize = 0;
            while i < items.len()
                invariant
                    i <= items@.len(),
                    v@ == JsonModel::Arr(arr_model(items@)),
                    out@ + enc_elements(arr_model(items@), i as int) == start + enc_elements(
                        arr_model(items@),
                        0,
                    ),
                decreases items@.len() - i,
            {
                let ghost before = out@;
                proof {
                    assert(*items == v->Arr_0);
                    assert(decreases_to!(*v => v->Arr_0));
                    assert(decreases_to!(*items => items@[i as int]));
                }
                enc_value_into(&items[i], out);
                if i + 1 < items.len() {
                    out.push(',');
                    proof {
                        assert(out@ + enc_elements(arr_model(items@), i + 1 as int) =~= before
                            + enc_elements(arr_model(items@), i as int));
                    }
                } else {
                    proof {
                        assert(out@ + enc_elements(arr_model(items@), i + 1 as int) =~= before
                            + enc_elements(arr_model(items@), i as int));
                    }
                }
                i = i + 1;
            }
            proof {
                assert(out@ + enc_elements(arr_model(items@), i as int) =~= out@);
            }
            out.push(']');
            assert(final(out)@ =~= old(out)@ + enc_value(v@));
        },
        JsonValue::Obj(fields) => {
            out.push('{');
            let ghost start = out@;
            let mut i: usize = 0;
            while i < fields.len()
                invariant
                    i <= fields@.len(),
                    v@ == JsonModel::Obj(obj_model(fields@)),
                    out@ + enc_members(obj_model(fields@), i as int) == start + enc_members(
                        obj_model(fields@),
                        0,
                    ),
                decreases fields@.len() - i,
            {
                let ghost before = out@;
                out.push('"');
                enc_str_into(&fields[i].0, out);
                out.push('"');
                out.push(':');
                proof {
                    assert(*fields == v->Obj_0);
                    assert(decreases_to!(*v => v->Obj_0));
                    assert(decreases_to!(*fields => fields@[i as int]));
                    assert(decreases_to!(fields@[i as int] => fields@[i as int].1));
                }
                enc_value_into(&fields[i].1, out);
                if i + 1 < fields.len() {
                    out.push(',');
                    proof {
                        assert(out@ + enc_members(obj_model(fields@), i + 1 as int) =~= before
                            + enc_members(obj_model(fields@), i as int));
                    }
                } else {
                    proof {
                        assert(out@ + enc_members(obj_model(fields@), i + 1 as int) =~= before
                            + enc_members(obj_model(fields@), i as int));
                    }
                }
                i = i + 1;
            }
            proof {
                assert(out@ + enc_members(obj_model(fields@), i as int) =~= out@);
            }
            out.push('}');
            assert(final(out)@ =~= old(out)@ + enc_value(v@));
        },
    }
}

/// An encoder-produced hexadecimal digit reads back as its value.
proof fn lemma_hex_char_val(d: int)
    requires
        0 <= d < 16,
    ensures
        hex_val(hex_char(d)) == d,
{
}

/// Decoding an encoded string body returns the original characters:
/// when the text from `i` on spells the encoded form of `x` from `k`
/// on, followed by a closing quote, the string scan yields exactly the
/// remaining characters of `x` and stops just past that quote.
pub proof fn lemma_parse_enc_str(s: Seq<char>, i: int, x: Seq<char>, k: int)
    requires
        0 <= k <= x.len(),
        0 <= i,
        i + enc_str_from(x, k).len() + 1 <= s.len(),
        s.subrange(i, i + enc_str_from(x, k).len() as int) == enc_str_from(x, k),
        s[i + enc_str_from(x, k).len() as int] == '"',
    ensures
        sp_string_body(s, i) == Some(
            (x.subrange(k, x.len() as int), i + enc_str_from(x, k).len() + 1),
        ),
    decreases x.len() - k,
{
    let e = enc_str_from(x, k);
    if k == x.len() {
        assert(e =~= Seq::<char>::empty());
        assert(x.subrange(k, x.len() as int) =~= Seq::<char>::empty());
        assert(s[i] == '"');
    } else {
        let c = x[k];
        let ec = enc_char(c);
        let rest = enc_str_from(x, k + 1);
        assert(e == ec + rest);
        let i2 = i + ec.len() as int;
        assert forall|t: int| 0 <= t < e.len() implies s[i + t] == e[t] by {
            assert(s.subrange(i, i + e.len() as int)[t] == s[i + t]);
        }
        assert forall|t: int| 0 <= t < ec.len() implies s[i + t] == ec[t] by {
            assert(e[t] == ec[t]);
        }
        assert(s.subrange(i2, i2 + rest.len() as int) =~= rest) by {
            assert forall|t: int| 0 <= t < rest.len() implies s[i2 + t] == rest[t] by {
                assert(e[ec.len() + t] == rest[t]);
                assert(s[i + (ec.len() + t)] == e[ec.len() + t]);
            }
        }
        assert(s[i2 + rest.len() as int] == '"');
        lemma_parse_enc_str(s, i2, x, k + 1);
        let tail = x.subrange(k + 1, x.len() as int);
        assert(seq![c] + tail =~= x.subrange(k, x.len() as int));
        if c == '"' {
            assert(s[i] == '\\' && s[i + 1] == '"');
            assert(sp_string_body(s, i) == Some((seq![c] + tail, i2 + rest.len() + 1)));
        } else if c == '\\' {
            assert(s[i] == '\\' && s[i + 1] == '\\');
            assert(sp_string_body(s, i) == Some((seq![c] + tail, i2 + rest.len() + 1)));
        } else if (c as u32) < 32 {
            let cu = c as u32;
            assert(s[i] == '\\' && s[i + 1] == 'u' && s[i + 2] == '0' && s[i + 3] == '0');
            assert(s[i + 4] == hex_char(cu as int / 16));
            assert(s[i + 5] == hex_char(cu as int % 16));
            lemma_hex_char_val(cu as int / 16);
            lemma_hex_char_val(cu as int % 16);
            let code = 4096 * hex_val(s[i + 2]) + 256 * hex_val(s[i + 3]) + 16 * hex_val(s[i + 4])
                + hex_val(s[i + 5]);
            assert(hex_val('0') == 0);
            assert(code == cu) by {
                assert(16 * (cu as int / 16) + (cu as int % 16) == cu);
            }
            assert(uescape_ok(code));
            vstd::utf8::char_u32_cast(c, cu);
            assert(((code as u32) as char) == c);
            assert(sp_string_body(s, i) == Some((seq![c] + tail, i2 + rest.len() + 1)));
        } else {
            assert(s[i + 0] == ec[0]);
            assert(s[i] == c);
            assert(c != '"' && c != '\\' && !((c as u32) < 32));
            assert(sp_string_body(s, i) == Some((seq![c] + tail, i2 + rest.len() + 1)));
        }
    }
}

impl JsonValue {
    /// The canonical text of this value.
    pub fn to_text(&self) -> (r: String)
        ensures
            r@ == enc_value(self@),
    {
        let mut out: Vec<char> = Vec::new();
        enc_value_into(self, &mut out);
        proof {
            assert(out@ =~= enc_value(self@));
        }
        crate::text::string_from_chars(&out)
    }
}

/// If the first `i` field names all differ from `key` and field `i` is
/// named `key`, first-match lookup returns field `i`'s value.
proof fn lemma_lookup_first_match(fields: Seq<(Seq<char>, JsonModel)>, key: Seq<char>, i: int)
    requires
        0 <= i < fields.len(),
        fields[i].0 == key,
        forall|k: int| 0 <= k < i ==> fields[k].0 != key,
    ensures
        JsonModel::lookup(fields, key) == Some(fields[i].1),
    decreases i,
{
    if i == 0 {
    } else {
        lemma_lookup_first_match(fields.skip(1), key, i - 1);
    }
}

// ------------------------------------------------------------------
// The grammar: what sequence of characters denotes which model.
// Each `sp_` function consumes from index `i` and yields the parsed
// piece together with the index just after it, or `None`.
// ------------------------------------------------------------------

/// JSON insignificant whitespace.
pub open spec fn is_json_ws(c: char) -> bool {
    c == ' ' || c == '\t' || c == '\n' || c == '\r'
}

/// Decimal digit.
pub open spec fn is_digit(c: char) -> bool {
    48 <= c as u32 && c as u32 <= 57
}

/// Value of a hexadecimal digit, or -1 for any other character.
pub open spec fn hex_val(c: char) -> int {
    if 48 <= c as u32 && c as u32 <= 57 {
        c as u32 - 48
    } else if 97 <= c as u32 && c as u32 <= 102 {
        c as u32 - 87
    } else if 65 <= c as u32 && c as u32 <= 70 {
        c as u32 - 55
    } else {
        -1
    }
}

/// Hexadecimal digit.
pub open spec fn is_hex(c: char) -> bool {
    hex_val(c) >= 0
}

/// The character a single-character escape stands for.
pub open spec fn esc_of(c: char) -> Option<char> {
    if c == '"' {
        Some('"')
    } else if c == '\\' {
        Some('\\')
    } else if c == '/' {
        Some('/')
    } else if c == 'b' {
        Some('\u{8}')
    } else if c == 'f' {
        Some('\u{c}')
    } else if c == 'n' {
        Some('\n')
    } else if c == 'r' {
        Some('\r')
    } else if c == 't' {
        Some('\t')
    } else {
        None
    }
}

/// Code points a `\uXXXX` escape may name: anything but a surrogate.
pub open spec fn uescape_ok(code: int) -> bool {
    !(0xD800 <= code && code <= 0xDFFF)
}

/// First index at or after `i` holding no whitespace.
pub open spec fn sp_ws(s: Seq<char>, i: int) -> int
    decreases s.len() - i,
{
    if 0 <= i && i < s.len() && is_json_ws(s[i]) {
        sp_ws(s, i + 1)
    } else {
        i
    }
}

/// String contents from `i` (just after the opening quote) through the
/// closing quote: the decoded characters and the index after the quote.
pub open spec fn sp_string_body(s: Seq<char>, i: int) -> Option<(Seq<char>, int)>
    decreases s.len() - i,
{
    if !(0 <= i && i < s.len()) {
        None
    } else if s[i] == '"' {
        Some((Seq::empty(), i + 1))
    } else if s[i] == '\\' {
        if i + 1 < s.len() {
            if s[i + 1] == 'u' {
                if i + 5 < s.len() && is_hex(s[i + 2]) && is_hex(s[i + 3]) && is_hex(s[i + 4])
                    && is_hex(s[i + 5]) {
                    let code = 4096 * hex_val(s[i + 2]) + 256 * hex_val(s[i + 3]) + 16 * hex_val(
                        s[i + 4],
                    ) + hex_val(s[i + 5]);
                    if uescape_ok(code) {
                        match sp_string_body(s, i + 6) {
                            Some((rest, j)) => Some((seq![((code as u32) as char)] + rest, j)),
                            None => None,
                        }
                    } else {
                        None
                    }
                } else {
                    None
                }
            } else {
                match esc_of(s[i + 1]) {
                    Some(c) => match sp_string_body(s, i + 2) {
                        Some((rest, j)) => Some((seq![c] + rest, j)),
                        None => None,
                    },
                    None => None,
                }
            }
        } else {
            None
        }
    } else if (s[i] as u32) < 32 {
        None
    } else {
        match sp_string_body(s, i + 1) {
            Some((rest, j)) => Some((seq![s[i]] + rest, j)),
            None => None,
        }
    }
}

/// End of the run of decimal digits starting at `i`.
pub open spec fn sp_digits(s: Seq<char>, i: int) -> int
    decreases s.len() - i,
{
    if 0 <= i && i < s.len() && is_digit(s[i]) {
        sp_digits(s, i + 1)
    } else {
        i
    }
}

/// A number starting at `i`: its lexeme and the index after it.
/// Integer part without leading zeros, optional fraction, optional
/// exponent, as JSON has it.
pub open spec fn sp_number(s: Seq<char>, i: int) -> Option<(Seq<char>, int)> {
    if !(0 <= i && i < s.len()) {
        None
    } else {
        let j = if s[i] == '-' {
            i + 1
        } else {
            i
        };
        if j < s.len() && is_digit(s[j]) {
            let int_end = if s[j] == '0' {
                j + 1
            } else {
                sp_digits(s, j)
            };
            let frac_end = if int_end < s.len() && s[int_end] == '.' {
                if int_end + 1 < s.len() && is_digit(s[int_end + 1]) {
                    sp_digits(s, int_end + 1)
                } else {
                    -1
                }
            } else {
                int_end
            };
            if frac_end < 0 {
                None
            } else {
                let exp_end = if frac_end < s.len() && (s[frac_end] == 'e' || s[frac_end] == 'E') {
                    let k = if frac_end + 1 < s.len() && (s[frac_end + 1] == '+' || s[frac_end + 1]
                        == '-') {
                        frac_end + 2
                    } else {
                        frac_end + 1
                    };
                    if k < s.len() && is_digit(s[k]) {
                        sp_digits(s, k)
                    } else {
                        -1
                    }
                } else {
                    frac_end
                };
                if exp_end < 0 {
                    None
                } else {
                    Some((s.subrange(i, exp_end), exp_end))
                }
            }
        } else {
            None
        }
    }
}

/// Whether the literal `lit` occurs at position `i`.
pub open spec fn has_lit(s: Seq<char>, i: int, lit: Seq<char>) -> bool {
    0 <= i && i + lit.len() <= s.len() && s.subrange(i, i + lit.len() as int) == lit
}

/// A complete JSON value starting at `i`: its model and the index after
/// it. The bound guards (`j <= s.len()` and the like) restate what the
/// helper scans always deliver; they keep the definition total.
pub open spec fn sp_value(s: Seq<char>, i: int) -> Option<(JsonModel, int)>
    decreases s.len() - i, 0int,
{
    if !(0 <= i && i < s.len()) {
        None
    } else if s[i] == '{' {
        let j = sp_ws(s, i + 1);
        if !(i + 1 <= j && j <= s.len()) {
            None
        } else if j < s.len() && s[j] == '}' {
            Some((JsonModel::Obj(Seq::empty()), j + 1))
        } else {
            match sp_members(s, j) {
                Some((fields, e)) => Some((JsonModel::Obj(fields), e)),
                None => None,
            }
        }
    } else if s[i] == '[' {
        let j = sp_ws(s, i + 1);
        if !(i + 1 <= j && j <= s.len()) {
            None
        } else if j < s.len() && s[j] == ']' {
            Some((JsonModel::Arr(Seq::empty()), j + 1))
        } else {
            match sp_elements(s, j) {
                Some((items, e)) => Some((JsonModel::Arr(items), e)),
                None => None,
            }
        }
    } else if s[i] == '"' {
        match sp_string_body(s, i + 1) {
            Some((cs, j)) => Some((JsonModel::Str(cs), j)),
            None => None,
        }
    } else if s[i] == 't' {
        if has_lit(s, i, seq!['t', 'r', 'u', 'e']) {
            Some((JsonModel::Bool(true), i + 4))
        } else {
            None
        }
    } else if s[i] == 'f' {
        if has_lit(s, i, seq!['f', 'a', 'l', 's', 'e']) {
            Some((JsonModel::Bool(false), i + 5))
        } else {
            None
        }
    } else if s[i] == 'n' {
        if has_lit(s, i, seq!['n', 'u', 'l', 'l']) {
            Some((JsonModel::Null, i + 4))
        } else {
            None
        }
    } else if s[i] == '-' || is_digit(s[i]) {
        match sp_number(s, i) {
            Some((lex, j)) => Some((JsonModel::Num(lex), j)),
            None => None,
        }
    } else {
        None
    }
}

/// Array elements from the first element at `i` through the closing
/// bracket: the element models and the index after the bracket.
pub open spec fn sp_elements(s: Seq<char>, i: int) -> Option<(Seq<JsonModel>, int)>
    decreases s.len() - i, 1int,
{
    if !(0 <= i && i < s.len()) {
        None
    } else {
        match sp_value(s, i) {
            Some((v, e)) => {
                if !(i < e && e <= s.len()) {
                    None
                } else {
                    let w = sp_ws(s, e);
                    if !(e <= w && w < s.len()) {
                        None
                    } else if s[w] == ',' {
                        let n = sp_ws(s, w + 1);
                        if !(w + 1 <= n && n <= s.len()) {
                            None
                        } else {
                            match sp_elements(s, n) {
                                Some((rest, z)) => Some((seq![v] + rest, z)),
                                None => None,
                            }
                        }
                    } else if s[w] == ']' {
                        Some((seq![v], w + 1))
                    } else {
                        None
                    }
                }
            },
            None => None,
        }
    }
}

/// Object members from the first key at `i` through the closing brace:
/// the field models and the index after the brace.
pub open spec fn sp_members(s: Seq<char>, i: int) -> Option<(Seq<(Seq<char>, JsonModel)>, int)>
    decreases s.len() - i, 1int,
{
    if !(0 <= i && i < s.len() && s[i] == '"') {
        None
    } else {
        match sp_string_body(s, i + 1) {
            Some((key, j)) => {
                if !(i + 1 < j && j <= s.len()) {
                    None
                } else {
                    let c = sp_ws(s, j);
                    if !(j <= c && c < s.len() && s[c] == ':') {
                        None
                    } else {
                        let m = sp_ws(s, c + 1);
                        if !(c + 1 <= m && m <= s.len()) {
                            None
                        } else {
                            match sp_value(s, m) {
                                Some((v, e)) => {
                                    if !(m < e && e <= s.len()) {
                                        None
                                    } else {
                                        let w = sp_ws(s, e);
                                        if !(e <= w && w < s.len()) {
                                            None
                                        } else if s[w] == ',' {
                                            let n = sp_ws(s, w + 1);
                                            if !(w + 1 <= n && n <= s.len()) {
                                                None
                                            } else {
                                                match sp_members(s, n) {
                                                    Some((rest, z)) => Some(
                                                        (seq![(key, v)] + rest, z),
                                                    ),
                                                    None => None,
                                                }
                                            }
                                        } else if s[w] == '}' {
                                            Some((seq![(key, v)], w + 1))
                                        } else {
                                            None
                                        }
                                    }
                                },
                                None => None,
                            }
                        }
                    }
                }
            },
            None => None,
        }
    }
}

/// Digit runs stay inside the text.
proof fn lemma_sp_digits_bounds(s: Seq<char>, i: int)
    requires
        0 <= i <= s.len(),
    ensures
        i <= sp_digits(s, i) <= s.len(),
    decreases s.len() - i,
{
    if i < s.len() && is_digit(s[i]) {
        lemma_sp_digits_bounds(s, i + 1);
    }
}

// ------------------------------------------------------------------
// The parser: executable code proved equal to the grammar above.
// ------------------------------------------------------------------

/// Relies on char::from_u32: `Some` exactly for Unicode scalar values,
/// holding the character with that code.
pub assume_specification[ char::from_u32 ](v: u32) -> (r: Option<char>)
    ensures
        r == if v < 0xD800 || (0xE000 <= v && v <= 0x10FFFF) {
            Some(v as char)
        } else {
            None::<char>
        },
;

fn is_ws_char(c: char) -> (r: bool)
    ensures
        r == is_json_ws(c),
{
    c == ' ' || c == '\t' || c == '\n' || c == '\r'
}

fn is_digit_char(c: char) -> (r: bool)
    ensures
        r == is_digit(c),
{
    c >= '0' && c <= '9'
}

/// Value of a hexadecimal digit, if the character is one.
fn hex_digit(c: char) -> (r: Option<u32>)
    ensures
        match r {
            Some(v) => hex_val(c) == v as int,
            None => hex_val(c) < 0,
        },
{
    if c >= '0' && c <= '9' {
        Some(c as u32 - 48)
    } else if c >= 'a' && c <= 'f' {
        Some(c as u32 - 87)
    } else if c >= 'A' && c <= 'F' {
        Some(c as u32 - 55)
    } else {
        None
    }
}

/// First index at or after `i` holding no whitespace.
fn skip_ws(s: &Vec<char>, i: usize) -> (r: usize)
    requires
        i <= s@.len(),
    ensures
        i <= r <= s@.len(),
        r as int == sp_ws(s@, i as int),
{
    let mut j = i;
    while j < s.len() && is_ws_char(s[j])
        invariant
            i <= j <= s@.len(),
            sp_ws(s@, i as int) == sp_ws(s@, j as int),
        decreases s@.len() - j,
    {
        proof {
            assert(sp_ws(s@, j as int) == sp_ws(s@, j + 1 as int));
        }
        j = j + 1;
    }
    proof {
        assert(sp_ws(s@, j as int) == j as int);
    }
    j
}

/// End of the run of decimal digits starting at `i`.
fn digits_end(s: &Vec<char>, i: usize) -> (r: usize)
    requires
        i <= s@.len(),
    ensures
        i <= r <= s@.len(),
        r as int == sp_digits(s@, i as int),
{
    let mut j = i;
    while j < s.len() && is_digit_char(s[j])
        invariant
            i <= j <= s@.len(),
            sp_digits(s@, i as int) == sp_digits(s@, j as int),
        decreases s@.len() - j,
    {
        proof {
            assert(sp_digits(s@, j as int) == sp_digits(s@, j + 1 as int));
        }
        j = j + 1;
    }
    proof {
        assert(sp_digits(s@, j as int) == j as int);
    }
    j
}

/// The characters of `s` from `a` up to `b`.
fn copy_range(s: &Vec<char>, a: usize, b: usize) -> (r: Vec<char>)
    requires
        a <= b <= s@.len(),
    ensures
        r@ == s@.subrange(a as int, b as int),
{
    let mut r: Vec<char> = Vec::new();
    let mut i = a;
    while i < b
        invariant
            a <= i <= b <= s@.len(),
            r@ == s@.subrange(a as int, i as int),
        decreases b - i,
    {
        r.push(s[i]);
        assert(s@.subrange(a as int, i + 1 as int) =~= s@.subrange(a as int, i as int).push(
            s@[i as int],
        ));
        i = i + 1;
    }
    r
}

/// How an executable scan result realises a grammar result.
spec fn str_scan_matches(r: Option<(Vec<char>, usize)>, m: Option<(Seq<char>, int)>) -> bool {
    match r {
        Some((v, j)) => m == Some((v@, j as int)),
        None => m is None,
    }
}

/// String contents from `i` (just after the opening quote) through the
/// closing quote.
fn parse_string_body(s: &Vec<char>, i: usize) -> (r: Option<(Vec<char>, usize)>)
    requires
        i <= s@.len(),
    ensures
        str_scan_matches(r, sp_string_body(s@, i as int)),
        r matches Some((v, j)) ==> i < j <= s@.len(),
    decreases s@.len() - i,
{
    if i >= s.len() {
        return None;
    }
    let c = s[i];
    if c == '"' {
        let empty: Vec<char> = Vec::new();
        proof {
            assert(empty@ =~= Seq::<char>::empty());
        }
        return Some((empty, i + 1));
    }
    if c == '\\' {
        if s.len() - i < 2 {
            return None;
        }
        let e = s[i + 1];
        if e == 'u' {
            if s.len() - i < 6 {
                return None;
            }
            let h1 = hex_digit(s[i + 2]);
            let h2 = hex_digit(s[i + 3]);
            let h3 = hex_digit(s[i + 4]);
            let h4 = hex_digit(s[i + 5]);
            match (h1, h2, h3, h4) {
                (Some(a), Some(b), Some(cc), Some(d)) => {
                    let code: u32 = 4096 * a + 256 * b + 16 * cc + d;
                    if 0xD800 <= code && code <= 0xDFFF {
                        return None;
                    }
                    let ch = match char::from_u32(code) {
                        Some(ch) => ch,
                        None => {
                            return None;
                        },
                    };
                    match parse_string_body(s, i + 6) {
                        Some((mut rest, j)) => {
                            rest.insert(0, ch);
                            proof {
                                let m = sp_string_body(s@, i + 6 as int);
                                assert(rest@ =~= seq![ch] + m->Some_0.0);
                            }
                            Some((rest, j))
                        },
                        None => None,
                    }
                },
                _ => None,
            }
        } else {
            let dec = if e == '"' {
                Some('"')
            } else if e == '\\' {
                Some('\\')
            } else if e == '/' {
                Some('/')
            } else if e == 'b' {
                Some('\u{8}')
            } else if e == 'f' {
                Some('\u{c}')
            } else if e == 'n' {
                Some('\n')
            } else if e == 'r' {
                Some('\r')
            } else if e == 't' {
                Some('\t')
            } else {
                None
            };
            proof {
                assert(dec == esc_of(e));
            }
            match dec {
                Some(ch) => match parse_string_body(s, i + 2) {
                    Some((mut rest, j)) => {
                        rest.insert(0, ch);
                        proof {
                            let m = sp_string_body(s@, i + 2 as int);
                            assert(rest@ =~= seq![ch] + m->Some_0.0);
                        }
                        Some((rest, j))
                    },
                    None => None,
                },
                None => None,
            }
        }
    } else if (c as u32) < 32 {
        None
    } else {
        match parse_string_body(s, i + 1) {
            Some((mut rest, j)) => {
                rest.insert(0, c);
                proof {
                    let m = sp_string_body(s@, i + 1 as int);
                    assert(rest@ =~= seq![c] + m->Some_0.0);
                }
                Some((rest, j))
            },
            None => None,
        }
    }
}

/// A number starting at `i`: its lexeme and the index after it.
fn parse_number(s: &Vec<char>, i: usize) -> (r: Option<(Vec<char>, usize)>)
    requires
        i <= s@.len(),
    ensures
        str_scan_matches(r, sp_number(s@, i as int)),
        r matches Some((v, j)) ==> i < j <= s@.len(),
{
    if i >= s.len() {
        return None;
    }
    let j = if s[i] == '-' {
        i + 1
    } else {
        i
    };
    if !(j < s.len() && is_digit_char(s[j])) {
        return None;
    }
    let int_end = if s[j] == '0' {
        j + 1
    } else {
        proof {
            assert(sp_digits(s@, j as int) == sp_digits(s@, j + 1 as int));
            lemma_sp_digits_bounds(s@, j + 1 as int);
        }
        digits_end(s, j)
    };
    let frac_end = if int_end < s.len() && s[int_end] == '.' {
        if int_end + 1 < s.len() && is_digit_char(s[int_end + 1]) {
            digits_end(s, int_end + 1)
        } else {
            return None;
        }
    } else {
        int_end
    };
    let exp_end = if frac_end < s.len() && (s[frac_end] == 'e' || s[frac_end] == 'E') {
        let k = if frac_end + 1 < s.len() && (s[frac_end + 1] == '+' || s[frac_end + 1] == '-') {
            frac_end + 2
        } else {
            frac_end + 1
        };
        if k < s.len() && is_digit_char(s[k]) {
            digits_end(s, k)
        } else {
            return None;
        }
    } else {
        frac_end
    };
    let lex = copy_range(s, i, exp_end);
    Some((lex, exp_end))
}

/// How an executable value result realises a grammar result.
spec fn val_scan_matches(r: Option<(JsonValue, usize)>, m: Option<(JsonModel, int)>) -> bool {
    match r {
        Some((v, j)) => m == Some((v@, j as int)),
        None => m is None,
    }
}

/// A complete JSON value starting at `i`.
fn parse_value(s: &Vec<char>, i: usize) -> (r: Option<(JsonValue, usize)>)
    requires
        i <= s@.len(),
    ensures
        val_scan_matches(r, sp_value(s@, i as int)),
        r matches Some((v, j)) ==> i < j <= s@.len(),
    decreases s@.len() - i, 0int,
{
    if i >= s.len() {
        return None;
    }
    let c = s[i];
    if c == '{' {
        let j = skip_ws(s, i + 1);
        if j < s.len() && s[j] == '}' {
            let fields: Vec<(Vec<char>, JsonValue)> = Vec::new();
            proof {
                assert(obj_model(fields@) =~= Seq::<(Seq<char>, JsonModel)>::empty());
            }
            Some((JsonValue::Obj(fields), j + 1))
        } else {
            match parse_members(s, j) {
                Some((fields, e)) => Some((JsonValue::Obj(fields), e)),
                None => None,
            }
        }
    } else if c == '[' {
        let j = skip_ws(s, i + 1);
        if j < s.len() && s[j] == ']' {
            let items: Vec<JsonValue> = Vec::new();
            proof {
                assert(arr_model(items@) =~= Seq::<JsonModel>::empty());
            }
            Some((JsonValue::Arr(items), j + 1))
        } else {
            match parse_elements(s, j) {
                Some((items, e)) => Some((JsonValue::Arr(items), e)),
                None => None,
            }
        }
    } else if c == '"' {
        match parse_string_body(s, i + 1) {
            Some((cs, j)) => Some((JsonValue::Str(cs), j)),
            None => None,
        }
    } else if c == 't' {
        if s.len() - i >= 4 && s[i + 1] == 'r' && s[i + 2] == 'u' && s[i + 3] == 'e' {
            proof {
                assert(s@.subrange(i as int, i + 4 as int) =~= seq!['t', 'r', 'u', 'e']);
            }
            Some((JsonValue::Bool(true), i + 4))
        } else {
            proof {
                lemma_no_lit(s@, i as int, seq!['t', 'r', 'u', 'e']);
            }
            None
        }
    } else if c == 'f' {
        if s.len() - i >= 5 && s[i + 1] == 'a' && s[i + 2] == 'l' && s[i + 3] == 's' && s[i + 4]
            == 'e' {
            proof {
                assert(s@.subrange(i as int, i + 5 as int) =~= seq!['f', 'a', 'l', 's', 'e']);
            }
            Some((JsonValue::Bool(false), i + 5))
        } else {
            proof {
                lemma_no_lit(s@, i as int, seq!['f', 'a', 'l', 's', 'e']);
            }
            None
        }
    } else if c == 'n' {
        if s.len() - i >= 4 && s[i + 1] == 'u' && s[i + 2] == 'l' && s[i + 3] == 'l' {
            proof {
                assert(s@.subrange(i as int, i + 4 as int) =~= seq!['n', 'u', 'l', 'l']);
            }
            Some((JsonValue::Null, i + 4))
        } else {
            proof {
                lemma_no_lit(s@, i as int, seq!['n', 'u', 'l', 'l']);
            }
            None
        }
    } else if c == '-' || is_digit_char(c) {
        match parse_number(s, i) {
            Some((lex, j)) => Some((JsonValue::Num(lex), j)),
            None => None,
        }
    } else {
        None
    }
}

/// A literal fails to occur at `i` when some position disagrees or the
/// text is too short.
proof fn lemma_no_lit(s: Seq<char>, i: int, lit: Seq<char>)
    requires
        0 <= i <= s.len(),
        i + lit.len() <= s.len() ==> exists|k: int|
            0 <= k < lit.len() && s[i + k] != lit[k],
    ensures
        !has_lit(s, i, lit),
{
    if i + lit.len() <= s.len() {
        let k = choose|k: int| 0 <= k < lit.len() && s[i + k] != lit[k];
        assert(s.subrange(i, i + lit.len() as int)[k] == s[i + k]);
    }
}

/// Array elements from the first element at `i` through the closing
/// bracket.
fn parse_elements(s: &Vec<char>, i: usize) -> (r: Option<(Vec<JsonValue>, usize)>)
    requires
        i <= s@.len(),
    ensures
        match r {
            Some((items, j)) => sp_elements(s@, i as int) == Some((arr_model(items@), j as int))
                && i < j <= s@.len(),
            None => sp_elements(s@, i as int) is None,
        },
    decreases s@.len() - i, 1int,
{
    match parse_value(s, i) {
        Some((v, e)) => {
            let w = skip_ws(s, e);
            if w >= s.len() {
                return None;
            }
            if s[w] == ',' {
                let n = skip_ws(s, w + 1);
                match parse_elements(s, n) {
                    Some((mut rest, z)) => {
                        rest.insert(0, v);
                        proof {
                            let m = sp_elements(s@, n as int);
                            assert(arr_model(rest@) =~= seq![v@] + m->Some_0.0);
                        }
                        Some((rest, z))
                    },
                    None => None,
                }
            } else if s[w] == ']' {
                let mut items: Vec<JsonValue> = Vec::new();
                items.push(v);
                proof {
                    assert(arr_model(items@) =~= seq![v@]);
                }
                Some((items, w + 1))
            } else {
                None
            }
        },
        None => None,
    }
}

/// Object members from the first key at `i` through the closing brace.
fn parse_members(s: &Vec<char>, i: usize) -> (r: Option<(Vec<(Vec<char>, JsonValue)>, usize)>)
    requires
        i <= s@.len(),
    ensures
        match r {
            Some((fields, j)) => sp_members(s@, i as int) == Some((obj_model(fields@), j as int))
                && i < j <= s@.len(),
            None => sp_members(s@, i as int) is None,
        },
    decreases s@.len() - i, 1int,
{
    if i >= s.len() || s[i] != '"' {
        return None;
    }
    match parse_string_body(s, i + 1) {
        Some((key, j)) => {
            let c = skip_ws(s, j);
            if !(c < s.len() && s[c] == ':') {
                return None;
            }
            let m = skip_ws(s, c + 1);
            match parse_value(s, m) {
                Some((v, e)) => {
                    let w = skip_ws(s, e);
                    if w >= s.len() {
                        return None;
                    }
                    if s[w] == ',' {
                        let n = skip_ws(s, w + 1);
                        match parse_members(s, n) {
                            Some((mut rest, z)) => {
                                rest.insert(0, (key, v));
                                proof {
                                    let mm = sp_members(s@, n as int);
                                    assert(obj_model(rest@) =~= seq![(key@, v@)] + mm->Some_0.0);
                                }
                                Some((rest, z))
                            },
                            None => None,
                        }
                    } else if s[w] == '}' {
                        let mut fields: Vec<(Vec<char>, JsonValue)> = Vec::new();
                        fields.push((key, v));
                        proof {
                            assert(obj_model(fields@) =~= seq![(key@, v@)]);
                        }
                        Some((fields, w + 1))
                    } else {
                        None
                    }
                },
                None => None,
            }
        },
        None => None,
    }
}

/// Parses one complete JSON text. Returns the parsed value exactly when
/// the grammar accepts the text, and nothing otherwise.
pub fn parse_json(text: &str) -> (r: Option<JsonValue>)
    ensures
        match r {
            Some(v) => sp_json(text@) == Some(v@),
            None => sp_json(text@) is None,
        },
{
    let s = crate::text::chars_of(text);
    let i = skip_ws(&s, 0);
    match parse_value(&s, i) {
        Some((v, j)) => {
            let k = skip_ws(&s, j);
            if k == s.len() {
                Some(v)
            } else {
                None
            }
        },
        None => None,
    }
}

/// The model of a complete JSON text: one value, possibly surrounded by
/// whitespace, spanning the whole text.
pub open spec fn sp_json(s: Seq<char>) -> Option<JsonModel> {
    let i = sp_ws(s, 0);
    if !(0 <= i && i <= s.len()) {
        None
    } else {
        match sp_value(s, i) {
            Some((v, j)) => {
                if 0 <= j && j <= s.len() && sp_ws(s, j) == s.len() {
                    Some(v)
                } else {
                    None
                }
            },
            None => None,
        }
    }
}

/// If no field is named `key`, first-match lookup returns nothing.
proof fn lemma_lookup_no_match(fields: Seq<(Seq<char>, JsonModel)>, key: Seq<char>)
    requires
        forall|k: int| 0 <= k < fields.len() ==> fields[k].0 != key,
    ensures
        JsonModel::lookup(fields, key) is None,
    decreases fields.len(),
{
    if fields.len() > 0 {
        lemma_lookup_no_match(fields.skip(1), key);
    }
}

} // verus!
