//! JSON values, their mathematical model, and the operations the rules
//! need: lookup, deep equality, kind and emptiness.
use vstd::prelude::*;

verus! {

broadcast use vstd::std_specs::vec::group_vec_axioms;

/// A JSON number, kept as the three forms a JSON reader distinguishes.
/// A float is held by its IEEE-754 bit pattern.
#[derive(Debug, Clone, Copy, PartialEq, Eq, Structural)]
pub enum JsonNumber {
    PosInt(u64),
    NegInt(i64),
    Float(u64),
}

/// An in-memory JSON value. An object holds its entries in order; the
/// value under a key is the one of the first entry with that key. Two
/// objects are equal when they hold equal entries in the same order, which
/// is map equality for objects whose keys are unique and sorted, as a JSON
/// reader with a sorted map delivers them.
#[derive(Debug)]
pub enum JsonValue {
    Null,
    Bool(bool),
    Number(JsonNumber),
    String(String),
    Array(Vec<JsonValue>),
    Object(Vec<(String, JsonValue)>),
}

/// The six kinds of JSON value.
#[derive(Debug, Clone, Copy, PartialEq, Eq, Structural)]
pub enum ValueType {
    String,
    Number,
    Boolean,
    Object,
    Array,
    Null,
}

/// The mathematical model of a JSON value.
pub enum Json {
    Null,
    Bool(bool),
    Number(JsonNumber),
    Str(Seq<char>),
    Array(Seq<Json>),
    Object(Seq<(Seq<char>, Json)>),
}

/// The model of an array's elements.
pub open spec fn items_view(items: Vec<JsonValue>) -> Seq<Json>
    decreases items, 0int,
{
    Seq::new(
        items.len() as nat,
        |i: int|
            if 0 <= i < items.len() {
                json_view(items[i])
            } else {
                Json::Null
            },
    )
}

/// The model of an object's entries.
pub open spec fn entries_view(entries: Vec<(String, JsonValue)>) -> Seq<(Seq<char>, Json)>
    decreases entries, 0int,
{
    Seq::new(
        entries.len() as nat,
        |i: int|
            if 0 <= i < entries.len() {
                (entries[i].0@, json_view(entries[i].1))
            } else {
                (Seq::empty(), Json::Null)
            },
    )
}

/// Bits of a float other than its sign.
pub const MAGNITUDE_BITS: u64 = 0x7fff_ffff_ffff_ffff;

/// The model of a number: the two float zeros are one value, as they are
/// equal as numbers.
pub open spec fn number_model(n: JsonNumber) -> JsonNumber {
    match n {
        JsonNumber::Float(bits) => if bits & MAGNITUDE_BITS == 0 {
            JsonNumber::Float(0)
        } else {
            n
        },
        _ => n,
    }
}

fn normal_number(n: JsonNumber) -> (r: JsonNumber)
    ensures
        r == number_model(n),
{
    match n {
        JsonNumber::Float(bits) => if bits & MAGNITUDE_BITS == 0 {
            JsonNumber::Float(0)
        } else {
            n
        },
        _ => n,
    }
}

/// The model of a JSON value. Two values are equal as JSON values exactly
/// when their models are equal.
pub open spec fn json_view(v: JsonValue) -> Json
    decreases v, 1int,
{
    match v {
        JsonValue::Null => Json::Null,
        JsonValue::Bool(b) => Json::Bool(b),
        JsonValue::Number(n) => Json::Number(number_model(n)),
        JsonValue::String(s) => Json::Str(s@),
        JsonValue::Array(items) => Json::Array(items_view(items)),
        JsonValue::Object(entries) => Json::Object(entries_view(entries)),
    }
}

impl View for JsonValue {
    type V = Json;

    open spec fn view(&self) -> Json {
        json_view(*self)
    }
}

/// The value under `key`: that of the first entry with this key.
pub open spec fn lookup(entries: Seq<(Seq<char>, Json)>, key: Seq<char>) -> Option<Json>
    decreases entries.len(),
{
    if entries.len() == 0 {
        None
    } else if entries[0].0 == key {
        Some(entries[0].1)
    } else {
        lookup(entries.drop_first(), key)
    }
}

pub open spec fn kind_of(v: Json) -> ValueType {
    match v {
        Json::Null => ValueType::Null,
        Json::Bool(_) => ValueType::Boolean,
        Json::Number(_) => ValueType::Number,
        Json::Str(_) => ValueType::String,
        Json::Array(_) => ValueType::Array,
        Json::Object(_) => ValueType::Object,
    }
}

pub open spec fn label_of(t: ValueType) -> Seq<char> {
    match t {
        ValueType::String => "string"@,
        ValueType::Number => "number"@,
        ValueType::Boolean => "boolean"@,
        ValueType::Object => "object"@,
        ValueType::Array => "array"@,
        ValueType::Null => "null"@,
    }
}

/// Unicode White_Space, the characters that `str::trim` removes.
pub open spec fn is_white(c: char) -> bool {
    let n = c as u32;
    (0x09 <= n <= 0x0d) || n == 0x20 || n == 0x85 || n == 0xa0 || n == 0x1680 || (0x2000 <= n
        <= 0x200a) || n == 0x2028 || n == 0x2029 || n == 0x202f || n == 0x205f || n == 0x3000
}

/// A string that trims to nothing.
pub open spec fn is_blank(s: Seq<char>) -> bool {
    forall|i: int| 0 <= i < s.len() ==> is_white(#[trigger] s[i])
}

/// An empty value: null, a blank string, an empty array or an empty object.
pub open spec fn is_empty_json(v: Json) -> bool {
    match v {
        Json::Null => true,
        Json::Str(s) => is_blank(s),
        Json::Array(xs) => xs.len() == 0,
        Json::Object(es) => es.len() == 0,
        _ => false,
    }
}

/// An object whose values are all empty (so also one with no entries).
pub open spec fn is_empty_row(es: Seq<(Seq<char>, Json)>) -> bool {
    forall|i: int| 0 <= i < es.len() ==> is_empty_json(#[trigger] es[i].1)
}

impl JsonValue {
    /// A copy with the same model.
    pub fn deep_copy(&self) -> (r: JsonValue)
        ensures
            r@ == self@,
        decreases self,
    {
        match self {
            JsonValue::Null => JsonValue::Null,
            JsonValue::Bool(b) => JsonValue::Bool(*b),
            JsonValue::Number(n) => JsonValue::Number(*n),
            JsonValue::String(s) => JsonValue::String(s.clone()),
            JsonValue::Array(items) => {
                let mut out: Vec<JsonValue> = Vec::new();
                let mut i: usize = 0;
                while i < items.len()
                    invariant
                        0 <= i <= items.len(),
                        out.len() == i,
                        *self == JsonValue::Array(*items),
                        forall|k: int| 0 <= k < i ==> (#[trigger] out[k])@ == items[k]@,
                    decreases items.len() - i,
                {
                    proof {
                        assert(decreases_to!(*self => (*self)->Array_0));
                        assert(decreases_to!(*items => items[i as int]));
                    }
                    out.push(items[i].deep_copy());
                    i += 1;
                }
                assert(items_view(out) =~= items_view(*items));
                JsonValue::Array(out)
            },
            JsonValue::Object(entries) => {
                let mut out: Vec<(String, JsonValue)> = Vec::new();
                let mut i: usize = 0;
                while i < entries.len()
                    invariant
                        0 <= i <= entries.len(),
                        out.len() == i,
                        *self == JsonValue::Object(*entries),
                        forall|k: int|
                            0 <= k < i ==> (#[trigger] out[k]).0@ == entries[k].0@ && out[k].1@
                                == entries[k].1@,
                    decreases entries.len() - i,
                {
                    proof {
                        assert(decreases_to!(*self => (*self)->Object_0));
                        assert(decreases_to!(*entries => entries[i as int]));
                        assert(decreases_to!(entries[i as int] => entries[i as int].1));
                    }
                    let key = entries[i].0.clone();
                    let value = entries[i].1.deep_copy();
                    out.push((key, value));
                    i += 1;
                }
                assert(entries_view(out) =~= entries_view(*entries));
                JsonValue::Object(out)
            },
        }
    }
}

/// Deep structural equality of two values: numbers compare as JSON numbers
/// (integers by value, floats as IEEE-754 values).
pub fn json_equal(a: &JsonValue, b: &JsonValue) -> (r: bool)
    ensures
        r == (a@ == b@),
    decreases a,
{
    match a {
        JsonValue::Null => matches!(b, JsonValue::Null),
        JsonValue::Bool(x) => match b {
            JsonValue::Bool(y) => *x == *y,
            _ => false,
        },
        JsonValue::Number(x) => match b {
            JsonValue::Number(y) => normal_number(*x) == normal_number(*y),
            _ => false,
        },
        JsonValue::String(x) => match b {
            JsonValue::String(y) => *x == *y,
            _ => false,
        },
        JsonValue::Array(xs) => {
            let ys = match b {
                JsonValue::Array(ys) => ys,
                _ => {
                    return false;
                },
            };
            if xs.len() != ys.len() {
                assert(items_view(*xs).len() != items_view(*ys).len());
                return false;
            }
            let mut i: usize = 0;
            while i < xs.len()
                invariant
                    0 <= i <= xs.len(),
                    xs.len() == ys.len(),
                    *a == JsonValue::Array(*xs),
                    *b == JsonValue::Array(*ys),
                    forall|k: int| 0 <= k < i ==> xs[k]@ == ys[k]@,
                decreases xs.len() - i,
            {
                proof {
                    assert(decreases_to!(*a => (*a)->Array_0));
                    assert(decreases_to!(*xs => xs[i as int]));
                }
                if !json_equal(&xs[i], &ys[i]) {
                    assert(items_view(*xs)[i as int] != items_view(*ys)[i as int]);
                    return false;
                }
                i += 1;
            }
            assert(items_view(*xs) =~= items_view(*ys));
            true
        },
        JsonValue::Object(xs) => {
            let ys = match b {
                JsonValue::Object(ys) => ys,
                _ => {
                    return false;
                },
            };
            if xs.len() != ys.len() {
                assert(entries_view(*xs).len() != entries_view(*ys).len());
                return false;
            }
            let mut i: usize = 0;
            while i < xs.len()
                invariant
                    0 <= i <= xs.len(),
                    xs.len() == ys.len(),
                    *a == JsonValue::Object(*xs),
                    *b == JsonValue::Object(*ys),
                    forall|k: int| 0 <= k < i ==> xs[k].0@ == ys[k].0@ && xs[k].1@ == ys[k].1@,
                decreases xs.len() - i,
            {
                proof {
                    assert(decreases_to!(*a => (*a)->Object_0));
                    assert(decreases_to!(*xs => xs[i as int]));
                    assert(decreases_to!(xs[i as int] => xs[i as int].1));
                }
                if xs[i].0 != ys[i].0 {
                    assert(entries_view(*xs)[i as int] != entries_view(*ys)[i as int]);
                    return false;
                }
                if !json_equal(&xs[i].1, &ys[i].1) {
                    assert(entries_view(*xs)[i as int] != entries_view(*ys)[i as int]);
                    return false;
                }
                i += 1;
            }
            assert(entries_view(*xs) =~= entries_view(*ys));
            true
        },
    }
}

proof fn lemma_lookup_step(entries: Seq<(Seq<char>, Json)>, key: Seq<char>, i: int)
    requires
        0 <= i < entries.len(),
    ensures
        lookup(entries.subrange(i, entries.len() as int), key) == if entries[i].0 == key {
            Some(entries[i].1)
        } else {
            lookup(entries.subrange(i + 1, entries.len() as int), key)
        },
{
    let rest = entries.subrange(i, entries.len() as int);
    assert(rest.drop_first() =~= entries.subrange(i + 1, entries.len() as int));
}

/// The value under `key` in an object's entries.
pub fn get<'a>(entries: &'a Vec<(String, JsonValue)>, key: &String) -> (r: Option<&'a JsonValue>)
    ensures
        r is Some <==> lookup(entries_view(*entries), key@) is Some,
        r is Some ==> lookup(entries_view(*entries), key@) == Some(r->Some_0@),
{
    let ghost ev = entries_view(*entries);
    assert(ev.subrange(0, ev.len() as int) =~= ev);
    let mut i: usize = 0;
    while i < entries.len()
        invariant
            0 <= i <= entries.len(),
            ev == entries_view(*entries),
            lookup(ev, key@) == lookup(ev.subrange(i as int, ev.len() as int), key@),
        decreases entries.len() - i,
    {
        proof {
            lemma_lookup_step(ev, key@, i as int);
        }
        if entries[i].0 == *key {
            return Some(&entries[i].1);
        }
        i += 1;
    }
    assert(ev.subrange(i as int, ev.len() as int).len() == 0);
    None
}

/// The kind of a value.
pub fn value_type_of(v: &JsonValue) -> (r: ValueType)
    ensures
        r == kind_of(v@),
{
    match v {
        JsonValue::Null => ValueType::Null,
        JsonValue::Bool(_) => ValueType::Boolean,
        JsonValue::Number(_) => ValueType::Number,
        JsonValue::String(_) => ValueType::String,
        JsonValue::Array(_) => ValueType::Array,
        JsonValue::Object(_) => ValueType::Object,
    }
}

/// The lower-case name of a kind, as contracts and messages write it.
pub fn value_type_label(value_type: &ValueType) -> (r: &'static str)
    ensures
        r@ == label_of(*value_type),
{
    match value_type {
        ValueType::String => "string",
        ValueType::Number => "number",
        ValueType::Boolean => "boolean",
        ValueType::Object => "object",
        ValueType::Array => "array",
        ValueType::Null => "null",
    }
}

/// The name of the kind of a value.
pub fn detected_value_type(v: &JsonValue) -> (r: &'static str)
    ensures
        r@ == label_of(kind_of(v@)),
{
    value_type_label(&value_type_of(v))
}

/// Whether a value has the given kind.
pub fn matches_value_type(v: &JsonValue, expected: &ValueType) -> (r: bool)
    ensures
        r == (kind_of(v@) == *expected),
{
    value_type_of(v) == *expected
}

fn is_white_char(c: char) -> (r: bool)
    ensures
        r == is_white(c),
{
    let n = c as u32;
    (0x09 <= n && n <= 0x0d) || n == 0x20 || n == 0x85 || n == 0xa0 || n == 0x1680 || (0x2000
        <= n && n <= 0x200a) || n == 0x2028 || n == 0x2029 || n == 0x202f || n == 0x205f || n
        == 0x3000
}

/// Whether a string is made of white space only.
pub fn is_blank_str(s: &str) -> (r: bool)
    ensures
        r == is_blank(s@),
{
    let n = s.unicode_len();
    let mut i: usize = 0;
    while i < n
        invariant
            n == s@.len(),
            0 <= i <= n,
            forall|k: int| 0 <= k < i ==> is_white(#[trigger] s@[k]),
        decreases n - i,
    {
        if !is_white_char(s.get_char(i)) {
            return false;
        }
        i += 1;
    }
    true
}

/// Whether a value is empty: null, a blank string, an empty array or an
/// empty object.
pub fn is_empty_value(v: &JsonValue) -> (r: bool)
    ensures
        r == is_empty_json(v@),
{
    match v {
        JsonValue::Null => true,
        JsonValue::String(s) => is_blank_str(s.as_str()),
        JsonValue::Array(items) => items.len() == 0,
        JsonValue::Object(entries) => entries.len() == 0,
        _ => false,
    }
}

/// Whether every value of an object is empty.
pub fn is_empty_object(entries: &Vec<(String, JsonValue)>) -> (r: bool)
    ensures
        r == is_empty_row(entries_view(*entries)),
{
    let ghost ev = entries_view(*entries);
    let mut i: usize = 0;
    while i < entries.len()
        invariant
            0 <= i <= entries.len(),
            ev == entries_view(*entries),
            forall|k: int| 0 <= k < i ==> is_empty_json(#[trigger] ev[k].1),
        decreases entries.len() - i,
    {
        if !is_empty_value(&entries[i].1) {
            assert(!is_empty_json(ev[i as int].1));
            return false;
        }
        i += 1;
    }
    true
}

/// A copy of an array's elements, with the same model.
pub fn copy_items(items: &Vec<JsonValue>) -> (r: Vec<JsonValue>)
    ensures
        items_view(r) == items_view(*items),
{
    let mut out: Vec<JsonValue> = Vec::new();
    let mut i: usize = 0;
    while i < items.len()
        invariant
            0 <= i <= items.len(),
            out.len() == i,
            forall|k: int| 0 <= k < i ==> (#[trigger] out[k])@ == items[k]@,
        decreases items.len() - i,
    {
        out.push(items[i].deep_copy());
        i += 1;
    }
    assert(items_view(out) =~= items_view(*items));
    out
}

/// Whether `v` equals one of `items`.
pub fn contains_value(items: &Vec<JsonValue>, v: &JsonValue) -> (r: bool)
    ensures
        r == items_view(*items).contains(v@),
{
    let ghost iv = items_view(*items);
    let mut i: usize = 0;
    while i < items.len()
        invariant
            0 <= i <= items.len(),
            iv == items_view(*items),
            forall|k: int| 0 <= k < i ==> iv[k] != v@,
        decreases items.len() - i,
    {
        if json_equal(&items[i], v) {
            assert(iv[i as int] == v@);
            return true;
        }
        i += 1;
    }
    false
}

} // verus!
