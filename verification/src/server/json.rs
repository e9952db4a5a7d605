//! A model of JSON values, as the protocol layer reads and builds them.
use vstd::prelude::*;
use crate::utils::text::str_eq;

verus! {

/// How a JSON number was written: a non-negative integer, a negative integer, or a float.
#[derive(Debug, Clone, Copy, PartialEq, Eq, Structural)]
pub enum NumberKind {
    PosInt(u64),
    NegInt(i64),
    Float,
}

/// A JSON number: its form, and the IEEE-754 bits of its `f64` value (for a float, the
/// number itself; for an integer, the nearest `f64`).
#[derive(Debug, Clone, Copy, PartialEq, Eq, Structural)]
pub struct JsonNumber {
    pub kind: NumberKind,
    pub f64_bits: u64,
}

/// A JSON value. Object fields keep their order.
#[derive(Debug)]
pub enum JsonValue {
    Null,
    Bool(bool),
    Number(JsonNumber),
    Str(String),
    Array(Vec<JsonValue>),
    Object(Vec<(String, JsonValue)>),
}

/// The mathematical form of a JSON value.
pub enum JsonView {
    Null,
    Bool(bool),
    Number(JsonNumber),
    Str(Seq<char>),
    Array(Seq<JsonView>),
    Object(Seq<(Seq<char>, JsonView)>),
}

impl JsonValue {
    pub open spec fn view(self) -> JsonView
        decreases self,
    {
        match self {
            JsonValue::Null => JsonView::Null,
            JsonValue::Bool(b) => JsonView::Bool(b),
            JsonValue::Number(n) => JsonView::Number(n),
            JsonValue::Str(s) => JsonView::Str(s@),
            JsonValue::Array(items) => JsonView::Array(
                Seq::new(
                    items@.len(),
                    |i: int|
                        if 0 <= i < items@.len() {
                            items@[i].view()
                        } else {
                            JsonView::Null
                        },
                ),
            ),
            JsonValue::Object(fields) => JsonView::Object(
                Seq::new(
                    fields@.len(),
                    |i: int|
                        if 0 <= i < fields@.len() {
                            (fields@[i].0@, fields@[i].1.view())
                        } else {
                            (Seq::empty(), JsonView::Null)
                        },
                ),
            ),
        }
    }
}

/// The views of a sequence of values.
pub open spec fn items_view(items: Seq<JsonValue>) -> Seq<JsonView> {
    Seq::new(items.len(), |i: int| items[i].view())
}

/// The views of a sequence of object fields.
pub open spec fn fields_view(fields: Seq<(String, JsonValue)>) -> Seq<(Seq<char>, JsonView)> {
    Seq::new(fields.len(), |i: int| (fields[i].0@, fields[i].1.view()))
}

/// The view of an optional value.
pub open spec fn opt_view(v: Option<JsonValue>) -> Option<JsonView> {
    match v {
        Some(x) => Some(x.view()),
        None => None,
    }
}

/// The view of an optional reference to a value.
pub open spec fn opt_ref_view(v: Option<&JsonValue>) -> Option<JsonView> {
    match v {
        Some(x) => Some(x.view()),
        None => None,
    }
}

/// The view of an optional string slice.
pub open spec fn opt_str_view(v: Option<&str>) -> Option<Seq<char>> {
    match v {
        Some(x) => Some(x@),
        None => None,
    }
}

/// The view of an optional string.
pub open spec fn opt_string_view(v: Option<String>) -> Option<Seq<char>> {
    match v {
        Some(x) => Some(x@),
        None => None,
    }
}

proof fn lemma_array_view(items: Vec<JsonValue>)
    ensures
        JsonValue::Array(items).view() == JsonView::Array(items_view(items@)),
{
    assert(JsonValue::Array(items).view()->Array_0 =~= items_view(items@));
}

proof fn lemma_object_view(fields: Vec<(String, JsonValue)>)
    ensures
        JsonValue::Object(fields).view() == JsonView::Object(fields_view(fields@)),
{
    assert(JsonValue::Object(fields).view()->Object_0 =~= fields_view(fields@));
}

/// The value of the first field named `key`.
pub open spec fn lookup(fields: Seq<(Seq<char>, JsonView)>, key: Seq<char>) -> Option<JsonView>
    decreases fields.len(),
{
    if fields.len() == 0 {
        None
    } else if fields[0].0 == key {
        Some(fields[0].1)
    } else {
        lookup(fields.drop_first(), key)
    }
}

/// `Value::get` with a string key: the field of an object, none for other values.
pub open spec fn field(v: JsonView, key: Seq<char>) -> Option<JsonView> {
    match v {
        JsonView::Object(fields) => lookup(fields, key),
        _ => None,
    }
}

/// The characters of a string value.
pub open spec fn as_text(v: Option<JsonView>) -> Option<Seq<char>> {
    match v {
        Some(JsonView::Str(s)) => Some(s),
        _ => None,
    }
}

/// `as_u64`: a non-negative integer number.
pub open spec fn as_unsigned(v: Option<JsonView>) -> Option<u64> {
    match v {
        Some(JsonView::Number(n)) => match n.kind {
            NumberKind::PosInt(u) => Some(u),
            _ => None,
        },
        _ => None,
    }
}

/// `as_bool`: a boolean value.
pub open spec fn as_boolean(v: Option<JsonView>) -> Option<bool> {
    match v {
        Some(JsonView::Bool(b)) => Some(b),
        _ => None,
    }
}

/// `as_i64`: an integer number that fits an `i64`.
pub open spec fn as_signed(v: Option<JsonView>) -> Option<i64> {
    match v {
        Some(JsonView::Number(n)) => match n.kind {
            NumberKind::PosInt(u) => if u <= i64::MAX {
                Some(u as i64)
            } else {
                None
            },
            NumberKind::NegInt(i) => Some(i),
            _ => None,
        },
        _ => None,
    }
}

/// `as_f64`: the `f64` bits of any number.
pub open spec fn as_float_bits(v: Option<JsonView>) -> Option<u64> {
    match v {
        Some(JsonView::Number(n)) => Some(n.f64_bits),
        _ => None,
    }
}

/// The string elements of an array, in order, skipping the others; nothing for a non-array.
pub open spec fn text_items(v: Option<JsonView>) -> Seq<Seq<char>> {
    match v {
        Some(JsonView::Array(items)) => texts_of(items),
        _ => Seq::empty(),
    }
}

/// The string elements of a sequence of values, in order.
pub open spec fn texts_of(items: Seq<JsonView>) -> Seq<Seq<char>>
    decreases items.len(),
{
    if items.len() == 0 {
        Seq::empty()
    } else {
        texts_of(items.drop_last()) + match items.last() {
            JsonView::Str(s) => seq![s],
            _ => Seq::empty(),
        }
    }
}

/// The characters of each string of a sequence.
pub open spec fn texts_view(v: Seq<String>) -> Seq<Seq<char>> {
    Seq::new(v.len(), |i: int| v[i]@)
}

/// A sequence of the given elements, in order.
pub open spec fn seq_of1<A>(a0: A) -> Seq<A> {
    Seq::empty().push(a0)
}

pub open spec fn seq_of2<A>(a0: A, a1: A) -> Seq<A> {
    Seq::empty().push(a0).push(a1)
}

pub open spec fn seq_of3<A>(a0: A, a1: A, a2: A) -> Seq<A> {
    Seq::empty().push(a0).push(a1).push(a2)
}

pub open spec fn seq_of4<A>(a0: A, a1: A, a2: A, a3: A) -> Seq<A> {
    Seq::empty().push(a0).push(a1).push(a2).push(a3)
}

pub open spec fn seq_of5<A>(a0: A, a1: A, a2: A, a3: A, a4: A) -> Seq<A> {
    Seq::empty().push(a0).push(a1).push(a2).push(a3).push(a4)
}

pub open spec fn seq_of6<A>(a0: A, a1: A, a2: A, a3: A, a4: A, a5: A) -> Seq<A> {
    Seq::empty().push(a0).push(a1).push(a2).push(a3).push(a4).push(a5)
}

pub open spec fn seq_of7<A>(a0: A, a1: A, a2: A, a3: A, a4: A, a5: A, a6: A) -> Seq<A> {
    Seq::empty().push(a0).push(a1).push(a2).push(a3).push(a4).push(a5).push(a6)
}

pub open spec fn seq_of8<A>(a0: A, a1: A, a2: A, a3: A, a4: A, a5: A, a6: A, a7: A) -> Seq<A> {
    Seq::empty().push(a0).push(a1).push(a2).push(a3).push(a4).push(a5).push(a6).push(a7)
}

pub open spec fn seq_of9<A>(a0: A, a1: A, a2: A, a3: A, a4: A, a5: A, a6: A, a7: A, a8: A) -> Seq<A> {
    Seq::empty().push(a0).push(a1).push(a2).push(a3).push(a4).push(a5).push(a6).push(a7).push(a8)
}

/// An empty field list.
pub fn field_list() -> (r: Vec<(String, JsonValue)>)
    ensures
        fields_view(r@) == Seq::<(Seq<char>, JsonView)>::empty(),
{
    let r: Vec<(String, JsonValue)> = Vec::new();
    assert(fields_view(r@) =~= Seq::<(Seq<char>, JsonView)>::empty());
    r
}

/// An empty element list.
pub fn item_list() -> (r: Vec<JsonValue>)
    ensures
        items_view(r@) == Seq::<JsonView>::empty(),
{
    let r: Vec<JsonValue> = Vec::new();
    assert(items_view(r@) =~= Seq::<JsonView>::empty());
    r
}

/// A string value.
pub fn json_str(s: &str) -> (v: JsonValue)
    ensures
        v@ == JsonView::Str(s@),
{
    JsonValue::Str(String::from_str(s))
}

/// An object with the given fields.
pub fn json_object(fields: Vec<(String, JsonValue)>) -> (v: JsonValue)
    ensures
        v@ == JsonView::Object(fields_view(fields@)),
{
    proof {
        lemma_object_view(fields);
    }
    JsonValue::Object(fields)
}

/// An array with the given elements.
pub fn json_array(items: Vec<JsonValue>) -> (v: JsonValue)
    ensures
        v@ == JsonView::Array(items_view(items@)),
{
    proof {
        lemma_array_view(items);
    }
    JsonValue::Array(items)
}

/// Appends a field to an object under construction.
pub fn push_field(fields: &mut Vec<(String, JsonValue)>, key: &str, value: JsonValue)
    ensures
        fields_view(final(fields)@) == fields_view(old(fields)@).push((key@, value@)),
{
    let ghost old_fields = fields@;
    fields.push((String::from_str(key), value));
    assert(fields_view(fields@) =~= fields_view(old_fields).push((key@, value@)));
}

/// Appends an element to an array under construction.
pub fn push_item(items: &mut Vec<JsonValue>, value: JsonValue)
    ensures
        items_view(final(items)@) == items_view(old(items)@).push(value@),
{
    let ghost old_items = items@;
    items.push(value);
    assert(items_view(items@) =~= items_view(old_items).push(value@));
}

/// `Value::get` with a string key.
pub fn get<'a>(v: &'a JsonValue, key: &str) -> (r: Option<&'a JsonValue>)
    ensures
        opt_ref_view(r) == field(v@, key@),
{
    match v {
        JsonValue::Object(fields) => {
            proof {
                lemma_object_view(*fields);
            }
            let ghost fv = fields_view(fields@);
            assert(fv.subrange(0, fv.len() as int) =~= fv);
            let mut i: usize = 0;
            while i < fields.len()
                invariant
                    fv == fields_view(fields@),
                    v@ == JsonView::Object(fv),
                    i <= fields@.len(),
                    lookup(fv, key@) == lookup(fv.subrange(i as int, fv.len() as int), key@),
                decreases fields@.len() - i,
            {
                let ghost rest = fv.subrange(i as int, fv.len() as int);
                assert(rest[0] == fv[i as int]);
                assert(fv[i as int] == (fields@[i as int].0@, fields@[i as int].1@));
                if str_eq(fields[i].0.as_str(), key) {
                    assert(lookup(rest, key@) == Some(rest[0].1));
                    return Some(&fields[i].1);
                }
                assert(rest.drop_first() =~= fv.subrange(i + 1, fv.len() as int));
                i = i + 1;
            }
            None
        },
        _ => None,
    }
}

/// The string at `key`, if the field exists and holds a string.
pub fn get_str<'a>(v: &'a JsonValue, key: &str) -> (r: Option<&'a str>)
    ensures
        opt_str_view(r) == as_text(field(v@, key@)),
{
    match get(v, key) {
        Some(JsonValue::Str(s)) => Some(s.as_str()),
        _ => None,
    }
}

/// The non-negative integer at `key`, if the field exists and holds one.
pub fn get_u64(v: &JsonValue, key: &str) -> (r: Option<u64>)
    ensures
        r == as_unsigned(field(v@, key@)),
{
    match get(v, key) {
        Some(JsonValue::Number(n)) => match n.kind {
            NumberKind::PosInt(u) => Some(u),
            _ => None,
        },
        _ => None,
    }
}

/// The boolean at `key`, if the field exists and holds one.
pub fn get_bool(v: &JsonValue, key: &str) -> (r: Option<bool>)
    ensures
        r == as_boolean(field(v@, key@)),
{
    match get(v, key) {
        Some(JsonValue::Bool(b)) => Some(*b),
        _ => None,
    }
}

/// The integer at `key`, if the field exists and holds one that fits an `i64`.
pub fn get_i64(v: &JsonValue, key: &str) -> (r: Option<i64>)
    ensures
        r == as_signed(field(v@, key@)),
{
    match get(v, key) {
        Some(JsonValue::Number(n)) => match n.kind {
            NumberKind::PosInt(u) => if u <= 9223372036854775807u64 {
                Some(u as i64)
            } else {
                None
            },
            NumberKind::NegInt(i) => Some(i),
            _ => None,
        },
        _ => None,
    }
}

/// The `f64` bits of the number at `key`, if the field exists and holds a number.
pub fn get_f64_bits(v: &JsonValue, key: &str) -> (r: Option<u64>)
    ensures
        r == as_float_bits(field(v@, key@)),
{
    match get(v, key) {
        Some(JsonValue::Number(n)) => Some(n.f64_bits),
        _ => None,
    }
}

/// The string elements of the array at `key`, in order; none when the field is not an array.
pub fn get_strings(v: &JsonValue, key: &str) -> (r: Vec<String>)
    ensures
        texts_view(r@) == text_items(field(v@, key@)),
{
    let mut out: Vec<String> = Vec::new();
    match get(v, key) {
        Some(JsonValue::Array(items)) => {
            proof {
                lemma_array_view(*items);
            }
            let ghost iv = items_view(items@);
            let mut i: usize = 0;
            while i < items.len()
                invariant
                    iv == items_view(items@),
                    i <= items@.len(),
                    texts_view(out@) == texts_of(iv.subrange(0, i as int)),
                decreases items@.len() - i,
            {
                let ghost before = out@;
                assert(iv.subrange(0, i + 1).drop_last() =~= iv.subrange(0, i as int));
                assert(iv.subrange(0, i + 1).last() == items@[i as int]@);
                match &items[i] {
                    JsonValue::Str(s) => {
                        out.push(String::from_str(s.as_str()));
                        assert(texts_view(out@) =~= texts_view(before).push(s@));
                    },
                    _ => {
                        assert(texts_view(out@) =~= texts_view(before) + Seq::<Seq<char>>::empty());
                    },
                }
                i = i + 1;
            }
            assert(iv.subrange(0, iv.len() as int) =~= iv);
            out
        },
        _ => {
            assert(texts_view(out@) =~= Seq::<Seq<char>>::empty());
            out
        },
    }
}

} // verus!
