//! Conversion between dynamic values and the store's typed values.
//!
//! Containers convert all or nothing: when one element fails, so does the
//! container, and no partial container is returned.
use vstd::prelude::*;
use crate::decimal::{
    decimal_of, signed_decimal_of, parsed_u64, parsed_i64, lemma_u64_text_round_trip,
    lemma_negative_text_round_trip,
};
use crate::decimal::{parse_u64, parse_i64, u64_text, i64_text};
use crate::value::{
    Number, Json, Store, JsonValue, StoreValue, Entity, json_view, json_views, json_field_views,
    store_view, store_views, store_field_views, lemma_json_views, lemma_json_field_views,
    lemma_store_views, lemma_store_field_views,
};

verus! {

/// A double's bit pattern is finite when its exponent bits are not all ones.
pub open spec fn is_finite_bits(bits: u64) -> bool {
    (bits >> 52u64) & 0x7ffu64 != 0x7ffu64
}

pub open spec fn encode_number(n: Number) -> Option<Store> {
    match n {
        Number::PosInt(u) => Some(Store::Integer(decimal_of(u as nat))),
        Number::NegInt(i) => Some(Store::Integer(signed_decimal_of(i as int))),
        Number::Float(bits) => if is_finite_bits(bits) {
            Some(Store::Double(bits))
        } else {
            None
        },
    }
}

/// The store value that a dynamic value encodes to, if any.
pub open spec fn encode(j: Json) -> Option<Store>
    decreases j,
{
    match j {
        Json::Null => Some(Store::Null),
        Json::Bool(b) => Some(Store::Boolean(b)),
        Json::Num(n) => encode_number(n),
        Json::Str(s) => Some(Store::Text(s)),
        Json::Array(xs) => match encode_all(xs) {
            Some(ys) => Some(Store::Array(ys)),
            None => None,
        },
        Json::Object(fs) => match encode_fields(fs) {
            Some(gs) => Some(Store::Entity(None, gs)),
            None => None,
        },
    }
}

pub open spec fn encode_all(xs: Seq<Json>) -> Option<Seq<Store>>
    decreases xs,
{
    if xs.len() == 0 {
        Some(Seq::empty())
    } else {
        match (encode_all(xs.drop_last()), encode(xs[xs.len() - 1])) {
            (Some(ys), Some(y)) => Some(ys.push(y)),
            _ => None,
        }
    }
}

pub open spec fn encode_fields(fs: Seq<(Seq<char>, Json)>) -> Option<Seq<(Seq<char>, Store)>>
    decreases fs,
{
    if fs.len() == 0 {
        Some(Seq::empty())
    } else {
        match (encode_fields(fs.drop_last()), encode(fs[fs.len() - 1].1)) {
            (Some(gs), Some(y)) => Some(gs.push((fs[fs.len() - 1].0, y))),
            _ => None,
        }
    }
}

/// An integer's text read as unsigned first, then as signed.
pub open spec fn decode_integer(t: Seq<char>) -> Option<Number> {
    match parsed_u64(t) {
        Some(u) => Some(Number::PosInt(u)),
        None => match parsed_i64(t) {
            Some(i) => if i >= 0 {
                Some(Number::PosInt(i as u64))
            } else {
                Some(Number::NegInt(i))
            },
            None => None,
        },
    }
}

/// The dynamic value that a store value decodes to, if any. An entity's key
/// is not part of the result.
pub open spec fn decode(s: Store) -> Option<Json>
    decreases s,
{
    match s {
        Store::Null => Some(Json::Null),
        Store::Boolean(b) => Some(Json::Bool(b)),
        Store::Integer(t) => match decode_integer(t) {
            Some(n) => Some(Json::Num(n)),
            None => None,
        },
        Store::Double(bits) => if is_finite_bits(bits) {
            Some(Json::Num(Number::Float(bits)))
        } else {
            None
        },
        Store::Text(t) => Some(Json::Str(t)),
        Store::Array(xs) => match decode_all(xs) {
            Some(ys) => Some(Json::Array(ys)),
            None => None,
        },
        Store::Entity(_, fs) => match decode_fields(fs) {
            Some(gs) => Some(Json::Object(gs)),
            None => None,
        },
        Store::Unsupported => None,
    }
}

pub open spec fn decode_all(xs: Seq<Store>) -> Option<Seq<Json>>
    decreases xs,
{
    if xs.len() == 0 {
        Some(Seq::empty())
    } else {
        match (decode_all(xs.drop_last()), decode(xs[xs.len() - 1])) {
            (Some(ys), Some(y)) => Some(ys.push(y)),
            _ => None,
        }
    }
}

pub open spec fn decode_fields(fs: Seq<(Seq<char>, Store)>) -> Option<Seq<(Seq<char>, Json)>>
    decreases fs,
{
    if fs.len() == 0 {
        Some(Seq::empty())
    } else {
        match (decode_fields(fs.drop_last()), decode(fs[fs.len() - 1].1)) {
            (Some(gs), Some(y)) => Some(gs.push((fs[fs.len() - 1].0, y))),
            _ => None,
        }
    }
}

/// An array encodes exactly when every element does, element by element.
pub proof fn lemma_encode_all(xs: Seq<Json>)
    ensures
        encode_all(xs) is Some <==> forall|i: int| 0 <= i < xs.len() ==> #[trigger] encode(xs[i]) is Some,
        encode_all(xs) is Some ==> {
            &&& encode_all(xs)->0.len() == xs.len()
            &&& forall|i: int| 0 <= i < xs.len() ==> #[trigger] encode_all(xs)->0[i] == encode(xs[i])->0
        },
    decreases xs.len(),
{
    if xs.len() > 0 {
        let init = xs.drop_last();
        lemma_encode_all(init);
        assert forall|i: int| 0 <= i < init.len() implies #[trigger] init[i] == xs[i] by {}
        if encode_all(xs) is Some {
            assert forall|i: int| 0 <= i < xs.len() implies #[trigger] encode(xs[i]) is Some by {
                if i < init.len() {
                    assert(init[i] == xs[i]);
                }
            }
            let ys = encode_all(xs)->0;
            assert forall|i: int| 0 <= i < xs.len() implies #[trigger] ys[i] == encode(xs[i])->0 by {
                if i < init.len() {
                    assert(init[i] == xs[i]);
                }
            }
        } else {
            if forall|i: int| 0 <= i < xs.len() ==> #[trigger] encode(xs[i]) is Some {
                assert forall|i: int| 0 <= i < init.len() implies #[trigger] encode(init[i]) is Some by {
                    assert(init[i] == xs[i]);
                }
                assert(encode(xs[xs.len() - 1]) is Some);
            }
        }
    }
}

/// An object encodes exactly when every value does; keys and order are kept.
pub proof fn lemma_encode_fields(xs: Seq<(Seq<char>, Json)>)
    ensures
        encode_fields(xs) is Some <==> forall|i: int| 0 <= i < xs.len() ==> #[trigger] encode(xs[i].1) is Some,
        encode_fields(xs) is Some ==> {
            &&& encode_fields(xs)->0.len() == xs.len()
            &&& forall|i: int| 0 <= i < xs.len() ==> #[trigger] encode_fields(xs)->0[i] == (xs[i].0, encode(xs[i].1)->0)
        },
    decreases xs.len(),
{
    if xs.len() > 0 {
        let init = xs.drop_last();
        lemma_encode_fields(init);
        assert forall|i: int| 0 <= i < init.len() implies #[trigger] init[i] == xs[i] by {}
        if encode_fields(xs) is Some {
            assert forall|i: int| 0 <= i < xs.len() implies #[trigger] encode(xs[i].1) is Some by {
                if i < init.len() {
                    assert(init[i] == xs[i]);
                }
            }
            let ys = encode_fields(xs)->0;
            assert forall|i: int| 0 <= i < xs.len() implies #[trigger] ys[i] == (xs[i].0, encode(xs[i].1)->0) by {
                if i < init.len() {
                    assert(init[i] == xs[i]);
                }
            }
        } else {
            if forall|i: int| 0 <= i < xs.len() ==> #[trigger] encode(xs[i].1) is Some {
                assert forall|i: int| 0 <= i < init.len() implies #[trigger] encode(init[i].1) is Some by {
                    assert(init[i] == xs[i]);
                }
                assert(encode(xs[xs.len() - 1].1) is Some);
            }
        }
    }
}

/// An array decodes exactly when every element does, element by element.
pub proof fn lemma_decode_all(xs: Seq<Store>)
    ensures
        decode_all(xs) is Some <==> forall|i: int| 0 <= i < xs.len() ==> #[trigger] decode(xs[i]) is Some,
        decode_all(xs) is Some ==> {
            &&& decode_all(xs)->0.len() == xs.len()
            &&& forall|i: int| 0 <= i < xs.len() ==> #[trigger] decode_all(xs)->0[i] == decode(xs[i])->0
        },
    decreases xs.len(),
{
    if xs.len() > 0 {
        let init = xs.drop_last();
        lemma_decode_all(init);
        assert forall|i: int| 0 <= i < init.len() implies #[trigger] init[i] == xs[i] by {}
        if decode_all(xs) is Some {
            assert forall|i: int| 0 <= i < xs.len() implies #[trigger] decode(xs[i]) is Some by {
                if i < init.len() {
                    assert(init[i] == xs[i]);
                }
            }
            let ys = decode_all(xs)->0;
            assert forall|i: int| 0 <= i < xs.len() implies #[trigger] ys[i] == decode(xs[i])->0 by {
                if i < init.len() {
                    assert(init[i] == xs[i]);
                }
            }
        } else {
            if forall|i: int| 0 <= i < xs.len() ==> #[trigger] decode(xs[i]) is Some {
                assert forall|i: int| 0 <= i < init.len() implies #[trigger] decode(init[i]) is Some by {
                    assert(init[i] == xs[i]);
                }
                assert(decode(xs[xs.len() - 1]) is Some);
            }
        }
    }
}

/// An entity decodes exactly when every property does; names and order are kept.
pub proof fn lemma_decode_fields(xs: Seq<(Seq<char>, Store)>)
    ensures
        decode_fields(xs) is Some <==> forall|i: int| 0 <= i < xs.len() ==> #[trigger] decode(xs[i].1) is Some,
        decode_fields(xs) is Some ==> {
            &&& decode_fields(xs)->0.len() == xs.len()
            &&& forall|i: int| 0 <= i < xs.len() ==> #[trigger] decode_fields(xs)->0[i] == (xs[i].0, decode(xs[i].1)->0)
        },
    decreases xs.len(),
{
    if xs.len() > 0 {
        let init = xs.drop_last();
        lemma_decode_fields(init);
        assert forall|i: int| 0 <= i < init.len() implies #[trigger] init[i] == xs[i] by {}
        if decode_fields(xs) is Some {
            assert forall|i: int| 0 <= i < xs.len() implies #[trigger] decode(xs[i].1) is Some by {
                if i < init.len() {
                    assert(init[i] == xs[i]);
                }
            }
            let ys = decode_fields(xs)->0;
            assert forall|i: int| 0 <= i < xs.len() implies #[trigger] ys[i] == (xs[i].0, decode(xs[i].1)->0) by {
                if i < init.len() {
                    assert(init[i] == xs[i]);
                }
            }
        } else {
            if forall|i: int| 0 <= i < xs.len() ==> #[trigger] decode(xs[i].1) is Some {
                assert forall|i: int| 0 <= i < init.len() implies #[trigger] decode(init[i].1) is Some by {
                    assert(init[i] == xs[i]);
                }
                assert(decode(xs[xs.len() - 1].1) is Some);
            }
        }
    }
}

/// Encodes a dynamic value into the store's typed value; `None` when the value,
/// or any value nested in it, has no encoding.
pub fn to_datastore_value(v: &JsonValue) -> (r: Option<StoreValue>)
    ensures
        match r {
            Some(s) => encode(v@) == Some(s@),
            None => encode(v@) is None,
        },
    decreases v,
{
    match v {
        JsonValue::Null => Some(StoreValue::Null),
        JsonValue::Bool(b) => Some(StoreValue::Boolean(*b)),
        JsonValue::Number(Number::PosInt(u)) => Some(StoreValue::Integer(u64_text(*u))),
        JsonValue::Number(Number::NegInt(i)) => Some(StoreValue::Integer(i64_text(*i))),
        JsonValue::Number(Number::Float(bits)) => {
            if (*bits >> 52u64) & 0x7ffu64 != 0x7ffu64 {
                Some(StoreValue::Double(*bits))
            } else {
                None
            }
        },
        JsonValue::String(s) => Some(StoreValue::Text(s.clone())),
        JsonValue::Array(xs) => match encode_elements(xs) {
            Some(ys) => Some(StoreValue::Array(ys)),
            None => None,
        },
        JsonValue::Object(fs) => match encode_properties(fs) {
            Some(gs) => Some(StoreValue::Entity(Entity { key: None, properties: gs })),
            None => None,
        },
    }
}

/// Decodes a store value into a dynamic value; `None` when the value, or any
/// value nested in it, has no decoding.
pub fn from_datastore_value(v: &StoreValue) -> (r: Option<JsonValue>)
    ensures
        match r {
            Some(j) => decode(v@) == Some(j@),
            None => decode(v@) is None,
        },
    decreases v,
{
    match v {
        StoreValue::Null => Some(JsonValue::Null),
        StoreValue::Boolean(b) => Some(JsonValue::Bool(*b)),
        StoreValue::Integer(t) => match parse_u64(t.as_str()) {
            Some(u) => Some(JsonValue::Number(Number::PosInt(u))),
            None => match parse_i64(t.as_str()) {
                Some(i) => if i >= 0 {
                    Some(JsonValue::Number(Number::PosInt(i as u64)))
                } else {
                    Some(JsonValue::Number(Number::NegInt(i)))
                },
                None => None,
            },
        },
        StoreValue::Double(bits) => {
            if (*bits >> 52u64) & 0x7ffu64 != 0x7ffu64 {
                Some(JsonValue::Number(Number::Float(*bits)))
            } else {
                None
            }
        },
        StoreValue::Text(s) => Some(JsonValue::String(s.clone())),
        StoreValue::Array(xs) => match decode_elements(xs) {
            Some(ys) => Some(JsonValue::Array(ys)),
            None => None,
        },
        StoreValue::Entity(e) => from_datastore_entity(e),
        StoreValue::Unsupported(_) => None,
    }
}

/// Decodes an entity's properties into an object; the key is left out.
pub fn from_datastore_entity(e: &Entity) -> (r: Option<JsonValue>)
    ensures
        match r {
            Some(j) => decode(e@) == Some(j@),
            None => decode(e@) is None,
        },
    decreases e,
{
    match decode_properties(&e.properties) {
        Some(gs) => Some(JsonValue::Object(gs)),
        None => None,
    }
}

/// Encodes each element, or none.
fn encode_elements(xs: &Vec<JsonValue>) -> (r: Option<Vec<StoreValue>>)
    ensures
        match r {
            Some(ys) => encode_all(json_views(xs@)) == Some(store_views(ys@)),
            None => encode_all(json_views(xs@)) is None,
        },
    decreases xs,

{
    let mut out: Vec<StoreValue> = Vec::new();
    let mut i: usize = 0;
    while i < xs.len()
        invariant
            i <= xs.len(),
            out@.len() == i,
            forall|k: int| 0 <= k < i ==> #[trigger] encode(json_view(xs@[k])) == Some(store_view(out@[k])),
            
        decreases xs.len() - i,
    {
        match to_datastore_value(&xs[i]) {
            Some(y) => {
                out.push(y);
            },
            None => {
                proof {
                    lemma_json_views(xs@);
                    lemma_encode_all(json_views(xs@));
                    assert(encode(json_views(xs@)[i as int]) is None);
                }
                return None;
            },
        }
        i = i + 1;
    }
    proof {
        lemma_json_views(xs@);
        lemma_store_views(out@);
        lemma_encode_all(json_views(xs@));
        assert(store_views(out@) =~= encode_all(json_views(xs@))->0);
    }
    Some(out)
}

/// Encodes each property value, keeping the keys, or none.
fn encode_properties(xs: &Vec<(String, JsonValue)>) -> (r: Option<Vec<(String, StoreValue)>>)
    ensures
        match r {
            Some(ys) => encode_fields(json_field_views(xs@)) == Some(store_field_views(ys@)),
            None => encode_fields(json_field_views(xs@)) is None,
        },
    decreases xs,

{
    let mut out: Vec<(String, StoreValue)> = Vec::new();
    let mut i: usize = 0;
    while i < xs.len()
        invariant
            i <= xs.len(),
            out@.len() == i,
            forall|k: int| 0 <= k < i ==> #[trigger] encode(json_view(xs@[k].1)) == Some(store_view(out@[k].1)),
            forall|k: int| 0 <= k < i ==> #[trigger] out@[k].0@ == xs@[k].0@,
        decreases xs.len() - i,
    {
        match to_datastore_value(&xs[i].1) {
            Some(y) => {
                out.push((xs[i].0.clone(), y));
            },
            None => {
                proof {
                    lemma_json_field_views(xs@);
                    lemma_encode_fields(json_field_views(xs@));
                    assert(encode(json_field_views(xs@)[i as int].1) is None);
                }
                return None;
            },
        }
        i = i + 1;
    }
    proof {
        lemma_json_field_views(xs@);
        lemma_store_field_views(out@);
        lemma_encode_fields(json_field_views(xs@));
        assert(store_field_views(out@) =~= encode_fields(json_field_views(xs@))->0);
    }
    Some(out)
}

/// Decodes each element, or none.
fn decode_elements(xs: &Vec<StoreValue>) -> (r: Option<Vec<JsonValue>>)
    ensures
        match r {
            Some(ys) => decode_all(store_views(xs@)) == Some(json_views(ys@)),
            None => decode_all(store_views(xs@)) is None,
        },
    decreases xs,

{
    let mut out: Vec<JsonValue> = Vec::new();
    let mut i: usize = 0;
    while i < xs.len()
        invariant
            i <= xs.len(),
            out@.len() == i,
            forall|k: int| 0 <= k < i ==> #[trigger] decode(store_view(xs@[k])) == Some(json_view(out@[k])),
            
        decreases xs.len() - i,
    {
        match from_datastore_value(&xs[i]) {
            Some(y) => {
                out.push(y);
            },
            None => {
                proof {
                    lemma_store_views(xs@);
                    lemma_decode_all(store_views(xs@));
                    assert(decode(store_views(xs@)[i as int]) is None);
                }
                return None;
            },
        }
        i = i + 1;
    }
    proof {
        lemma_store_views(xs@);
        lemma_json_views(out@);
        lemma_decode_all(store_views(xs@));
        assert(json_views(out@) =~= decode_all(store_views(xs@))->0);
    }
    Some(out)
}

/// Decodes each property value, keeping the names, or none.
fn decode_properties(xs: &Vec<(String, StoreValue)>) -> (r: Option<Vec<(String, JsonValue)>>)
    ensures
        match r {
            Some(ys) => decode_fields(store_field_views(xs@)) == Some(json_field_views(ys@)),
            None => decode_fields(store_field_views(xs@)) is None,
        },
    decreases xs,

{
    let mut out: Vec<(String, JsonValue)> = Vec::new();
    let mut i: usize = 0;
    while i < xs.len()
        invariant
            i <= xs.len(),
            out@.len() == i,
            forall|k: int| 0 <= k < i ==> #[trigger] decode(store_view(xs@[k].1)) == Some(json_view(out@[k].1)),
            forall|k: int| 0 <= k < i ==> #[trigger] out@[k].0@ == xs@[k].0@,
        decreases xs.len() - i,
    {
        match from_datastore_value(&xs[i].1) {
            Some(y) => {
                out.push((xs[i].0.clone(), y));
            },
            None => {
                proof {
                    lemma_store_field_views(xs@);
                    lemma_decode_fields(store_field_views(xs@));
                    assert(decode(store_field_views(xs@)[i as int].1) is None);
                }
                return None;
            },
        }
        i = i + 1;
    }
    proof {
        lemma_store_field_views(xs@);
        lemma_json_field_views(out@);
        lemma_decode_fields(store_field_views(xs@));
        assert(json_field_views(out@) =~= decode_fields(store_field_views(xs@))->0);
    }
    Some(out)
}


/// A number of the dynamic model as serialisation produces it: a negative
/// integer is below zero, and a double is finite.
pub open spec fn number_wf(n: Number) -> bool {
    match n {
        Number::PosInt(_) => true,
        Number::NegInt(i) => i < 0,
        Number::Float(bits) => is_finite_bits(bits),
    }
}

/// Every number nested in the value is well formed.
pub open spec fn json_wf(j: Json) -> bool
    decreases j,
{
    match j {
        Json::Num(n) => number_wf(n),
        Json::Array(xs) => forall|i: int| 0 <= i < xs.len() ==> json_wf(#[trigger] xs[i]),
        Json::Object(fs) => forall|i: int| 0 <= i < fs.len() ==> json_wf(#[trigger] fs[i].1),
        _ => true,
    }
}

/// Round trip: every well-formed dynamic value encodes, and decoding its
/// encoding gives back the same value.
pub proof fn lemma_round_trip(j: Json)
    requires
        json_wf(j),
    ensures
        encode(j) is Some,
        decode(encode(j)->0) == Some(j),
    decreases j,
{
    match j {
        Json::Num(n) => match n {
            Number::PosInt(u) => lemma_u64_text_round_trip(u),
            Number::NegInt(i) => lemma_negative_text_round_trip(i),
            Number::Float(_) => {},
        },
        Json::Array(xs) => {
            assert forall|i: int| 0 <= i < xs.len() implies #[trigger] encode(xs[i]) is Some
                && decode(encode(xs[i])->0) == Some(xs[i]) by {
                lemma_round_trip(xs[i]);
            }
            lemma_encode_all(xs);
            let ys = encode_all(xs)->0;
            lemma_decode_all(ys);
            assert(decode_all(ys)->0 =~= xs);
        },
        Json::Object(fs) => {
            assert forall|i: int| 0 <= i < fs.len() implies #[trigger] encode(fs[i].1) is Some
                && decode(encode(fs[i].1)->0) == Some(fs[i].1) by {
                lemma_round_trip(fs[i].1);
            }
            lemma_encode_fields(fs);
            let gs = encode_fields(fs)->0;
            lemma_decode_fields(gs);
            assert forall|i: int| 0 <= i < fs.len() implies #[trigger] decode_fields(gs)->0[i] == fs[i] by {
                assert(gs[i] == (fs[i].0, encode(fs[i].1)->0));
            }
            assert(decode_fields(gs)->0 =~= fs);
        },
        _ => {},
    }
}

/// A container encodes exactly when each of its elements does: one element
/// without an encoding fails the whole array or object.
pub proof fn lemma_encode_all_or_nothing(xs: Seq<Json>, fs: Seq<(Seq<char>, Json)>)
    ensures
        encode(Json::Array(xs)) is Some <==> forall|i: int|
            0 <= i < xs.len() ==> #[trigger] encode(xs[i]) is Some,
        encode(Json::Object(fs)) is Some <==> forall|i: int|
            0 <= i < fs.len() ==> #[trigger] encode(fs[i].1) is Some,
{
    lemma_encode_all(xs);
    lemma_encode_fields(fs);
}

/// A container decodes exactly when each of its elements does: one element
/// without a decoding fails the whole array or entity.
pub proof fn lemma_decode_all_or_nothing(
    xs: Seq<Store>,
    key: Option<(Seq<char>, Seq<char>)>,
    fs: Seq<(Seq<char>, Store)>,
)
    ensures
        decode(Store::Array(xs)) is Some <==> forall|i: int|
            0 <= i < xs.len() ==> #[trigger] decode(xs[i]) is Some,
        decode(Store::Entity(key, fs)) is Some <==> forall|i: int|
            0 <= i < fs.len() ==> #[trigger] decode(fs[i].1) is Some,
{
    lemma_decode_all(xs);
    lemma_decode_fields(fs);
}

/// Empty containers convert, both ways, to empty containers.
pub proof fn lemma_empty_containers(key: Option<(Seq<char>, Seq<char>)>)
    ensures
        encode(Json::Array(Seq::empty())) == Some(Store::Array(Seq::empty())),
        encode(Json::Object(Seq::empty())) == Some(Store::Entity(None, Seq::empty())),
        decode(Store::Array(Seq::empty())) == Some(Json::Array(Seq::empty())),
        decode(Store::Entity(key, Seq::empty())) == Some(Json::Object(Seq::empty())),
{
}

} // verus!
