//! The two value models: the dynamic, self-describing value that records are
//! serialised into, and the store's typed value. Each exec type has a view into a
//! mathematical model, over which the conversion rules are stated.
use vstd::prelude::*;

verus! {

broadcast use vstd::std_specs::vec::group_vec_axioms;

/// A number of the dynamic model: a non-negative integer, a negative integer, or
/// a double given by its IEEE 754 bit pattern.
#[derive(Clone, Copy, Debug, PartialEq, Eq, Structural)]
pub enum Number {
    PosInt(u64),
    NegInt(i64),
    Float(u64),
}

/// The dynamic value. An object is a list of (key, value) pairs.
#[derive(Debug)]
pub enum JsonValue {
    Null,
    Bool(bool),
    Number(Number),
    String(String),
    Array(Vec<JsonValue>),
    Object(Vec<(String, JsonValue)>),
}

/// Identifies a record in the store: its kind and its name.
#[derive(Debug)]
pub struct Key {
    pub kind: String,
    pub name: String,
}

/// A record of the store: its properties, and the key that the client attaches.
#[derive(Debug)]
pub struct Entity {
    pub key: Option<Key>,
    pub properties: Vec<(String, StoreValue)>,
}

/// The store's value kinds that this library does not convert.
#[derive(Clone, Copy, Debug, PartialEq, Eq, Structural)]
pub enum Unsupported {
    Timestamp,
    GeoPoint,
    Blob,
    KeyReference,
    Meaning,
    ExcludeFromIndexes,
}

/// The store's typed value: exactly one kind per value. An integer is held as
/// its decimal text, a double as its bit pattern.
#[derive(Debug)]
pub enum StoreValue {
    Null,
    Boolean(bool),
    Integer(String),
    Double(u64),
    Text(String),
    Array(Vec<StoreValue>),
    Entity(Entity),
    Unsupported(Unsupported),
}

/// Model of a dynamic value.
pub enum Json {
    Null,
    Bool(bool),
    Num(Number),
    Str(Seq<char>),
    Array(Seq<Json>),
    Object(Seq<(Seq<char>, Json)>),
}

/// Model of a store value. An entity's key is a (kind, name) pair.
pub enum Store {
    Null,
    Boolean(bool),
    Integer(Seq<char>),
    Double(u64),
    Text(Seq<char>),
    Array(Seq<Store>),
    Entity(Option<(Seq<char>, Seq<char>)>, Seq<(Seq<char>, Store)>),
    Unsupported,
}

pub open spec fn json_view(v: JsonValue) -> Json
    decreases v,
{
    match v {
        JsonValue::Null => Json::Null,
        JsonValue::Bool(b) => Json::Bool(b),
        JsonValue::Number(n) => Json::Num(n),
        JsonValue::String(s) => Json::Str(s@),
        JsonValue::Array(xs) => Json::Array(json_views(xs@)),
        JsonValue::Object(xs) => Json::Object(json_field_views(xs@)),
    }
}

pub open spec fn json_views(xs: Seq<JsonValue>) -> Seq<Json>
    decreases xs,
{
    if xs.len() == 0 {
        Seq::empty()
    } else {
        json_views(xs.drop_last()).push(json_view(xs[xs.len() - 1]))
    }
}

pub open spec fn json_field_views(xs: Seq<(String, JsonValue)>) -> Seq<(Seq<char>, Json)>
    decreases xs,
{
    if xs.len() == 0 {
        Seq::empty()
    } else {
        json_field_views(xs.drop_last()).push(
            (xs[xs.len() - 1].0@, json_view(xs[xs.len() - 1].1)),
        )
    }
}

impl View for JsonValue {
    type V = Json;

    open spec fn view(&self) -> Json {
        json_view(*self)
    }
}

pub open spec fn key_view(k: Option<Key>) -> Option<(Seq<char>, Seq<char>)> {
    match k {
        Some(k) => Some((k.kind@, k.name@)),
        None => None,
    }
}

pub open spec fn store_view(v: StoreValue) -> Store
    decreases v,
{
    match v {
        StoreValue::Null => Store::Null,
        StoreValue::Boolean(b) => Store::Boolean(b),
        StoreValue::Integer(s) => Store::Integer(s@),
        StoreValue::Double(bits) => Store::Double(bits),
        StoreValue::Text(s) => Store::Text(s@),
        StoreValue::Array(xs) => Store::Array(store_views(xs@)),
        StoreValue::Entity(e) => Store::Entity(key_view(e.key), store_field_views(e.properties@)),
        StoreValue::Unsupported(_) => Store::Unsupported,
    }
}

pub open spec fn store_views(xs: Seq<StoreValue>) -> Seq<Store>
    decreases xs,
{
    if xs.len() == 0 {
        Seq::empty()
    } else {
        store_views(xs.drop_last()).push(store_view(xs[xs.len() - 1]))
    }
}

pub open spec fn store_field_views(xs: Seq<(String, StoreValue)>) -> Seq<(Seq<char>, Store)>
    decreases xs,
{
    if xs.len() == 0 {
        Seq::empty()
    } else {
        store_field_views(xs.drop_last()).push(
            (xs[xs.len() - 1].0@, store_view(xs[xs.len() - 1].1)),
        )
    }
}

impl View for StoreValue {
    type V = Store;

    open spec fn view(&self) -> Store {
        store_view(*self)
    }
}

impl View for Entity {
    type V = Store;

    /// An entity seen as the store value that holds it.
    open spec fn view(&self) -> Store {
        Store::Entity(key_view(self.key), store_field_views(self.properties@))
    }
}

pub proof fn lemma_json_views(xs: Seq<JsonValue>)
    ensures
        json_views(xs).len() == xs.len(),
        forall|i: int| 0 <= i < xs.len() ==> #[trigger] json_views(xs)[i] == json_view(xs[i]),
    decreases xs.len(),
{
    if xs.len() > 0 {
        lemma_json_views(xs.drop_last());
    }
}

pub proof fn lemma_json_field_views(xs: Seq<(String, JsonValue)>)
    ensures
        json_field_views(xs).len() == xs.len(),
        forall|i: int|
            0 <= i < xs.len() ==> #[trigger] json_field_views(xs)[i] == (xs[i].0@, json_view(xs[i].1)),
    decreases xs.len(),
{
    if xs.len() > 0 {
        lemma_json_field_views(xs.drop_last());
    }
}

pub proof fn lemma_store_views(xs: Seq<StoreValue>)
    ensures
        store_views(xs).len() == xs.len(),
        forall|i: int| 0 <= i < xs.len() ==> #[trigger] store_views(xs)[i] == store_view(xs[i]),
    decreases xs.len(),
{
    if xs.len() > 0 {
        lemma_store_views(xs.drop_last());
    }
}

pub proof fn lemma_store_field_views(xs: Seq<(String, StoreValue)>)
    ensures
        store_field_views(xs).len() == xs.len(),
        forall|i: int|
            0 <= i < xs.len() ==> #[trigger] store_field_views(xs)[i] == (xs[i].0@, store_view(xs[i].1)),
    decreases xs.len(),
{
    if xs.len() > 0 {
        lemma_store_field_views(xs.drop_last());
    }
}

} // verus!
