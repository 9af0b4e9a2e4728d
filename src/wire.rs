//! The store's wire shape of a value has one optional field per kind. A value
//! written by this library fills exactly one; a value read back is taken by the
//! first filled field in a fixed order, and one with no field filled is null.
use vstd::prelude::*;
use crate::value::Unsupported;

verus! {

/// Which fields of a wire value are filled.
#[derive(Clone, Copy, Debug, PartialEq, Eq, Structural)]
pub struct WireFields {
    pub entity: bool,
    pub timestamp: bool,
    pub geo_point: bool,
    pub blob: bool,
    pub double: bool,
    pub meaning: bool,
    pub exclude_from_indexes: bool,
    pub string: bool,
    pub key: bool,
    pub boolean: bool,
    pub array: bool,
    pub integer: bool,
    pub null: bool,
}

/// The kind that a wire value is read as.
#[derive(Clone, Copy, Debug, PartialEq, Eq, Structural)]
pub enum WireKind {
    Entity,
    Double,
    String,
    Boolean,
    Array,
    Integer,
    Null,
    Unsupported(Unsupported),
}

/// The first filled field, in the order the store's fields are read.
pub open spec fn kind_of(f: WireFields) -> WireKind {
    if f.entity {
        WireKind::Entity
    } else if f.timestamp {
        WireKind::Unsupported(Unsupported::Timestamp)
    } else if f.geo_point {
        WireKind::Unsupported(Unsupported::GeoPoint)
    } else if f.blob {
        WireKind::Unsupported(Unsupported::Blob)
    } else if f.double {
        WireKind::Double
    } else if f.meaning {
        WireKind::Unsupported(Unsupported::Meaning)
    } else if f.exclude_from_indexes {
        WireKind::Unsupported(Unsupported::ExcludeFromIndexes)
    } else if f.string {
        WireKind::String
    } else if f.key {
        WireKind::Unsupported(Unsupported::KeyReference)
    } else if f.boolean {
        WireKind::Boolean
    } else if f.array {
        WireKind::Array
    } else if f.integer {
        WireKind::Integer
    } else {
        WireKind::Null
    }
}

/// The number of filled fields.
pub open spec fn filled_count(f: WireFields) -> nat {
    (if f.entity { 1nat } else { 0nat }) + (if f.timestamp { 1nat } else { 0nat }) + (if f.geo_point {
        1nat
    } else {
        0nat
    }) + (if f.blob { 1nat } else { 0nat }) + (if f.double { 1nat } else { 0nat }) + (if f.meaning {
        1nat
    } else {
        0nat
    }) + (if f.exclude_from_indexes { 1nat } else { 0nat }) + (if f.string { 1nat } else { 0nat })
        + (if f.key { 1nat } else { 0nat }) + (if f.boolean { 1nat } else { 0nat }) + (if f.array {
        1nat
    } else {
        0nat
    }) + (if f.integer { 1nat } else { 0nat }) + (if f.null { 1nat } else { 0nat })
}

/// The kind that a wire value with these fields is read as.
pub fn wire_kind(f: &WireFields) -> (r: WireKind)
    ensures
        r == kind_of(*f),
{
    if f.entity {
        WireKind::Entity
    } else if f.timestamp {
        WireKind::Unsupported(Unsupported::Timestamp)
    } else if f.geo_point {
        WireKind::Unsupported(Unsupported::GeoPoint)
    } else if f.blob {
        WireKind::Unsupported(Unsupported::Blob)
    } else if f.double {
        WireKind::Double
    } else if f.meaning {
        WireKind::Unsupported(Unsupported::Meaning)
    } else if f.exclude_from_indexes {
        WireKind::Unsupported(Unsupported::ExcludeFromIndexes)
    } else if f.string {
        WireKind::String
    } else if f.key {
        WireKind::Unsupported(Unsupported::KeyReference)
    } else if f.boolean {
        WireKind::Boolean
    } else if f.array {
        WireKind::Array
    } else if f.integer {
        WireKind::Integer
    } else {
        WireKind::Null
    }
}

/// The fields that writing a value of kind `k` fills: that kind's field alone.
pub fn fields_for(k: WireKind) -> (r: WireFields)
    ensures
        filled_count(r) == 1,
        kind_of(r) == k,
{
    let none = WireFields {
        entity: false,
        timestamp: false,
        geo_point: false,
        blob: false,
        double: false,
        meaning: false,
        exclude_from_indexes: false,
        string: false,
        key: false,
        boolean: false,
        array: false,
        integer: false,
        null: false,
    };
    match k {
        WireKind::Entity => WireFields { entity: true, ..none },
        WireKind::Double => WireFields { double: true, ..none },
        WireKind::String => WireFields { string: true, ..none },
        WireKind::Boolean => WireFields { boolean: true, ..none },
        WireKind::Array => WireFields { array: true, ..none },
        WireKind::Integer => WireFields { integer: true, ..none },
        WireKind::Null => WireFields { null: true, ..none },
        WireKind::Unsupported(Unsupported::Timestamp) => WireFields { timestamp: true, ..none },
        WireKind::Unsupported(Unsupported::GeoPoint) => WireFields { geo_point: true, ..none },
        WireKind::Unsupported(Unsupported::Blob) => WireFields { blob: true, ..none },
        WireKind::Unsupported(Unsupported::KeyReference) => WireFields { key: true, ..none },
        WireKind::Unsupported(Unsupported::Meaning) => WireFields { meaning: true, ..none },
        WireKind::Unsupported(Unsupported::ExcludeFromIndexes) => WireFields {
            exclude_from_indexes: true,
            ..none
        },
    }
}

} // verus!
