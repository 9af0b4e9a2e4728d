use ddb::value::Unsupported;
use ddb::wire::{fields_for, wire_kind, WireFields, WireKind};

fn none() -> WireFields {
    WireFields {
        entity: false,
        timestamp: false,
        geo_point: false,
        blob: false,
        double: false,
        meaning: false,
        exclude_from_indexes: false,
        string: false,
        key: false,
        boolean: false,
        array: false,
        integer: false,
        null: false,
    }
}

#[test]
fn no_field_reads_as_null() {
    assert_eq!(wire_kind(&none()), WireKind::Null);
}

#[test]
fn entity_field_comes_first() {
    let f = WireFields { entity: true, string: true, integer: true, ..none() };
    assert_eq!(wire_kind(&f), WireKind::Entity);
}

#[test]
fn double_before_string_before_integer() {
    let f = WireFields { double: true, string: true, integer: true, ..none() };
    assert_eq!(wire_kind(&f), WireKind::Double);
    let f = WireFields { string: true, integer: true, ..none() };
    assert_eq!(wire_kind(&f), WireKind::String);
}

#[test]
fn timestamp_reads_as_unsupported() {
    let f = WireFields { timestamp: true, ..none() };
    assert_eq!(wire_kind(&f), WireKind::Unsupported(Unsupported::Timestamp));
}

#[test]
fn written_fields_read_back() {
    for k in [
        WireKind::Entity,
        WireKind::Double,
        WireKind::String,
        WireKind::Boolean,
        WireKind::Array,
        WireKind::Integer,
        WireKind::Null,
    ] {
        let f = fields_for(k);
        assert_eq!(wire_kind(&f), k);
    }
    assert_eq!(fields_for(WireKind::Boolean), WireFields { boolean: true, ..none() });
}
