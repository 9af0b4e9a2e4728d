use ddb::db::{
    commit_outcome, delete_request, lookup_outcome, lookup_request, write_request, CommitMode, Error,
    Mutation, WriteOp,
};
use ddb::value::{Entity, JsonValue, StoreValue, Unsupported};

fn text(s: &str) -> String {
    s.to_string()
}

fn todo(title: &str) -> JsonValue {
    JsonValue::Object(vec![
        (text("name"), JsonValue::String(text("abc"))),
        (text("title"), JsonValue::String(text(title))),
    ])
}

#[test]
fn upsert_request_holds_one_keyed_entity() {
    let req = write_request::<()>(WriteOp::Upsert, "Todo", "abc", &todo("x")).unwrap();
    assert_eq!(req.mode, CommitMode::NonTransactional);
    assert_eq!(req.mutations.len(), 1);
    match &req.mutations[0] {
        Mutation::Write(op, e) => {
            assert_eq!(*op, WriteOp::Upsert);
            let k = e.key.as_ref().unwrap();
            assert_eq!(k.kind, "Todo");
            assert_eq!(k.name, "abc");
            assert_eq!(e.properties.len(), 2);
            assert!(matches!(&e.properties[1].1, StoreValue::Text(t) if t == "x"));
        }
        other => panic!("unexpected {:?}", other),
    }
}

#[test]
fn insert_and_update_requests_keep_their_kind() {
    let req = write_request::<()>(WriteOp::Insert, "Todo", "abc", &todo("x")).unwrap();
    assert!(matches!(&req.mutations[0], Mutation::Write(WriteOp::Insert, _)));
    let req = write_request::<()>(WriteOp::Update, "Todo", "abc", &todo("x")).unwrap();
    assert!(matches!(&req.mutations[0], Mutation::Write(WriteOp::Update, _)));
}

#[test]
fn write_of_non_record_is_serialization_error() {
    let r = write_request::<()>(WriteOp::Upsert, "Todo", "abc", &JsonValue::String(text("x")));
    assert!(matches!(r, Err(Error::Serialization { .. })));
    let bad = JsonValue::Object(vec![(
        text("ratio"),
        JsonValue::Number(ddb::value::Number::Float(f64::NAN.to_bits())),
    )]);
    let r = write_request::<()>(WriteOp::Insert, "Todo", "abc", &bad);
    assert!(matches!(r, Err(Error::Serialization { .. })));
}

#[test]
fn delete_and_lookup_requests_name_one_key() {
    let req = delete_request("Todo", "abc");
    assert_eq!(req.mode, CommitMode::NonTransactional);
    assert_eq!(req.mutations.len(), 1);
    assert!(matches!(&req.mutations[0], Mutation::Delete(k) if k.kind == "Todo" && k.name == "abc"));
    let req = lookup_request("Todo", "abc");
    assert_eq!(req.keys.len(), 1);
    assert_eq!(req.keys[0].kind, "Todo");
    assert_eq!(req.keys[0].name, "abc");
}

#[test]
fn commit_failure_is_database_response() {
    assert!(matches!(commit_outcome::<String>(Ok(())), Ok(())));
    let r = commit_outcome(Err(text("entity already exists")));
    assert!(matches!(r, Err(Error::DatabaseResponse(ref e)) if e == "entity already exists"));
}

#[test]
fn lookup_without_entity_is_no_payload() {
    assert!(matches!(lookup_outcome::<()>(Ok(vec![])), Err(Error::NoPayload)));
    assert!(matches!(lookup_outcome::<()>(Ok(vec![None])), Err(Error::NoPayload)));
}

#[test]
fn lookup_decodes_first_entity() {
    let e = Entity { key: None, properties: vec![(text("title"), StoreValue::Text(text("x")))] };
    let r = lookup_outcome::<()>(Ok(vec![Some(e)])).unwrap();
    assert_eq!(
        format!("{:?}", r),
        format!("{:?}", JsonValue::Object(vec![(text("title"), JsonValue::String(text("x")))]))
    );
}

#[test]
fn lookup_of_undecodable_entity_is_deserialization_error() {
    let e = Entity {
        key: None,
        properties: vec![(text("pos"), StoreValue::Unsupported(Unsupported::GeoPoint))],
    };
    assert!(matches!(lookup_outcome::<()>(Ok(vec![Some(e)])), Err(Error::Deserialization { .. })));
}

#[test]
fn lookup_transport_failure_is_database_response() {
    let r = lookup_outcome::<u16>(Err(503));
    assert!(matches!(r, Err(Error::DatabaseResponse(503))));
}
