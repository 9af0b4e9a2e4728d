//! The entity client's logic: the requests that each operation sends, and how
//! each response becomes a result. Sending them is the transport's work.
use vstd::prelude::*;
use crate::convert::{encode, decode, to_datastore_value, from_datastore_entity};
use crate::value::{Entity, JsonValue, Key, Store, StoreValue};

verus! {

/// What a record type tells the client: the kind shared by all its records,
/// and the name of one record.
pub trait EntityKey {
    fn entity_kind_key() -> String;

    fn entity_name_key(&self) -> String;
}

/// The failures of the client's operations; `E` is the transport's error.
#[derive(Debug)]
pub enum Error<E> {
    /// The record could not be encoded as an entity.
    Serialization { msg: String },
    /// The stored entity could not be decoded.
    Deserialization { msg: String },
    /// The transport or the store refused the request.
    DatabaseResponse(E),
    /// The lookup found no entity.
    NoPayload,
}

#[derive(Clone, Copy, Debug, PartialEq, Eq, Structural)]
pub enum WriteOp {
    /// Fails remotely when the key exists.
    Insert,
    /// Writes whether or not the key exists.
    Upsert,
    /// Fails remotely when the key does not exist.
    Update,
}

#[derive(Debug)]
pub enum Mutation {
    Write(WriteOp, Entity),
    Delete(Key),
}

#[derive(Clone, Copy, Debug, PartialEq, Eq, Structural)]
pub enum CommitMode {
    Transactional,
    NonTransactional,
}

/// A commit of mutations.
#[derive(Debug)]
pub struct CommitRequest {
    pub mutations: Vec<Mutation>,
    pub mode: CommitMode,
}

/// A lookup of entities by key.
#[derive(Debug)]
pub struct LookupRequest {
    pub keys: Vec<Key>,
}

pub open spec fn key_is(k: Key, kind: Seq<char>, name: Seq<char>) -> bool {
    k.kind@ == kind && k.name@ == name
}

/// A non-transactional commit of exactly one mutation.
pub open spec fn single_commit(req: CommitRequest) -> bool {
    req.mode == CommitMode::NonTransactional && req.mutations@.len() == 1
}

/// A single commit that writes one entity under `kind`/`name` with these properties.
pub open spec fn writes(
    req: CommitRequest,
    op: WriteOp,
    kind: Seq<char>,
    name: Seq<char>,
    props: Seq<(Seq<char>, Store)>,
) -> bool {
    &&& single_commit(req)
    &&& req.mutations@[0] matches Mutation::Write(o, e)
    &&& o == op
    &&& e@ == Store::Entity(Some((kind, name)), props)
}

fn make_key(kind: &str, name: &str) -> (r: Key)
    ensures
        key_is(r, kind@, name@),
{
    Key { kind: kind.to_owned(), name: name.to_owned() }
}

/// The commit that writes `record` as the entity `kind`/`name`: one mutation
/// of the given kind, non-transactional. Fails, before anything is sent, when
/// the record does not encode as an entity.
pub fn write_request<E>(op: WriteOp, kind: &str, name: &str, record: &JsonValue) -> (r: Result<
    CommitRequest,
    Error<E>,
>)
    ensures
        match encode(record@) {
            Some(Store::Entity(_, props)) => r matches Ok(req) && writes(req, op, kind@, name@, props),
            _ => r matches Err(Error::Serialization { .. }),
        },
{
    match to_datastore_value(record) {
        Some(StoreValue::Entity(e)) => {
            let entity = Entity { key: Some(make_key(kind, name)), properties: e.properties };
            Ok(
                CommitRequest {
                    mutations: vec![Mutation::Write(op, entity)],
                    mode: CommitMode::NonTransactional,
                },
            )
        },
        _ => Err(Error::Serialization { msg: "expecting struct/map like input".to_owned() }),
    }
}

/// The commit that deletes the entity `kind`/`name`: one mutation, non-transactional.
pub fn delete_request(kind: &str, name: &str) -> (r: CommitRequest)
    ensures
        single_commit(r),
        r.mutations@[0] matches Mutation::Delete(k) && key_is(k, kind@, name@),
{
    CommitRequest {
        mutations: vec![Mutation::Delete(make_key(kind, name))],
        mode: CommitMode::NonTransactional,
    }
}

/// The lookup of the single key `kind`/`name`.
pub fn lookup_request(kind: &str, name: &str) -> (r: LookupRequest)
    ensures
        r.keys@.len() == 1,
        key_is(r.keys@[0], kind@, name@),
{
    LookupRequest { keys: vec![make_key(kind, name)] }
}

/// The result of a commit: a transport failure is passed on as it came.
pub fn commit_outcome<E>(response: Result<(), E>) -> (r: Result<(), Error<E>>)
    ensures
        match response {
            Ok(()) => r is Ok,
            Err(e) => r == Err::<(), Error<E>>(Error::DatabaseResponse(e)),
        },
{
    match response {
        Ok(()) => Ok(()),
        Err(e) => Err(Error::DatabaseResponse(e)),
    }
}

/// The result of a lookup, given what the store found (one slot per result,
/// holding its entity if it came with one): the first entity, decoded. No
/// entity is its own failure, distinct from a transport failure and from a
/// payload that does not decode.
pub fn lookup_outcome<E>(response: Result<Vec<Option<Entity>>, E>) -> (r: Result<JsonValue, Error<E>>)
    ensures
        match response {
            Err(e) => r == Err::<JsonValue, Error<E>>(Error::DatabaseResponse(e)),
            Ok(found) => if found@.len() == 0 || found@[0] is None {
                r matches Err(Error::NoPayload)
            } else {
                match decode(found@[0]->0@) {
                    Some(j) => r matches Ok(v) && v@ == j,
                    None => r matches Err(Error::Deserialization { .. }),
                }
            },
        },
{
    match response {
        Err(e) => Err(Error::DatabaseResponse(e)),
        Ok(found) => {
            if found.len() == 0 {
                return Err(Error::NoPayload);
            }
            match &found[0] {
                None => Err(Error::NoPayload),
                Some(e) => match from_datastore_entity(e) {
                    Some(v) => Ok(v),
                    None => Err(
                        Error::Deserialization { msg: "conversion or parser error".to_owned() },
                    ),
                },
            }
        },
    }
}

} // verus!
