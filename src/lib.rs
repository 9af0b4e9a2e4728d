//! Typed record access to a remote key-value store: a verified converter between
//! dynamic values and the store's typed values, the request and response logic of
//! an entity client, and the decisions of the authentication chain.
pub mod decimal;
pub mod value;
pub mod convert;
pub mod auth;
pub mod db;
pub mod wire;
