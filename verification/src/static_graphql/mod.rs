//! The GraphQL syntax tree that the library works on: operation documents in
//! `query`, type system documents in `schema`, and the nodes that both share.
pub mod common;
pub mod query;
pub mod schema;
