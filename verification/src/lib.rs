//! graphql-tools
//! ==============
//!
//! Tooling around GraphQL documents: an owned GraphQL syntax tree, the
//! extension helpers over it, and the validation rules of the GraphQL
//! specification, each with a machine-checked contract.
pub mod static_graphql;
pub mod text;
pub mod ast;
pub mod parser;
pub mod validation;
pub mod introspection;
pub mod language;
pub mod utilities;
