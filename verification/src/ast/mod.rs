//! The syntax tree helpers: extension traits, the traversal of operation
//! documents, and helpers over schemas.
pub mod ast_visitor;
pub mod collect_fields;
pub mod ext;
pub mod operation_visitor;
pub mod operation_walk;
pub mod query_visitor;
pub mod schema_visitor;
pub mod type_info;
pub mod utils;
