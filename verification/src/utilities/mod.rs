//! Utilities over schemas.
pub mod build_client_schema;

pub use self::build_client_schema::build_client_schema;
