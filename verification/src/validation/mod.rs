//! Validation of operation documents against a schema.
pub mod locate_fragments;
pub mod rules;
pub mod utils;
pub mod validate;
pub mod test_utils;
