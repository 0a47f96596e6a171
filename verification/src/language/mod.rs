//! Source texts and positions in them.
pub mod location;
pub mod source;
