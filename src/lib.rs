//! Metadata of the entries of a zip archive, laid out as one columnar table.

pub mod adapter;
pub mod laws;
pub mod meta;
pub mod table;
pub mod time;
