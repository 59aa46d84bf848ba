//! Column introspection for a prepared statement: how many result columns
//! there are, what each is called, its declared type and its origin, and
//! which index a column name resolves to.
//!
//! Every view hands out text borrowed from the statement, so no view can be
//! kept across a call that prepares the statement again.

pub mod column;
pub mod error;
pub mod raw;
pub mod text;

pub use column::{Column, ColumnMetadata, Statement};
pub use error::Error;
pub use raw::{ColumnOrigin, RawColumn, RawStatement};
