//! A read-only reader for the CLI metadata of a PE image: the tables, the
//! heaps, the references between rows, and the signatures held in blobs.
pub mod error;
pub mod engine;
pub mod schema;
pub mod cache;
pub mod laws;

pub use crate::cache::Cache;
pub use crate::engine::database::Database;
pub use crate::engine::database::Row;
pub use crate::engine::database::Table;
pub use crate::engine::database::TableRow;
pub use crate::engine::database::TableRowIterator;
pub use crate::engine::kinds::CodedIndexKind;
pub use crate::engine::kinds::TableId;
pub use crate::error::DecodeError;
pub use crate::error::DecodeErrorKind;
