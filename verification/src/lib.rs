//! Catalog and schema layer of a time-series database: column and value
//! types, table fields and table schemas, the columnar projection consumed
//! by a query engine, compact textual encodings for retention and precision
//! parameters, and per-database operational options.

pub mod config;
pub mod database;
pub mod field;
pub mod options;
pub mod schema;
pub mod text;
pub mod types;

pub use config::CacheConfig;
pub use config::Config;
pub use config::EnvOverrides;
pub use config::LogConfig;
pub use config::QueryConfig;
pub use config::SecurityConfig;
pub use config::StorageConfig;
pub use config::TLSConfig;
pub use config::WalConfig;
pub use database::DatabaseSchema;
pub use field::TableFiled;
pub use options::DatabaseOptions;
pub use options::Duration;
pub use options::DurationUnit;
pub use options::Precision;
pub use schema::ColumnarField;
pub use schema::ColumnarSchema;
pub use schema::CatalogIntegrityViolation;
pub use schema::TableSchema;
pub use types::ColumnType;
pub use types::NativeType;
pub use types::UnsupportedTypeError;
pub use types::ValueType;

use vstd::prelude::*;

verus! {

/// Stable numeric identifier of a column, persisted in encoded data blocks.
pub type SchemaFieldId = u64;

} // verus!
