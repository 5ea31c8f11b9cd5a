//! Verified planning and data-shaping core of a Firebird-to-Parquet table
//! extractor: column type mapping, adaptive batch sizing, key-range
//! partitioning and chunking, pagination, SQL text, row-to-column
//! conversion, the connection pool's bookkeeping and the metadata-loading
//! protocol.

pub mod text;
pub mod column_type;
pub mod batch;
pub mod pool;
pub mod partition;
pub mod metadata;
pub mod columns;
pub mod sql;
pub mod loader;
pub mod plan;
