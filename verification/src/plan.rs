//! Decisions around one table's extraction: which strategy to use, the
//! key partitions of a parallel extraction, the Parquet writer settings
//! and progress reporting.

use vstd::prelude::*;
use crate::metadata::{PrimaryKeyInfo, TableMetadata};
use crate::partition::{partition_at, partition_bounds, starts_fit};

verus! {

/// How a table is extracted.
#[derive(Clone, Copy, Debug, PartialEq, Eq, Structural)]
pub enum ExtractionPlan {
    /// The table is empty: nothing is written.
    Skip,
    /// The table has a numeric primary key: its key range is split into
    /// partitions fetched in parallel.
    Parallel,
    /// The table has no usable key: it is paged through in one stream.
    Sequential,
}

/// The plan for a table: skip it when its row count is zero, else extract
/// it in parallel when it has a key and sequentially otherwise.
pub open spec fn plan_for(row_count: i64, has_key: bool) -> ExtractionPlan {
    if row_count == 0 {
        ExtractionPlan::Skip
    } else if has_key {
        ExtractionPlan::Parallel
    } else {
        ExtractionPlan::Sequential
    }
}

/// Chooses how to extract a table.
pub fn plan_extraction(meta: &TableMetadata) -> (p: ExtractionPlan)
    ensures
        p == plan_for(meta.row_count, meta.pk is Some),
        p == ExtractionPlan::Skip <==> meta.row_count == 0,
        p == ExtractionPlan::Parallel <==> (meta.row_count != 0 && meta.pk is Some),
        p == ExtractionPlan::Sequential <==> (meta.row_count != 0 && meta.pk is None),
{
    if meta.row_count == 0 {
        ExtractionPlan::Skip
    } else if meta.pk.is_some() {
        ExtractionPlan::Parallel
    } else {
        ExtractionPlan::Sequential
    }
}

/// The key partitions of a parallel extraction: the range from the key's
/// smallest to its largest value, cut at the given offsets from the
/// smallest value.
pub fn key_partitions(pk: &PrimaryKeyInfo, offsets: &Vec<i64>) -> (parts: Vec<(i64, i64)>)
    requires
        pk.min_values@.len() > 0,
        pk.max_values@.len() > 0,
        starts_fit(pk.min_values@[0], offsets@),
    ensures
        parts@.len() == offsets@.len(),
        forall|i: int| 0 <= i < parts@.len() ==>
            (#[trigger] parts@[i].0 as int, parts@[i].1 as int)
                == partition_at(pk.min_values@[0], pk.max_values@[0], offsets@, i),
{
    partition_bounds(pk.min_values[0], pk.max_values[0], offsets)
}

/// The compression of the written Parquet file.
#[derive(Clone, Copy, Debug, PartialEq, Eq, Structural)]
pub enum Compression {
    Snappy,
    Uncompressed,
}

/// The layout of Parquet data pages.
#[derive(Clone, Copy, Debug, PartialEq, Eq, Structural)]
pub enum DataPageVersion {
    V1,
    V2,
}

/// The settings of the Parquet writer.
#[derive(Clone, Copy, Debug, PartialEq, Eq, Structural)]
pub struct WriterSettings {
    pub compression: Compression,
    pub data_page_version: DataPageVersion,
    pub dictionary_enabled: bool,
    pub write_batch_size: usize,
    pub max_row_group_size: usize,
}

/// The writer settings: Snappy compression when compression is asked for
/// and none otherwise, version 2 data pages, dictionary encoding on, 500,000 rows per write batch
/// and at most 1,000,000 rows per row group.
pub open spec fn settings_for(use_compression: bool) -> WriterSettings {
    WriterSettings {
        compression: if use_compression { Compression::Snappy } else { Compression::Uncompressed },
        data_page_version: DataPageVersion::V2,
        dictionary_enabled: true,
        write_batch_size: 500_000,
        max_row_group_size: 1_000_000,
    }
}

/// Chooses the Parquet writer settings.
pub fn writer_settings(use_compression: bool) -> (s: WriterSettings)
    ensures
        s == settings_for(use_compression),
        s.compression == (if use_compression { Compression::Snappy } else { Compression::Uncompressed }),
        s.data_page_version == DataPageVersion::V2,
        s.dictionary_enabled,
        s.write_batch_size == 500_000,
        s.max_row_group_size == 1_000_000,
{
    WriterSettings {
        compression: if use_compression { Compression::Snappy } else { Compression::Uncompressed },
        data_page_version: DataPageVersion::V2,
        dictionary_enabled: true,
        write_batch_size: 500_000,
        max_row_group_size: 1_000_000,
    }
}

/// Rows between two progress reports of a sequential extraction.
pub const PROGRESS_INTERVAL: usize = 500_000;

/// Whether the running total of extracted rows calls for a progress
/// report: it does when the total is a multiple of 500,000.
pub fn progress_due(total_rows: usize) -> (b: bool)
    ensures
        b == (total_rows % PROGRESS_INTERVAL == 0),
        b == (total_rows % 500_000 == 0),
{
    total_rows % PROGRESS_INTERVAL == 0
}

/// The running total after a batch of `batch_rows` rows.
pub fn add_batch_rows(total_rows: usize, batch_rows: usize) -> (t: usize)
    requires
        total_rows + batch_rows <= usize::MAX,
    ensures
        t == total_rows + batch_rows,
{
    total_rows + batch_rows
}

/// An empty table is skipped whether or not it has a key, and a non-empty
/// table is extracted in parallel exactly when it has a key.
pub proof fn plan_depends_on_size_and_key(row_count: i64, has_key: bool)
    ensures
        row_count == 0 ==> plan_for(row_count, has_key) == ExtractionPlan::Skip,
        row_count != 0 ==> (plan_for(row_count, has_key) == ExtractionPlan::Parallel <==> has_key),
{
}

} // verus!
