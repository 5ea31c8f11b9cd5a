//! Adaptive batch sizing: how many rows go into one Arrow batch.

use vstd::prelude::*;

verus! {

/// The smallest batch size ever chosen.
pub const MIN_BATCH_SIZE: usize = 500_000;

/// The largest batch size ever chosen.
pub const MAX_BATCH_SIZE: usize = 1_000_000;

/// The base batch size for a table of `row_count` estimated rows.
pub open spec fn base_batch_size(row_count: i64) -> int {
    if row_count < 200_000 {
        250_000
    } else if row_count < 10_000_000 {
        500_000
    } else if row_count < 50_000_000 {
        750_000
    } else {
        1_000_000
    }
}

/// The batch size for a table: the base size, cut to two thirds (rounded
/// down) when the table has a text blob column, and then kept within
/// 500,000 to 1,000,000 rows.
pub open spec fn adaptive_batch_size(row_count: i64, has_blob: bool) -> int {
    let base = base_batch_size(row_count);
    let b = if has_blob { (base * 2) / 3 } else { base };
    if b < MIN_BATCH_SIZE { MIN_BATCH_SIZE as int } else if b > MAX_BATCH_SIZE { MAX_BATCH_SIZE as int } else { b }
}

/// Chooses the number of rows per batch from a table's size and contents.
pub struct AdaptiveBatchSizer {
    current_batch_size: usize,
}

impl AdaptiveBatchSizer {
    /// The batch size this sizer hands out.
    pub closed spec fn batch_size(&self) -> int {
        self.current_batch_size as int
    }

    /// A sizer for a table of `row_count` estimated rows, with or without a
    /// text blob column.
    pub fn new(row_count: i64, has_blob: bool) -> (s: Self)
        ensures
            s.batch_size() == adaptive_batch_size(row_count, has_blob),
            500_000 <= s.batch_size() <= 1_000_000,
    {
        let base_batch: usize = if row_count < 200_000 {
            250_000
        } else if row_count < 10_000_000 {
            500_000
        } else if row_count < 50_000_000 {
            750_000
        } else {
            1_000_000
        };
        let mut batch: usize = base_batch;
        if has_blob {
            batch = (batch * 2) / 3;
        }
        let current_batch_size = if batch < MIN_BATCH_SIZE {
            MIN_BATCH_SIZE
        } else if batch > MAX_BATCH_SIZE {
            MAX_BATCH_SIZE
        } else {
            batch
        };
        AdaptiveBatchSizer { current_batch_size }
    }

    /// The number of rows per batch.
    pub fn get_batch_size(&self) -> (n: usize)
        ensures
            n as int == self.batch_size(),
    {
        self.current_batch_size
    }
}

/// Every table gets between 500,000 and 1,000,000 rows per batch.
pub proof fn batch_size_bounds(row_count: i64, has_blob: bool)
    ensures
        MIN_BATCH_SIZE <= adaptive_batch_size(row_count, has_blob) <= MAX_BATCH_SIZE,
{
}

/// The batch sizes table by table: without a text blob, 500,000 rows below
/// 10,000,000 estimated rows, 750,000 below 50,000,000 and 1,000,000 from
/// there on; with a text blob, 500,000 rows below 50,000,000 and 666,666
/// from there on.
pub proof fn batch_sizes_by_table(row_count: i64)
    ensures
        adaptive_batch_size(row_count, false) == (if row_count < 10_000_000 {
            500_000int
        } else if row_count < 50_000_000 {
            750_000int
        } else {
            1_000_000int
        }),
        adaptive_batch_size(row_count, true) == (if row_count < 50_000_000 { 500_000int } else { 666_666int }),
{
}

/// A larger table never gets a smaller batch.
pub proof fn batch_size_grows_with_row_count(r1: i64, r2: i64, has_blob: bool)
    requires
        r1 <= r2,
    ensures
        adaptive_batch_size(r1, has_blob) <= adaptive_batch_size(r2, has_blob),
{
}

/// A table with a text blob column never gets a larger batch than the same
/// table without one.
pub proof fn blob_batches_are_not_larger(row_count: i64)
    ensures
        adaptive_batch_size(row_count, true) <= adaptive_batch_size(row_count, false),
{
}

} // verus!
