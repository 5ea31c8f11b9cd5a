//! Turning fetched rows into column contents, one exported column at a
//! time.
//!
//! A fetched value arrives as a `Cell`. Floating-point values are carried as
//! the three plain values the conversions need: their IEEE-754 bit pattern,
//! their conversion to `i64` (`as`, saturating) and their decimal text, all
//! produced where the value was read.

use vstd::prelude::*;
use vstd::string::*;
use vstd::utf8::encode_utf8;
use crate::column_type::ColumnType;
use crate::metadata::{ColumnMetadata, TableMetadata};
use crate::text::{decimal, decimal_reads_back, decimal_string, decimal_value, trimmed, trim_text};

verus! {

/// A floating-point value, in the forms the column conversions use.
pub struct FloatCell {
    /// The value's IEEE-754 bit pattern.
    pub bits: u64,
    /// The value converted to `i64` as `as` does (saturating, toward zero).
    pub truncated: i64,
    /// The value's decimal text, as `f64::to_string` writes it.
    pub text: String,
}

/// A value read from the database.
pub enum Cell {
    Text(String),
    Integer(i64),
    Floating(FloatCell),
    Boolean(bool),
    /// Any other value (null, timestamp, 128-bit integer, raw bytes): no
    /// column converts it, so it is exported as null.
    Other,
}

/// One fetched row: its values, in column order.
pub type Row = Vec<Cell>;

/// An entry of a `Float64` column: a value's bit pattern, an integer to be
/// widened to floating point, or null.
#[derive(PartialEq, Eq, Structural)]
pub enum FloatSlot {
    Bits(u64),
    FromInt(i64),
    Missing,
}

/// The contents of one exported column, one entry per row; `None` is null.
pub enum ColumnData {
    Int64(Vec<Option<i64>>),
    Float64(Vec<FloatSlot>),
    Utf8(Vec<Option<String>>),
    Binary(Vec<Option<Vec<u8>>>),
}

/// The value of column `col` in `row`, if the row has that many values.
pub open spec fn cell_at(row: Row, col: int) -> Option<Cell> {
    if 0 <= col < row@.len() { Some(row@[col]) } else { None }
}

/// The `Int64` entry for a value: integers as they are, floating-point
/// values converted to `i64`, anything else null.
pub open spec fn int64_entry(c: Option<Cell>) -> Option<i64> {
    match c {
        Some(Cell::Integer(v)) => Some(v),
        Some(Cell::Floating(f)) => Some(f.truncated),
        _ => None,
    }
}

/// The `Float64` entry for a value: floating-point values as they are,
/// integers widened, anything else null.
pub open spec fn float64_entry(c: Option<Cell>) -> FloatSlot {
    match c {
        Some(Cell::Floating(f)) => FloatSlot::Bits(f.bits),
        Some(Cell::Integer(v)) => FloatSlot::FromInt(v),
        _ => FloatSlot::Missing,
    }
}

/// The `Utf8` entry for a value: text with surrounding whitespace trimmed,
/// integers and floating-point values in decimal, booleans as "true" or
/// "false", anything else null.
pub open spec fn utf8_entry(c: Option<Cell>) -> Option<Seq<char>> {
    match c {
        Some(Cell::Text(t)) => Some(trimmed(t@)),
        Some(Cell::Integer(v)) => Some(decimal(v as int)),
        Some(Cell::Floating(f)) => Some(f.text@),
        Some(Cell::Boolean(b)) => Some(if b { "true"@ } else { "false"@ }),
        _ => None,
    }
}

/// The `Binary` entry for a value: the UTF-8 bytes of a text, anything
/// else null.
pub open spec fn binary_entry(c: Option<Cell>) -> Option<Seq<u8>> {
    match c {
        Some(Cell::Text(t)) => Some(encode_utf8(t@)),
        _ => None,
    }
}

/// The view of an optional text.
pub open spec fn opt_text(o: Option<String>) -> Option<Seq<char>> {
    match o {
        Some(s) => Some(s@),
        None => None,
    }
}

/// The view of optional bytes.
pub open spec fn opt_bytes(o: Option<Vec<u8>>) -> Option<Seq<u8>> {
    match o {
        Some(b) => Some(b@),
        None => None,
    }
}

/// `data` is column `col` of `rows`, converted to type `ty`.
pub open spec fn column_matches(data: ColumnData, ty: ColumnType, rows: Seq<Row>, col: int) -> bool {
    match ty {
        ColumnType::Int64 => data matches ColumnData::Int64(v) && v@.len() == rows.len()
            && forall|r: int| 0 <= r < rows.len() ==> #[trigger] v@[r] == int64_entry(cell_at(rows[r], col)),
        ColumnType::Float64 => data matches ColumnData::Float64(v) && v@.len() == rows.len()
            && forall|r: int| 0 <= r < rows.len() ==> #[trigger] v@[r] == float64_entry(cell_at(rows[r], col)),
        ColumnType::Utf8 => data matches ColumnData::Utf8(v) && v@.len() == rows.len()
            && forall|r: int| 0 <= r < rows.len() ==> #[trigger] opt_text(v@[r]) == utf8_entry(cell_at(rows[r], col)),
        ColumnType::Binary => data matches ColumnData::Binary(v) && v@.len() == rows.len()
            && forall|r: int| 0 <= r < rows.len() ==> #[trigger] opt_bytes(v@[r]) == binary_entry(cell_at(rows[r], col)),
    }
}

fn cell_of<'a>(row: &'a Row, col: usize) -> (c: Option<&'a Cell>)
    ensures
        match c {
            Some(x) => cell_at(*row, col as int) == Some(*x),
            None => cell_at(*row, col as int) is None,
        },
{
    if col < row.len() { Some(&row[col]) } else { None }
}

fn int64_of(c: Option<&Cell>) -> (e: Option<i64>)
    ensures
        e == int64_entry(match c { Some(x) => Some(*x), None => None }),
{
    match c {
        Some(Cell::Integer(v)) => Some(*v),
        Some(Cell::Floating(f)) => Some(f.truncated),
        _ => None,
    }
}

fn float64_of(c: Option<&Cell>) -> (e: FloatSlot)
    ensures
        e == float64_entry(match c { Some(x) => Some(*x), None => None }),
{
    match c {
        Some(Cell::Floating(f)) => FloatSlot::Bits(f.bits),
        Some(Cell::Integer(v)) => FloatSlot::FromInt(*v),
        _ => FloatSlot::Missing,
    }
}

fn utf8_of(c: Option<&Cell>) -> (e: Option<String>)
    ensures
        opt_text(e) == utf8_entry(match c { Some(x) => Some(*x), None => None }),
{
    match c {
        Some(Cell::Text(t)) => Some(String::from_str(trim_text(t.as_str()))),
        Some(Cell::Integer(v)) => Some(decimal_string(*v)),
        Some(Cell::Floating(f)) => Some(f.text.clone()),
        Some(Cell::Boolean(b)) => {
            if *b {
                Some(String::from_str("true"))
            } else {
                Some(String::from_str("false"))
            }
        },
        _ => None,
    }
}

fn binary_of(c: Option<&Cell>) -> (e: Option<Vec<u8>>)
    ensures
        opt_bytes(e) == binary_entry(match c { Some(x) => Some(*x), None => None }),
{
    match c {
        Some(Cell::Text(t)) => Some(t.as_str().as_bytes_vec()),
        _ => None,
    }
}

/// Converts column `col_index` of `rows` to the column's export type.
/// A row without that column gives a null entry.
pub fn build_column_data(meta: &ColumnMetadata, rows: &Vec<Row>, col_index: usize) -> (data: ColumnData)
    ensures
        column_matches(data, meta.column_type, rows@, col_index as int),
        meta.column_type == ColumnType::Int64 ==> (data matches ColumnData::Int64(v) && v@.len() == rows@.len()
            && forall|r: int| 0 <= r < rows@.len() ==> #[trigger] v@[r] == int64_entry(
                if col_index < rows@[r]@.len() { Some(rows@[r]@[col_index as int]) } else { None })),
        meta.column_type == ColumnType::Float64 ==> (data matches ColumnData::Float64(v) && v@.len() == rows@.len()
            && forall|r: int| 0 <= r < rows@.len() ==> #[trigger] v@[r] == float64_entry(
                if col_index < rows@[r]@.len() { Some(rows@[r]@[col_index as int]) } else { None })),
        meta.column_type == ColumnType::Utf8 ==> (data matches ColumnData::Utf8(v) && v@.len() == rows@.len()
            && forall|r: int| 0 <= r < rows@.len() ==> #[trigger] opt_text(v@[r]) == utf8_entry(
                if col_index < rows@[r]@.len() { Some(rows@[r]@[col_index as int]) } else { None })),
        meta.column_type == ColumnType::Binary ==> (data matches ColumnData::Binary(v) && v@.len() == rows@.len()
            && forall|r: int| 0 <= r < rows@.len() ==> #[trigger] opt_bytes(v@[r]) == binary_entry(
                if col_index < rows@[r]@.len() { Some(rows@[r]@[col_index as int]) } else { None })),
{
    let n = rows.len();
    match meta.column_type {
        ColumnType::Int64 => {
            let mut values: Vec<Option<i64>> = Vec::new();
            let mut r: usize = 0;
            while r < n
                invariant
                    n == rows@.len(),
                    r <= n,
                    values@.len() == r,
                    forall|k: int| 0 <= k < r ==> #[trigger] values@[k] == int64_entry(cell_at(rows@[k], col_index as int)),
                decreases n - r,
            {
                values.push(int64_of(cell_of(&rows[r], col_index)));
                r = r + 1;
            }
            ColumnData::Int64(values)
        },
        ColumnType::Float64 => {
            let mut values: Vec<FloatSlot> = Vec::new();
            let mut r: usize = 0;
            while r < n
                invariant
                    n == rows@.len(),
                    r <= n,
                    values@.len() == r,
                    forall|k: int| 0 <= k < r ==> #[trigger] values@[k] == float64_entry(cell_at(rows@[k], col_index as int)),
                decreases n - r,
            {
                values.push(float64_of(cell_of(&rows[r], col_index)));
                r = r + 1;
            }
            ColumnData::Float64(values)
        },
        ColumnType::Utf8 => {
            let mut values: Vec<Option<String>> = Vec::new();
            let mut r: usize = 0;
            while r < n
                invariant
                    n == rows@.len(),
                    r <= n,
                    values@.len() == r,
                    forall|k: int| 0 <= k < r ==> #[trigger] opt_text(values@[k]) == utf8_entry(cell_at(rows@[k], col_index as int)),
                decreases n - r,
            {
                values.push(utf8_of(cell_of(&rows[r], col_index)));
                r = r + 1;
            }
            ColumnData::Utf8(values)
        },
        ColumnType::Binary => {
            let mut values: Vec<Option<Vec<u8>>> = Vec::new();
            let mut r: usize = 0;
            while r < n
                invariant
                    n == rows@.len(),
                    r <= n,
                    values@.len() == r,
                    forall|k: int| 0 <= k < r ==> #[trigger] opt_bytes(values@[k]) == binary_entry(cell_at(rows@[k], col_index as int)),
                decreases n - r,
            {
                values.push(binary_of(cell_of(&rows[r], col_index)));
                r = r + 1;
            }
            ColumnData::Binary(values)
        },
    }
}

/// Converts every column of `rows` as the table's metadata describes,
/// column `i` from the `i`-th value of each row.
pub fn build_batch_data(meta: &TableMetadata, rows: &Vec<Row>) -> (cols: Vec<ColumnData>)
    ensures
        cols@.len() == meta.columns@.len(),
        forall|i: int| 0 <= i < cols@.len() ==>
            column_matches(#[trigger] cols@[i], meta.columns@[i].column_type, rows@, i),
{
    let num_cols = meta.columns.len();
    let mut cols: Vec<ColumnData> = Vec::new();
    let mut ci: usize = 0;
    while ci < num_cols
        invariant
            num_cols == meta.columns@.len(),
            ci <= num_cols,
            cols@.len() == ci,
            forall|i: int| 0 <= i < ci ==>
                column_matches(#[trigger] cols@[i], meta.columns@[i].column_type, rows@, i),
        decreases num_cols - ci,
    {
        cols.push(build_column_data(&meta.columns[ci], rows, ci));
        ci = ci + 1;
    }
    cols
}

/// What each column type stores for each kind of value, value by value:
/// an `Int64` column keeps integers as they are and floating-point values
/// converted to `i64`; a `Float64` column keeps floating-point values' bits
/// and widens integers; a `Utf8` column keeps texts trimmed, booleans as
/// "true" / "false", floating-point values as their text, and integers as
/// plain decimal text that reads back as the integer and holds no
/// separator; a `Binary` column keeps only texts, as their UTF-8 bytes. Any
/// other value is null everywhere.
pub proof fn conversions_by_value(v: i64, f: FloatCell, t: String, b: bool)
    ensures
        int64_entry(Some(Cell::Integer(v))) == Some(v),
        int64_entry(Some(Cell::Floating(f))) == Some(f.truncated),
        int64_entry(Some(Cell::Text(t))) is None,
        int64_entry(Some(Cell::Boolean(b))) is None,
        float64_entry(Some(Cell::Floating(f))) == FloatSlot::Bits(f.bits),
        float64_entry(Some(Cell::Integer(v))) == FloatSlot::FromInt(v),
        float64_entry(Some(Cell::Text(t))) == FloatSlot::Missing,
        float64_entry(Some(Cell::Boolean(b))) == FloatSlot::Missing,
        utf8_entry(Some(Cell::Integer(v))) == Some(decimal(v as int)),
        decimal_value(utf8_entry(Some(Cell::Integer(v)))->0) == v,
        forall|i: int| 0 <= i < utf8_entry(Some(Cell::Integer(v)))->0.len()
            ==> #[trigger] utf8_entry(Some(Cell::Integer(v)))->0[i] != ',',
        utf8_entry(Some(Cell::Text(t))) == Some(trimmed(t@)),
        utf8_entry(Some(Cell::Floating(f))) == Some(f.text@),
        utf8_entry(Some(Cell::Boolean(true))) == Some("true"@),
        utf8_entry(Some(Cell::Boolean(false))) == Some("false"@),
        binary_entry(Some(Cell::Text(t))) == Some(encode_utf8(t@)),
        binary_entry(Some(Cell::Integer(v))) is None,
        binary_entry(Some(Cell::Floating(f))) is None,
        binary_entry(Some(Cell::Boolean(b))) is None,
        int64_entry(Some(Cell::Other)) is None,
        float64_entry(Some(Cell::Other)) == FloatSlot::Missing,
        utf8_entry(Some(Cell::Other)) is None,
        binary_entry(Some(Cell::Other)) is None,
{
    decimal_reads_back(v as int);
}

/// Every column keeps one entry per row, and a row missing the column
/// yields null in every type.
pub proof fn missing_values_are_null(row: Row, col: int)
    requires
        !(0 <= col < row@.len()),
    ensures
        int64_entry(cell_at(row, col)) is None,
        float64_entry(cell_at(row, col)) == FloatSlot::Missing,
        utf8_entry(cell_at(row, col)) is None,
        binary_entry(cell_at(row, col)) is None,
{
}

/// A value is null in an `Int64` column exactly when it is null in a
/// `Float64` column: both accept integers and floating-point values only.
pub proof fn numeric_columns_agree_on_nulls(c: Option<Cell>)
    ensures
        int64_entry(c) is None <==> float64_entry(c) == FloatSlot::Missing,
{
}

/// Every value a `Binary` column accepts, a `Utf8` column accepts too.
pub proof fn binary_values_are_texts(c: Option<Cell>)
    ensures
        binary_entry(c) is Some ==> utf8_entry(c) is Some,
{
}

} // verus!
