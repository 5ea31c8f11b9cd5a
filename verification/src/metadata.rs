//! What the extractor knows of a table: its columns, their export types,
//! its estimated size and its numeric primary key, if any.

use vstd::prelude::*;
use crate::column_type::{ColumnType, column_type_of, fb_to_arrow_type};
use crate::text::{trimmed, trim_text};
use vstd::string::*;

verus! {

/// One row of the column catalogue query: a field's name, position, type
/// code and subtype code.
pub struct ColumnRow {
    pub field_name: String,
    pub position: i16,
    pub field_type: i16,
    pub sub_type: i16,
}

/// An exported column: its name, its Arrow type, and whether it is a text
/// blob.
pub struct ColumnMetadata {
    pub name: String,
    pub column_type: ColumnType,
    pub is_text_blob: bool,
}

/// A numeric primary key: its column names, the smallest and largest value
/// of its first column, and the table's estimated row count.
pub struct PrimaryKeyInfo {
    pub columns: Vec<String>,
    pub min_values: Vec<i64>,
    pub max_values: Vec<i64>,
    pub row_count: i64,
}

/// Everything the extraction of one table works from.
pub struct TableMetadata {
    pub table_name: String,
    pub columns: Vec<ColumnMetadata>,
    pub row_count: i64,
    pub has_blob: bool,
    pub pk: Option<PrimaryKeyInfo>,
}

/// Column `c` was made from catalogue row `r`: trimmed name, and the type
/// and text-blob flag its type codes map to.
pub open spec fn column_from_row(c: ColumnMetadata, r: ColumnRow) -> bool {
    &&& c.name@ == trimmed(r.field_name@)
    &&& (c.column_type, c.is_text_blob) == column_type_of(r.field_type, r.sub_type)
}

/// Whether a column list holds a text blob column (a `Utf8` column flagged
/// as text blob).
pub open spec fn holds_text_blob(columns: Seq<ColumnMetadata>) -> bool {
    exists|i: int| 0 <= i < columns.len() && #[trigger] columns[i].column_type == ColumnType::Utf8
        && columns[i].is_text_blob
}

/// Builds a column from one catalogue row.
pub fn column_metadata(row: &ColumnRow) -> (c: ColumnMetadata)
    ensures
        column_from_row(c, *row),
{
    let name = String::from_str(trim_text(row.field_name.as_str()));
    let (column_type, is_text_blob) = fb_to_arrow_type(row.field_type, row.sub_type);
    ColumnMetadata { name, column_type, is_text_blob }
}

/// Assembles a table's metadata from its catalogue rows, its row count
/// estimate and its primary key.
pub fn build_table_metadata(
    table: &str,
    rows: &Vec<ColumnRow>,
    row_count: i64,
    pk: Option<PrimaryKeyInfo>,
) -> (m: TableMetadata)
    ensures
        m.table_name@ == table@,
        m.columns@.len() == rows@.len(),
        forall|i: int| 0 <= i < rows@.len() ==> column_from_row(#[trigger] m.columns@[i], rows@[i]),
        forall|i: int| 0 <= i < rows@.len() ==> #[trigger] m.columns@[i].name@ == trimmed(rows@[i].field_name@)
            && (m.columns@[i].column_type, m.columns@[i].is_text_blob) == column_type_of(rows@[i].field_type, rows@[i].sub_type),
        m.has_blob <==> exists|i: int| 0 <= i < rows@.len() && #[trigger] rows@[i].field_type == 12 && rows@[i].sub_type == 1,
        m.row_count == row_count,
        m.has_blob == holds_text_blob(m.columns@),
        m.pk == pk,
{
    let mut columns: Vec<ColumnMetadata> = Vec::new();
    let mut has_blob = false;
    let mut i: usize = 0;
    while i < rows.len()
        invariant
            i <= rows@.len(),
            columns@.len() == i,
            forall|j: int| 0 <= j < i ==> column_from_row(#[trigger] columns@[j], rows@[j]),
            has_blob == holds_text_blob(columns@),
        decreases rows.len() - i,
    {
        let c = column_metadata(&rows[i]);
        let blob = c.is_text_blob && c.column_type == ColumnType::Utf8;
        let ghost before = columns@;
        columns.push(c);
        proof {
            if has_blob {
                let k = choose|k: int| 0 <= k < before.len() && #[trigger] before[k].column_type == ColumnType::Utf8
                    && before[k].is_text_blob;
                assert(columns@[k] == before[k]);
            }
            if blob {
                assert(columns@[i as int].column_type == ColumnType::Utf8);
            }
            if holds_text_blob(columns@) && !blob {
                let k = choose|k: int| 0 <= k < columns@.len() && #[trigger] columns@[k].column_type == ColumnType::Utf8
                    && columns@[k].is_text_blob;
                assert(k < before.len());
                assert(before[k] == columns@[k]);
            }
        }
        has_blob = has_blob || blob;
        i = i + 1;
    }
    proof {
        blob_flag_matches_catalogue(columns@, rows@);
    }
    TableMetadata { table_name: String::from_str(table), columns, row_count, has_blob, pk }
}

/// A field of the exported schema: its name, its type, and whether it
/// may hold nulls.
pub struct FieldSpec {
    pub name: String,
    pub column_type: ColumnType,
    pub nullable: bool,
}

/// The exported schema's fields, one per column in order: the column's name
/// and type, every field nullable.
pub fn schema_fields(columns: &Vec<ColumnMetadata>) -> (fields: Vec<FieldSpec>)
    ensures
        fields@.len() == columns@.len(),
        forall|i: int| #![trigger fields@[i]] 0 <= i < fields@.len() ==> {
            &&& fields@[i].name@ == columns@[i].name@
            &&& fields@[i].column_type == columns@[i].column_type
            &&& fields@[i].nullable
        },
{
    let mut fields: Vec<FieldSpec> = Vec::new();
    let mut i: usize = 0;
    while i < columns.len()
        invariant
            i <= columns@.len(),
            fields@.len() == i,
            forall|k: int| #![trigger fields@[k]] 0 <= k < i ==> {
                &&& fields@[k].name@ == columns@[k].name@
                &&& fields@[k].column_type == columns@[k].column_type
                &&& fields@[k].nullable
            },
        decreases columns.len() - i,
    {
        let name = columns[i].name.clone();
        let column_type = columns[i].column_type;
        fields.push(FieldSpec { name, column_type, nullable: true });
        i = i + 1;
    }
    fields
}

/// A table has a text blob column exactly when one of its catalogue rows is
/// a BLOB of the text subtype.
pub proof fn blob_flag_matches_catalogue(columns: Seq<ColumnMetadata>, rows: Seq<ColumnRow>)
    requires
        columns.len() == rows.len(),
        forall|i: int| 0 <= i < rows.len() ==> column_from_row(#[trigger] columns[i], rows[i]),
    ensures
        holds_text_blob(columns) <==> exists|i: int| 0 <= i < rows.len()
            && #[trigger] rows[i].field_type == 12 && rows[i].sub_type == 1,
{
    if holds_text_blob(columns) {
        let k = choose|k: int| 0 <= k < columns.len() && #[trigger] columns[k].column_type == ColumnType::Utf8
            && columns[k].is_text_blob;
        assert(column_from_row(columns[k], rows[k]));
        assert(rows[k].field_type == 12);
    }
    if exists|i: int| 0 <= i < rows.len() && #[trigger] rows[i].field_type == 12 && rows[i].sub_type == 1 {
        let k = choose|i: int| 0 <= i < rows.len() && #[trigger] rows[i].field_type == 12 && rows[i].sub_type == 1;
        assert(column_from_row(columns[k], rows[k]));
        assert(columns[k].column_type == ColumnType::Utf8);
    }
}

} // verus!
