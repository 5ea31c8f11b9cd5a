//! The SQL text the extractor sends to the database.

use vstd::prelude::*;
use vstd::string::*;
use crate::metadata::ColumnMetadata;
use crate::text::{decimal, decimal_string, joined, join_texts, lowercased, to_lower};

verus! {

/// The query for the name of a table's primary-key index (one parameter:
/// the table name in upper case).
pub open spec fn pk_index_sql() -> Seq<char> {
    r#"
            SELECT ri.rdb$index_name
            FROM rdb$indices ri
            WHERE ri.rdb$relation_name = ?
            AND ri.rdb$index_type = 1
        "#@
}

/// The query for the columns of an index, in order (one parameter: the
/// index name in upper case).
pub open spec fn pk_columns_sql() -> Seq<char> {
    r#"
            SELECT seg.rdb$field_name
            FROM rdb$index_segments seg
            WHERE seg.rdb$index_name = ?
            ORDER BY seg.rdb$field_position
        "#@
}

/// The query for the type code of one column (two parameters: table and
/// column name, both in upper case).
pub open spec fn column_type_sql() -> Seq<char> {
    r#"
            SELECT f.rdb$field_type
            FROM rdb$relation_fields rf
            INNER JOIN rdb$fields f ON f.rdb$field_name = rf.rdb$field_source
            WHERE rf.rdb$relation_name = ? AND rf.rdb$field_name = ?
        "#@
}

/// The query for every column of a table with its position, type and
/// subtype, in position order (one parameter: the table name in upper
/// case).
pub open spec fn columns_sql() -> Seq<char> {
    r#"
            SELECT
                rf.rdb$field_name,
                rf.rdb$field_position,
                f.rdb$field_type,
                f.rdb$field_sub_type
            FROM rdb$relation_fields rf
            INNER JOIN rdb$fields f ON f.rdb$field_name = rf.rdb$field_source
            WHERE rf.rdb$relation_name = ?
            ORDER BY rf.rdb$field_position
        "#@
}

/// The query for the monitoring tables' count of record reads of a table,
/// used as a quick row count estimate (one parameter: the table name in
/// upper case).
pub open spec fn row_estimate_sql() -> Seq<char> {
    r#"
            SELECT COALESCE(SUM(MON$RECORD_SEQ_READS + MON$RECORD_IDX_READS), 0)
            FROM MON$RECORD_STATS
            WHERE MON$TABLE_NAME = ?
        "#@
}

/// The text of `pk_index_sql`.
pub fn pk_index_query() -> (s: String)
    ensures
        s@ == pk_index_sql(),
{
    String::from_str(r#"
            SELECT ri.rdb$index_name
            FROM rdb$indices ri
            WHERE ri.rdb$relation_name = ?
            AND ri.rdb$index_type = 1
        "#)
}

/// The text of `pk_columns_sql`.
pub fn pk_columns_query() -> (s: String)
    ensures
        s@ == pk_columns_sql(),
{
    String::from_str(r#"
            SELECT seg.rdb$field_name
            FROM rdb$index_segments seg
            WHERE seg.rdb$index_name = ?
            ORDER BY seg.rdb$field_position
        "#)
}

/// The text of `column_type_sql`.
pub fn column_type_query() -> (s: String)
    ensures
        s@ == column_type_sql(),
{
    String::from_str(r#"
            SELECT f.rdb$field_type
            FROM rdb$relation_fields rf
            INNER JOIN rdb$fields f ON f.rdb$field_name = rf.rdb$field_source
            WHERE rf.rdb$relation_name = ? AND rf.rdb$field_name = ?
        "#)
}

/// The text of `columns_sql`.
pub fn columns_query() -> (s: String)
    ensures
        s@ == columns_sql(),
{
    String::from_str(r#"
            SELECT
                rf.rdb$field_name,
                rf.rdb$field_position,
                f.rdb$field_type,
                f.rdb$field_sub_type
            FROM rdb$relation_fields rf
            INNER JOIN rdb$fields f ON f.rdb$field_name = rf.rdb$field_source
            WHERE rf.rdb$relation_name = ?
            ORDER BY rf.rdb$field_position
        "#)
}

/// The text of `row_estimate_sql`.
pub fn row_estimate_query() -> (s: String)
    ensures
        s@ == row_estimate_sql(),
{
    String::from_str(r#"
            SELECT COALESCE(SUM(MON$RECORD_SEQ_READS + MON$RECORD_IDX_READS), 0)
            FROM MON$RECORD_STATS
            WHERE MON$TABLE_NAME = ?
        "#)
}

/// "SELECT COUNT(*) FROM <table>".
pub open spec fn count_sql(table: Seq<char>) -> Seq<char> {
    "SELECT COUNT(*) FROM "@ + table
}

/// The exact row count query for a table.
pub fn count_query(table: &str) -> (s: String)
    ensures
        s@ == count_sql(table@),
        s@ == "SELECT COUNT(*) FROM "@ + table@,
{
    let mut s = String::from_str("SELECT COUNT(*) FROM ");
    s.append(table);
    s
}

/// "SELECT MIN(<col>), MAX(<col>) FROM <table>".
pub open spec fn min_max_sql(column: Seq<char>, table: Seq<char>) -> Seq<char> {
    "SELECT MIN("@ + column + "), MAX("@ + column + ") FROM "@ + table
}

/// The query for the smallest and largest value of a column.
pub fn min_max_query(column: &str, table: &str) -> (s: String)
    ensures
        s@ == min_max_sql(column@, table@),
        s@ == "SELECT MIN("@ + column@ + "), MAX("@ + column@ + ") FROM "@ + table@,
{
    let mut s = String::from_str("SELECT MIN(");
    s.append(column);
    s.append("), MAX(");
    s.append(column);
    s.append(") FROM ");
    s.append(table);
    s
}

/// The names of the columns, in order.
pub open spec fn names_of(columns: Seq<ColumnMetadata>) -> Seq<Seq<char>> {
    Seq::new(columns.len(), |i: int| columns[i].name@)
}

/// The column list of a query: the names joined with ", ".
pub open spec fn column_list_sql(columns: Seq<ColumnMetadata>) -> Seq<char> {
    joined(names_of(columns), ", "@)
}

/// The names of the columns joined with ", ".
pub fn column_list(columns: &Vec<ColumnMetadata>) -> (s: String)
    ensures
        s@ == column_list_sql(columns@),
{
    let mut names: Vec<String> = Vec::new();
    let mut i: usize = 0;
    while i < columns.len()
        invariant
            i <= columns@.len(),
            names@.len() == i,
            forall|k: int| 0 <= k < i ==> #[trigger] names@[k]@ == columns@[k].name@,
        decreases columns.len() - i,
    {
        names.push(columns[i].name.clone());
        i = i + 1;
    }
    assert(names.deep_view() =~= names_of(columns@));
    join_texts(&names, ", ")
}

/// "SELECT <columns> FROM <table>".
pub open spec fn select_sql(column_list: Seq<char>, table: Seq<char>) -> Seq<char> {
    "SELECT "@ + column_list + " FROM "@ + table
}

/// The query for every row of a table.
pub fn select_query(column_list: &str, table: &str) -> (s: String)
    ensures
        s@ == select_sql(column_list@, table@),
        s@ == "SELECT "@ + column_list@ + " FROM "@ + table@,
{
    let mut s = String::from_str("SELECT ");
    s.append(column_list);
    s.append(" FROM ");
    s.append(table);
    s
}

/// "SELECT <columns> FROM <table> WHERE <key> >= <lo> AND <key> <= <hi>".
pub open spec fn key_range_sql(column_list: Seq<char>, table: Seq<char>, key: Seq<char>, lo: int, hi: int) -> Seq<char> {
    select_sql(column_list, table) + " WHERE "@ + key + " >= "@ + decimal(lo) + " AND "@ + key + " <= "@ + decimal(hi)
}

/// The query for the rows whose key lies in `[lo, hi]`.
pub fn key_range_query(column_list: &str, table: &str, key: &str, lo: i64, hi: i64) -> (s: String)
    ensures
        s@ == key_range_sql(column_list@, table@, key@, lo as int, hi as int),
        s@ == "SELECT "@ + column_list@ + " FROM "@ + table@ + " WHERE "@ + key@ + " >= "@ + decimal(lo as int)
            + " AND "@ + key@ + " <= "@ + decimal(hi as int),
{
    let mut s = select_query(column_list, table);
    s.append(" WHERE ");
    s.append(key);
    s.append(" >= ");
    let lo_text = decimal_string(lo);
    s.append(lo_text.as_str());
    s.append(" AND ");
    s.append(key);
    s.append(" <= ");
    let hi_text = decimal_string(hi);
    s.append(hi_text.as_str());
    s
}

/// "<query> ROWS <first> TO <last>".
pub open spec fn page_sql(query: Seq<char>, first: int, last: int) -> Seq<char> {
    query + " ROWS "@ + decimal(first) + " TO "@ + decimal(last)
}

/// A query restricted to the rows `first` to `last` (1-based, inclusive).
pub fn page_query(query: &str, first: i64, last: i64) -> (s: String)
    ensures
        s@ == page_sql(query@, first as int, last as int),
        s@ == query@ + " ROWS "@ + decimal(first as int) + " TO "@ + decimal(last as int),
{
    let mut s = String::from_str(query);
    s.append(" ROWS ");
    let first_text = decimal_string(first);
    s.append(first_text.as_str());
    s.append(" TO ");
    let last_text = decimal_string(last);
    s.append(last_text.as_str());
    s
}

/// The file a table is written to: its name in lower case, with the
/// ".parquet" extension.
pub open spec fn output_file_name_of(table: Seq<char>) -> Seq<char> {
    lowercased(table) + ".parquet"@
}

/// The name of the file a table is written to.
pub fn output_file_name(table: &str) -> (s: String)
    ensures
        s@ == output_file_name_of(table@),
        s@ == lowercased(table@) + ".parquet"@,
{
    let mut s = to_lower(table);
    s.append(".parquet");
    s
}


/// A key-range query selects the keys from `lo` to `hi`, both included,
/// whatever their signs: the lower bound is compared with `>=` and the upper
/// with `<=`, each written in plain decimal.
pub proof fn key_range_bounds_are_inclusive(column_list: Seq<char>, table: Seq<char>, key: Seq<char>, lo: int, hi: int)
    ensures
        key_range_sql(column_list, table, key, lo, hi)
            == "SELECT "@ + column_list + " FROM "@ + table + " WHERE "@ + key + " >= "@ + decimal(lo)
                + " AND "@ + key + " <= "@ + decimal(hi),
{
}

/// A page query asks for the rows `first` to `last`, both written in plain
/// decimal after the query.
pub proof fn page_bounds_are_inclusive(query: Seq<char>, first: int, last: int)
    ensures
        page_sql(query, first, last) == query + " ROWS "@ + decimal(first) + " TO "@ + decimal(last),
{
}

/// The count and range queries name the table and column as given, and the
/// output file is the table's lower-case name with the ".parquet" extension.
pub proof fn table_queries_name_table(column: Seq<char>, table: Seq<char>)
    ensures
        count_sql(table) == "SELECT COUNT(*) FROM "@ + table,
        min_max_sql(column, table) == "SELECT MIN("@ + column + "), MAX("@ + column + ") FROM "@ + table,
        select_sql(column, table) == "SELECT "@ + column + " FROM "@ + table,
        output_file_name_of(table) == lowercased(table) + ".parquet"@,
{
}


/// The catalogue queries, word for word: the primary-key index of a
/// relation (index type 1), the index's fields in position order, one
/// field's type code, every field's name, position, type and subtype in
/// position order, and the monitoring tables' record reads of a table.
pub proof fn catalogue_query_texts()
    ensures
        pk_index_sql() == r#"
            SELECT ri.rdb$index_name
            FROM rdb$indices ri
            WHERE ri.rdb$relation_name = ?
            AND ri.rdb$index_type = 1
        "#@,
        pk_columns_sql() == r#"
            SELECT seg.rdb$field_name
            FROM rdb$index_segments seg
            WHERE seg.rdb$index_name = ?
            ORDER BY seg.rdb$field_position
        "#@,
        column_type_sql() == r#"
            SELECT f.rdb$field_type
            FROM rdb$relation_fields rf
            INNER JOIN rdb$fields f ON f.rdb$field_name = rf.rdb$field_source
            WHERE rf.rdb$relation_name = ? AND rf.rdb$field_name = ?
        "#@,
        columns_sql() == r#"
            SELECT
                rf.rdb$field_name,
                rf.rdb$field_position,
                f.rdb$field_type,
                f.rdb$field_sub_type
            FROM rdb$relation_fields rf
            INNER JOIN rdb$fields f ON f.rdb$field_name = rf.rdb$field_source
            WHERE rf.rdb$relation_name = ?
            ORDER BY rf.rdb$field_position
        "#@,
        row_estimate_sql() == r#"
            SELECT COALESCE(SUM(MON$RECORD_SEQ_READS + MON$RECORD_IDX_READS), 0)
            FROM MON$RECORD_STATS
            WHERE MON$TABLE_NAME = ?
        "#@,
{
}

} // verus!
