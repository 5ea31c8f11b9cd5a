use peregrine_falcon_miramar::column_type::ColumnType;
use peregrine_falcon_miramar::columns::{build_batch_data, build_column_data, Cell, ColumnData, FloatCell, FloatSlot, Row};
use peregrine_falcon_miramar::metadata::{
    build_table_metadata, column_metadata, schema_fields, ColumnMetadata, ColumnRow, PrimaryKeyInfo,
};
use peregrine_falcon_miramar::sql::{
    column_list, count_query, key_range_query, min_max_query, output_file_name, page_query, select_query,
};

fn col(name: &str, ty: ColumnType, blob: bool) -> ColumnMetadata {
    ColumnMetadata { name: name.to_string(), column_type: ty, is_text_blob: blob }
}

fn float_cell(v: f64) -> Cell {
    Cell::Floating(FloatCell { bits: v.to_bits(), truncated: v as i64, text: v.to_string() })
}

#[test]
fn count_and_min_max_queries() {
    assert_eq!(count_query("ORDERS"), "SELECT COUNT(*) FROM ORDERS");
    assert_eq!(min_max_query("ID", "ORDERS"), "SELECT MIN(ID), MAX(ID) FROM ORDERS");
}

#[test]
fn select_and_key_range_queries() {
    let cols = vec![col("ID", ColumnType::Int64, false), col("NAME", ColumnType::Utf8, false)];
    let list = column_list(&cols);
    assert_eq!(list, "ID, NAME");
    assert_eq!(select_query(&list, "ORDERS"), "SELECT ID, NAME FROM ORDERS");
    assert_eq!(
        key_range_query(&list, "ORDERS", "ID", -5, 250000),
        "SELECT ID, NAME FROM ORDERS WHERE ID >= -5 AND ID <= 250000"
    );
}

#[test]
fn page_query_bounds() {
    assert_eq!(page_query("SELECT A FROM T", 1, 500000), "SELECT A FROM T ROWS 1 TO 500000");
    assert_eq!(page_query("SELECT A FROM T", 500001, 1000000), "SELECT A FROM T ROWS 500001 TO 1000000");
}

#[test]
fn output_file_is_lower_case_parquet() {
    assert_eq!(output_file_name("ORDERS"), "orders.parquet");
    assert_eq!(output_file_name("Order_Lines"), "order_lines.parquet");
}

fn sample_rows() -> Vec<Row> {
    vec![
        vec![Cell::Integer(42), Cell::Text("  hello ".to_string()), Cell::Boolean(true)],
        vec![float_cell(2.75), Cell::Integer(-7), Cell::Boolean(false)],
        vec![Cell::Text("x".to_string()), float_cell(1.5), Cell::Other],
        vec![Cell::Other],
    ]
}

#[test]
fn int64_column_conversion() {
    let rows = sample_rows();
    match build_column_data(&col("A", ColumnType::Int64, false), &rows, 0) {
        ColumnData::Int64(v) => assert_eq!(v, vec![Some(42), Some(2), None, None]),
        _ => panic!("wrong column kind"),
    }
}

#[test]
fn float64_column_conversion() {
    let rows = sample_rows();
    match build_column_data(&col("A", ColumnType::Float64, false), &rows, 0) {
        ColumnData::Float64(v) => {
            assert!(v[0] == FloatSlot::FromInt(42));
            assert!(v[1] == FloatSlot::Bits(2.75f64.to_bits()));
            assert!(v[2] == FloatSlot::Missing);
            assert!(v[3] == FloatSlot::Missing);
            assert_eq!(v.len(), 4);
        }
        _ => panic!("wrong column kind"),
    }
}

#[test]
fn utf8_column_conversion() {
    let rows = sample_rows();
    match build_column_data(&col("B", ColumnType::Utf8, false), &rows, 1) {
        ColumnData::Utf8(v) => assert_eq!(
            v,
            vec![Some("hello".to_string()), Some("-7".to_string()), Some("1.5".to_string()), None]
        ),
        _ => panic!("wrong column kind"),
    }
    match build_column_data(&col("C", ColumnType::Utf8, false), &rows, 2) {
        ColumnData::Utf8(v) => assert_eq!(v, vec![Some("true".to_string()), Some("false".to_string()), None, None]),
        _ => panic!("wrong column kind"),
    }
}

#[test]
fn binary_column_conversion() {
    let rows = sample_rows();
    match build_column_data(&col("B", ColumnType::Binary, false), &rows, 1) {
        ColumnData::Binary(v) => assert_eq!(v, vec![Some(b"  hello ".to_vec()), None, None, None]),
        _ => panic!("wrong column kind"),
    }
    let utf = vec![vec![Cell::Text("é".to_string())]];
    match build_column_data(&col("B", ColumnType::Binary, false), &utf, 0) {
        ColumnData::Binary(v) => assert_eq!(v, vec![Some(vec![0xC3, 0xA9])]),
        _ => panic!("wrong column kind"),
    }
}

#[test]
fn whole_batch_conversion() {
    let rows = sample_rows();
    let meta = build_table_metadata(
        "T",
        &vec![
            ColumnRow { field_name: "A".to_string(), position: 0, field_type: 16, sub_type: 0 },
            ColumnRow { field_name: "B".to_string(), position: 1, field_type: 37, sub_type: 0 },
            ColumnRow { field_name: "C".to_string(), position: 2, field_type: 12, sub_type: 0 },
        ],
        4,
        None,
    );
    let cols = build_batch_data(&meta, &rows);
    assert_eq!(cols.len(), 3);
    assert!(matches!(&cols[0], ColumnData::Int64(v) if v.len() == 4));
    assert!(matches!(&cols[1], ColumnData::Utf8(v) if v.len() == 4));
    assert!(matches!(&cols[2], ColumnData::Binary(v) if v.iter().all(|e| e.is_none())));
    let empty = build_batch_data(&meta, &Vec::new());
    assert!(matches!(&empty[0], ColumnData::Int64(v) if v.is_empty()));
}

#[test]
fn catalogue_rows_become_columns() {
    let rows = vec![
        ColumnRow { field_name: "ID                             ".to_string(), position: 0, field_type: 8, sub_type: 0 },
        ColumnRow { field_name: " NOTES ".to_string(), position: 1, field_type: 12, sub_type: 1 },
        ColumnRow { field_name: "PRICE".to_string(), position: 2, field_type: 27, sub_type: 0 },
    ];
    let pk = PrimaryKeyInfo { columns: vec!["ID".to_string()], min_values: vec![1], max_values: vec![9], row_count: 9 };
    let m = build_table_metadata("ITEMS", &rows, 9, Some(pk));
    assert_eq!(m.table_name, "ITEMS");
    assert_eq!(m.columns.len(), 3);
    assert_eq!(m.columns[0].name, "ID");
    assert_eq!(m.columns[0].column_type, ColumnType::Int64);
    assert_eq!(m.columns[1].name, "NOTES");
    assert_eq!(m.columns[1].column_type, ColumnType::Utf8);
    assert!(m.columns[1].is_text_blob);
    assert_eq!(m.columns[2].column_type, ColumnType::Float64);
    assert!(m.has_blob);
    assert_eq!(m.row_count, 9);
    assert_eq!(m.pk.as_ref().unwrap().max_values, vec![9]);
}

#[test]
fn binary_blob_is_not_text_blob() {
    let rows = vec![ColumnRow { field_name: "DATA".to_string(), position: 0, field_type: 12, sub_type: 0 }];
    let m = build_table_metadata("B", &rows, 1, None);
    assert!(!m.has_blob);
    assert_eq!(m.columns[0].column_type, ColumnType::Binary);
    let c = column_metadata(&ColumnRow { field_name: "\tX\n".to_string(), position: 0, field_type: 14, sub_type: 0 });
    assert_eq!(c.name, "X");
}

#[test]
fn names_lose_unicode_whitespace_only() {
    let row = |name: &str| ColumnRow { field_name: name.to_string(), position: 0, field_type: 8, sub_type: 0 };
    assert_eq!(column_metadata(&row("\u{3000}TOTAL\u{a0}\u{2028}")).name, "TOTAL");
    assert_eq!(column_metadata(&row(" A B ")).name, "A B");
    assert_eq!(column_metadata(&row("\u{200b}X")).name, "\u{200b}X");
    assert_eq!(column_metadata(&row(" \t ")).name, "");
}

#[test]
fn schema_fields_follow_columns() {
    let cols = vec![col("ID", ColumnType::Int64, false), col("DOC", ColumnType::Utf8, true)];
    let fields = schema_fields(&cols);
    assert_eq!(fields.len(), 2);
    assert_eq!(fields[0].name, "ID");
    assert_eq!(fields[1].column_type, ColumnType::Utf8);
    assert!(fields.iter().all(|f| f.nullable));
}
