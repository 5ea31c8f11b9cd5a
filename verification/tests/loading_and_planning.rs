use peregrine_falcon_miramar::loader::{Answer, LoadError, MetadataLoader, Progress, QueryRequest, RowShape};
use peregrine_falcon_miramar::metadata::{ColumnRow, PrimaryKeyInfo, TableMetadata};
use peregrine_falcon_miramar::plan::{
    add_batch_rows, key_partitions, plan_extraction, progress_due, writer_settings, Compression, DataPageVersion,
    ExtractionPlan,
};

fn ask(p: Progress) -> QueryRequest {
    match p {
        Progress::Ask(q) => q,
        Progress::Done(_) => panic!("expected a query"),
    }
}

fn done(p: Progress) -> Result<TableMetadata, LoadError> {
    match p {
        Progress::Done(r) => r,
        Progress::Ask(q) => panic!("expected the end, got {}", q.sql),
    }
}

fn catalogue() -> Vec<ColumnRow> {
    vec![
        ColumnRow { field_name: "ID  ".to_string(), position: 0, field_type: 16, sub_type: 0 },
        ColumnRow { field_name: "NAME".to_string(), position: 1, field_type: 37, sub_type: 0 },
    ]
}

#[test]
fn load_with_numeric_key() {
    let (mut l, q) = MetadataLoader::new("orders");
    assert!(q.sql.contains("rdb$indices"));
    assert_eq!(q.params, vec!["ORDERS".to_string()]);
    assert!(q.shape == RowShape::Names);

    let q = ask(l.answer(Answer::Names(vec!["rdb$primary7   ".to_string()])));
    assert!(q.sql.contains("rdb$index_segments"));
    assert_eq!(q.params, vec!["RDB$PRIMARY7".to_string()]);

    let q = ask(l.answer(Answer::Names(vec!["ID   ".to_string()])));
    assert!(q.sql.contains("rdb$field_type"));
    assert_eq!(q.params, vec!["ORDERS".to_string(), "ID".to_string()]);
    assert!(q.shape == RowShape::TypeCodes);

    let q = ask(l.answer(Answer::TypeCodes(vec![16])));
    assert!(q.sql.contains("MON$RECORD_STATS"));
    assert!(q.shape == RowShape::Counts);

    let q = ask(l.answer(Answer::Counts(vec![1200])));
    assert_eq!(q.sql, "SELECT MIN(ID), MAX(ID) FROM orders");
    assert!(q.params.is_empty());
    assert!(q.shape == RowShape::Bounds);

    let q = ask(l.answer(Answer::Bounds(vec![(Some(5), Some(1300))])));
    assert!(q.sql.contains("rdb$relation_fields"));
    assert!(q.shape == RowShape::Catalogue);

    let q = ask(l.answer(Answer::Catalogue(catalogue())));
    assert!(q.sql.contains("MON$RECORD_STATS"));

    let m = done(l.answer(Answer::Counts(vec![1250]))).unwrap();
    assert!(l.is_finished());
    assert_eq!(m.table_name, "orders");
    assert_eq!(m.row_count, 1250);
    assert_eq!(m.columns[0].name, "ID");
    assert!(!m.has_blob);
    let pk = m.pk.unwrap();
    assert_eq!(pk.columns, vec!["ID".to_string()]);
    assert_eq!(pk.min_values, vec![5]);
    assert_eq!(pk.max_values, vec![1300]);
    assert_eq!(pk.row_count, 1200);
}

#[test]
fn load_without_key_index() {
    let (mut l, _) = MetadataLoader::new("LOG");
    let q = ask(l.answer(Answer::Names(vec![])));
    assert!(q.shape == RowShape::Catalogue);
    assert_eq!(q.params, vec!["LOG".to_string()]);
    let _ = ask(l.answer(Answer::Catalogue(catalogue())));
    let m = done(l.answer(Answer::Counts(vec![3]))).unwrap();
    assert!(m.pk.is_none());
    assert_eq!(m.row_count, 3);
}

#[test]
fn estimate_failure_falls_back_to_count() {
    let (mut l, _) = MetadataLoader::new("T");
    let _ = ask(l.answer(Answer::Names(vec![])));
    let _ = ask(l.answer(Answer::Catalogue(catalogue())));
    let q = ask(l.answer(Answer::Failed("connection lost".to_string())));
    assert_eq!(q.sql, "SELECT COUNT(*) FROM T");
    assert!(q.params.is_empty());
    let m = done(l.answer(Answer::Counts(vec![])));
    assert_eq!(m.unwrap().row_count, 0);
}

#[test]
fn zero_estimate_falls_back_to_count() {
    let (mut l, _) = MetadataLoader::new("T");
    let _ = ask(l.answer(Answer::Names(vec![])));
    let _ = ask(l.answer(Answer::Catalogue(catalogue())));
    let q = ask(l.answer(Answer::Counts(vec![0])));
    assert_eq!(q.sql, "SELECT COUNT(*) FROM T");
    assert_eq!(done(l.answer(Answer::Counts(vec![77]))).unwrap().row_count, 77);
}

#[test]
fn failed_catalogue_query_is_an_error() {
    let (mut l, _) = MetadataLoader::new("T");
    match done(l.answer(Answer::Failed("connection lost".to_string()))) {
        Err(LoadError::QueryFailed(m)) => assert_eq!(m, "connection lost"),
        Ok(_) => panic!("the load should fail"),
    }
    assert!(l.is_finished());
    assert!(l.expected_shape().is_none());
}

#[test]
fn non_integer_key_is_dropped() {
    let (mut l, _) = MetadataLoader::new("T");
    let _ = ask(l.answer(Answer::Names(vec!["PK1".to_string()])));
    let _ = ask(l.answer(Answer::Names(vec!["CODE".to_string(), "ID".to_string()])));
    let q = ask(l.answer(Answer::TypeCodes(vec![8])));
    assert_eq!(q.params, vec!["T".to_string(), "ID".to_string()]);
    let q = ask(l.answer(Answer::TypeCodes(vec![37])));
    assert!(q.shape == RowShape::Catalogue);
    let _ = ask(l.answer(Answer::Catalogue(vec![])));
    let m = done(l.answer(Answer::Counts(vec![10]))).unwrap();
    assert!(m.pk.is_none());
}

#[test]
fn missing_type_row_drops_key() {
    let (mut l, _) = MetadataLoader::new("T");
    let _ = ask(l.answer(Answer::Names(vec!["PK1".to_string()])));
    let _ = ask(l.answer(Answer::Names(vec!["ID".to_string()])));
    let q = ask(l.answer(Answer::TypeCodes(vec![])));
    assert!(q.shape == RowShape::Catalogue);
}

#[test]
fn key_bounds_defaults() {
    let (mut l, _) = MetadataLoader::new("T");
    let _ = ask(l.answer(Answer::Names(vec!["PK1".to_string()])));
    let _ = ask(l.answer(Answer::Names(vec!["ID".to_string()])));
    let _ = ask(l.answer(Answer::TypeCodes(vec![7])));
    let q = ask(l.answer(Answer::Failed("connection lost".to_string())));
    assert_eq!(q.sql, "SELECT COUNT(*) FROM T");
    let _ = ask(l.answer(Answer::Counts(vec![40])));
    assert!(l.expected_shape() == Some(RowShape::Bounds));
    let _ = ask(l.answer(Answer::Bounds(vec![])));
    let _ = ask(l.answer(Answer::Catalogue(vec![])));
    let m = done(l.answer(Answer::Counts(vec![40]))).unwrap();
    let pk = m.pk.unwrap();
    assert_eq!((pk.min_values[0], pk.max_values[0], pk.row_count), (0, 40, 40));
}

#[test]
fn null_key_bounds_count_as_zero() {
    let (mut l, _) = MetadataLoader::new("T");
    let _ = ask(l.answer(Answer::Names(vec!["PK1".to_string()])));
    let _ = ask(l.answer(Answer::Names(vec!["ID".to_string()])));
    let _ = ask(l.answer(Answer::TypeCodes(vec![8])));
    let _ = ask(l.answer(Answer::Counts(vec![5])));
    let _ = ask(l.answer(Answer::Bounds(vec![(None, Some(12))])));
    let _ = ask(l.answer(Answer::Catalogue(vec![])));
    let pk = done(l.answer(Answer::Counts(vec![5]))).unwrap().pk.unwrap();
    assert_eq!((pk.min_values[0], pk.max_values[0]), (0, 12));
}

fn meta(row_count: i64, pk: Option<PrimaryKeyInfo>) -> TableMetadata {
    TableMetadata { table_name: "T".to_string(), columns: vec![], row_count, has_blob: false, pk }
}

fn some_pk() -> PrimaryKeyInfo {
    PrimaryKeyInfo { columns: vec!["ID".to_string()], min_values: vec![0], max_values: vec![100], row_count: 10 }
}

#[test]
fn plans_by_size_and_key() {
    assert_eq!(plan_extraction(&meta(0, None)), ExtractionPlan::Skip);
    assert_eq!(plan_extraction(&meta(0, Some(some_pk()))), ExtractionPlan::Skip);
    assert_eq!(plan_extraction(&meta(10, Some(some_pk()))), ExtractionPlan::Parallel);
    assert_eq!(plan_extraction(&meta(10, None)), ExtractionPlan::Sequential);
    assert_eq!(plan_extraction(&meta(-1, None)), ExtractionPlan::Sequential);
}

#[test]
fn key_partitions_from_key_range() {
    let parts = key_partitions(&some_pk(), &vec![0, 50]);
    assert_eq!(parts, vec![(0, 50), (50, 100)]);
}

#[test]
fn writer_settings_follow_compression_flag() {
    let s = writer_settings(true);
    assert_eq!(s.compression, Compression::Snappy);
    assert_eq!(s.data_page_version, DataPageVersion::V2);
    assert!(s.dictionary_enabled);
    assert_eq!(s.write_batch_size, 500_000);
    assert_eq!(s.max_row_group_size, 1_000_000);
    assert_eq!(writer_settings(false).compression, Compression::Uncompressed);
}

#[test]
fn progress_reports_on_multiples() {
    assert!(progress_due(0));
    assert!(progress_due(500_000));
    assert!(progress_due(1_500_000));
    assert!(!progress_due(250_000));
    assert!(!progress_due(500_001));
    assert_eq!(add_batch_rows(500_000, 250_000), 750_000);
}

#[test]
fn every_query_has_the_awaited_shape() {
    let (mut l, q) = MetadataLoader::new("orders");
    assert!(l.expected_shape() == Some(q.shape));
    let answers = vec![
        Answer::Names(vec!["PK".to_string()]),
        Answer::Names(vec!["ID".to_string(), "LINE".to_string()]),
        Answer::TypeCodes(vec![8]),
        Answer::TypeCodes(vec![7]),
        Answer::Failed("no MON$ access".to_string()),
        Answer::Counts(vec![9]),
        Answer::Bounds(vec![(Some(1), Some(9))]),
        Answer::Catalogue(catalogue()),
        Answer::Counts(vec![-3]),
    ];
    for a in answers {
        let q = ask(l.answer(a));
        assert!(l.expected_shape() == Some(q.shape));
    }
    let m = done(l.answer(Answer::Counts(vec![9]))).unwrap();
    assert!(l.expected_shape().is_none());
    assert_eq!(m.pk.unwrap().columns, vec!["ID".to_string(), "LINE".to_string()]);
}

#[test]
fn failed_catalogue_keeps_message() {
    let (mut l, _) = MetadataLoader::new("T");
    let _ = ask(l.answer(Answer::Names(vec![])));
    match done(l.answer(Answer::Failed("table T does not exist".to_string()))) {
        Err(LoadError::QueryFailed(m)) => assert_eq!(m, "table T does not exist"),
        Ok(_) => panic!("the load should fail"),
    }
}
