use peregrine_falcon_miramar::batch::AdaptiveBatchSizer;
use peregrine_falcon_miramar::column_type::{fb_to_arrow_type, ColumnType};
use peregrine_falcon_miramar::text::{decimal_chars, decimal_string, format_number, join_texts, string_from_chars};

#[test]
fn format_number_groups_thousands() {
    assert_eq!(format_number(0), "0");
    assert_eq!(format_number(7), "7");
    assert_eq!(format_number(999), "999");
    assert_eq!(format_number(1000), "1,000");
    assert_eq!(format_number(123456), "123,456");
    assert_eq!(format_number(1234567), "1,234,567");
    assert_eq!(format_number(500000), "500,000");
}

#[test]
fn format_number_negative_values() {
    assert_eq!(format_number(-1), "-1");
    assert_eq!(format_number(-1234), "-1,234");
    assert_eq!(format_number(-12345), "-12,345");
    // A separator may land right behind the sign when the digits come in
    // full groups of three.
    assert_eq!(format_number(-123456), "-,123,456");
}

#[test]
fn format_number_extremes() {
    assert_eq!(format_number(i64::MAX), "9,223,372,036,854,775,807");
    assert_eq!(format_number(i64::MIN), "-9,223,372,036,854,775,808");
}

#[test]
fn format_number_without_commas_is_decimal() {
    for n in [0i64, 5, 12, 999, 1000, 65536, 1234567890, -42, -1000, -999999, i64::MAX, i64::MIN] {
        let f = format_number(n);
        let stripped: String = f.chars().filter(|c| *c != ',').collect();
        assert_eq!(stripped, n.to_string());
    }
}

#[test]
fn decimal_text_matches_std() {
    for n in [0i64, 1, 9, 10, 99, 100, -1, -10, 4096, i64::MAX, i64::MIN, i64::MIN + 1] {
        assert_eq!(decimal_string(n), n.to_string());
        let chars: Vec<char> = decimal_chars(n);
        assert_eq!(chars, n.to_string().chars().collect::<Vec<char>>());
    }
}

#[test]
fn string_from_chars_keeps_order() {
    let v = vec!['a', 'é', 'z'];
    assert_eq!(string_from_chars(&v), "aéz");
    assert_eq!(string_from_chars(&Vec::new()), "");
}

#[test]
fn join_texts_separates_neighbours() {
    let parts = vec!["ID".to_string(), "NAME".to_string(), "PRICE".to_string()];
    assert_eq!(join_texts(&parts, ", "), "ID, NAME, PRICE");
    assert_eq!(join_texts(&vec!["ONLY".to_string()], ", "), "ONLY");
    assert_eq!(join_texts(&Vec::new(), ", "), "");
}

#[test]
fn field_types_map_to_column_types() {
    assert_eq!(fb_to_arrow_type(7, 0), (ColumnType::Int64, false));
    assert_eq!(fb_to_arrow_type(8, 0), (ColumnType::Int64, false));
    assert_eq!(fb_to_arrow_type(16, 3), (ColumnType::Int64, false));
    assert_eq!(fb_to_arrow_type(10, 0), (ColumnType::Float64, false));
    assert_eq!(fb_to_arrow_type(23, 0), (ColumnType::Float64, false));
    assert_eq!(fb_to_arrow_type(27, 0), (ColumnType::Float64, false));
    assert_eq!(fb_to_arrow_type(12, 1), (ColumnType::Utf8, true));
    assert_eq!(fb_to_arrow_type(12, 0), (ColumnType::Binary, false));
    assert_eq!(fb_to_arrow_type(12, 2), (ColumnType::Binary, false));
    assert_eq!(fb_to_arrow_type(14, 0), (ColumnType::Utf8, false));
    assert_eq!(fb_to_arrow_type(37, 0), (ColumnType::Utf8, false));
    assert_eq!(fb_to_arrow_type(35, 0), (ColumnType::Utf8, false));
    assert_eq!(fb_to_arrow_type(-1, 1), (ColumnType::Utf8, false));
}

#[test]
fn batch_sizes_by_table_size() {
    assert_eq!(AdaptiveBatchSizer::new(0, false).get_batch_size(), 500_000);
    assert_eq!(AdaptiveBatchSizer::new(199_999, false).get_batch_size(), 500_000);
    assert_eq!(AdaptiveBatchSizer::new(200_000, false).get_batch_size(), 500_000);
    assert_eq!(AdaptiveBatchSizer::new(9_999_999, false).get_batch_size(), 500_000);
    assert_eq!(AdaptiveBatchSizer::new(10_000_000, false).get_batch_size(), 750_000);
    assert_eq!(AdaptiveBatchSizer::new(50_000_000, false).get_batch_size(), 1_000_000);
    assert_eq!(AdaptiveBatchSizer::new(i64::MAX, false).get_batch_size(), 1_000_000);
    assert_eq!(AdaptiveBatchSizer::new(-5, false).get_batch_size(), 500_000);
}

#[test]
fn batch_sizes_with_text_blobs() {
    assert_eq!(AdaptiveBatchSizer::new(0, true).get_batch_size(), 500_000);
    assert_eq!(AdaptiveBatchSizer::new(1_000_000, true).get_batch_size(), 500_000);
    assert_eq!(AdaptiveBatchSizer::new(20_000_000, true).get_batch_size(), 500_000);
    assert_eq!(AdaptiveBatchSizer::new(60_000_000, true).get_batch_size(), 666_666);
}

#[test]
fn batch_size_laws_on_samples() {
    let counts = [i64::MIN, -1, 0, 150_000, 200_000, 5_000_000, 10_000_000, 49_999_999, 50_000_000, i64::MAX];
    for blob in [false, true] {
        let mut prev = 0usize;
        for c in counts {
            let b = AdaptiveBatchSizer::new(c, blob).get_batch_size();
            assert!(b >= 500_000 && b <= 1_000_000);
            assert!(b >= prev);
            prev = b;
        }
    }
    for c in counts {
        assert!(AdaptiveBatchSizer::new(c, true).get_batch_size() <= AdaptiveBatchSizer::new(c, false).get_batch_size());
    }
}
