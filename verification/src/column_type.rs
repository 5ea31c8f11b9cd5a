//! The Arrow column type each Firebird field type is exported as.

use vstd::prelude::*;

verus! {

/// The Arrow type of an exported column.
#[derive(Clone, Copy, Debug, PartialEq, Eq, Structural)]
pub enum ColumnType {
    /// 64-bit signed integers.
    Int64,
    /// 64-bit floating point numbers.
    Float64,
    /// UTF-8 text.
    Utf8,
    /// Raw bytes.
    Binary,
}

/// The Firebird field type codes that name integer types: SMALLINT (7),
/// INTEGER (8) and BIGINT (16).
pub open spec fn is_integer_field_type(fb_type: i16) -> bool {
    fb_type == 7 || fb_type == 8 || fb_type == 16
}

/// The column type and text-blob flag for a Firebird field type and subtype:
/// integers become `Int64`, FLOAT (10, 23) and DOUBLE (27) become `Float64`,
/// a BLOB (12) of subtype 1 (text) becomes `Utf8` flagged as a text blob and
/// any other BLOB becomes `Binary`; CHAR (14), VARCHAR (37) and every other
/// code become `Utf8`.
pub open spec fn column_type_of(fb_type: i16, subtype: i16) -> (ColumnType, bool) {
    if is_integer_field_type(fb_type) {
        (ColumnType::Int64, false)
    } else if fb_type == 10 || fb_type == 23 || fb_type == 27 {
        (ColumnType::Float64, false)
    } else if fb_type == 12 {
        if subtype == 1 { (ColumnType::Utf8, true) } else { (ColumnType::Binary, false) }
    } else {
        (ColumnType::Utf8, false)
    }
}

/// Maps a Firebird field type and subtype to the exported column type and
/// whether the column is a text blob.
pub fn fb_to_arrow_type(fb_type: i16, subtype: i16) -> (r: (ColumnType, bool))
    ensures
        r == column_type_of(fb_type, subtype),
        r.0 == ColumnType::Int64 <==> (fb_type == 7 || fb_type == 8 || fb_type == 16),
        r.0 == ColumnType::Float64 <==> (fb_type == 10 || fb_type == 23 || fb_type == 27),
        r.0 == ColumnType::Binary <==> (fb_type == 12 && subtype != 1),
        r.1 <==> (fb_type == 12 && subtype == 1),
{
    match fb_type {
        7 => (ColumnType::Int64, false),
        8 => (ColumnType::Int64, false),
        16 => (ColumnType::Int64, false),
        10 => (ColumnType::Float64, false),
        27 => (ColumnType::Float64, false),
        12 => {
            if subtype == 1 {
                (ColumnType::Utf8, true)
            } else {
                (ColumnType::Binary, false)
            }
        },
        14 => (ColumnType::Utf8, false),
        37 => (ColumnType::Utf8, false),
        23 => (ColumnType::Float64, false),
        _ => (ColumnType::Utf8, false),
    }
}

/// Every field type that qualifies as a numeric primary key is exported as
/// an `Int64` column that is not a text blob, whatever its subtype.
pub proof fn integer_key_types_export_as_int64(fb_type: i16, subtype: i16)
    requires
        is_integer_field_type(fb_type),
    ensures
        column_type_of(fb_type, subtype) == (ColumnType::Int64, false),
{
}

/// Only a BLOB of the text subtype is flagged as a text blob, and such a
/// column is always `Utf8`.
pub proof fn text_blob_flag_only_on_text_blobs(fb_type: i16, subtype: i16)
    ensures
        column_type_of(fb_type, subtype).1 <==> (fb_type == 12 && subtype == 1),
        column_type_of(fb_type, subtype).1 ==> column_type_of(fb_type, subtype).0 == ColumnType::Utf8,
{
}


/// The whole mapping, code by code: only SMALLINT (7), INTEGER (8) and
/// BIGINT (16) become `Int64`; only FLOAT (10, 23) and DOUBLE (27) become
/// `Float64`; only a BLOB (12) becomes `Binary`, unless its subtype is text
/// (1), which becomes a `Utf8` text blob; every other code, whatever its
/// subtype, becomes a plain `Utf8` column.
pub proof fn field_type_mapping(fb_type: i16, subtype: i16)
    ensures
        column_type_of(fb_type, subtype).0 == ColumnType::Int64 <==> (fb_type == 7 || fb_type == 8 || fb_type == 16),
        column_type_of(fb_type, subtype).0 == ColumnType::Float64 <==> (fb_type == 10 || fb_type == 23 || fb_type == 27),
        column_type_of(fb_type, subtype).0 == ColumnType::Binary <==> (fb_type == 12 && subtype != 1),
        column_type_of(fb_type, subtype).1 <==> (fb_type == 12 && subtype == 1),
        !(fb_type == 7 || fb_type == 8 || fb_type == 16 || fb_type == 10 || fb_type == 23 || fb_type == 27 || fb_type == 12)
            ==> column_type_of(fb_type, subtype) == (ColumnType::Utf8, false),
{
}

} // verus!
