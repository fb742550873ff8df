use iotdb::common::DataType;
use iotdb::dataset::{decode_cell, is_cell_present, resp_to_rows, DataSet};
use iotdb::errors::IotDBError;
use iotdb::rpc::{TSExecuteStatementResp, TSQueryDataSet, TSStatus};

fn ok_status() -> TSStatus {
    TSStatus {
        code: 200,
        message: None,
    }
}

#[test]
fn fresh_fields_are_null() {
    let f = iotdb::dataset::Field::new(DataType::INT64);
    assert_eq!(f.data_type, DataType::INT64);
    assert_eq!(f.long_value, None);
    assert_eq!(f.binary_value, None);
    let d = iotdb::dataset::Field::default();
    assert_eq!(d.data_type, DataType::TEXT);
    assert_eq!(d.binary_value, None);
}

#[test]
fn bitmap_byte_selects_rows_msb_first() {
    // For bitmap byte 0b1011_0000 the populated rows are exactly 0, 2 and 3.
    let bitmap: u8 = 0b1011_0000;
    for r in 0..8 {
        let expected = matches!(r, 0 | 2 | 3);
        assert_eq!(is_cell_present(bitmap, r), expected);
    }
}

#[test]
fn bitmap_nulls_consume_no_value_bytes() {
    // One BOOLEAN column, bitmap byte 0b1011_0000, three value bytes: rows
    // 0, 2 and 3 are populated, row 1 is null and consumes nothing.
    let columns = vec!["root.sg.d0.s0".to_string()];
    let types = vec![DataType::BOOLEAN];
    let rows = resp_to_rows(
        &columns,
        &types,
        &None,
        &vec![vec![0b1011_0000]],
        vec![vec![1, 1, 1]],
        vec![],
    )
    .unwrap();
    assert_eq!(rows.len(), 4);
    assert_eq!(rows[0].fields[0].bool_value, Some(true));
    assert_eq!(rows[1].fields[0].bool_value, None);
    assert_eq!(rows[1].fields[0].data_type, DataType::BOOLEAN);
    assert_eq!(rows[2].fields[0].bool_value, Some(true));
    assert_eq!(rows[3].fields[0].bool_value, Some(true));
    for row in &rows {
        assert_eq!(row.timestamp, None);
    }
}

#[test]
fn text_cell_consumes_length_prefix_plus_payload() {
    // A TEXT cell with length prefix 5 and payload "hello" consumes exactly
    // nine bytes; trailing bytes are left alone.
    let buf = vec![0, 0, 0, 5, b'h', b'e', b'l', b'l', b'o', 0xAA, 0xBB];
    let (field, consumed) = decode_cell(DataType::TEXT, &buf).unwrap();
    assert_eq!(consumed, 9);
    assert_eq!(field.binary_value, Some(b"hello".to_vec()));
    assert_eq!(field.data_type, DataType::TEXT);
}

#[test]
fn text_cell_with_negative_length_is_a_decode_error() {
    let buf = vec![0xFF, 0xFF, 0xFF, 0xFF, 1, 2, 3];
    assert!(matches!(
        decode_cell(DataType::TEXT, &buf),
        Err(IotDBError::Decode)
    ));
}

#[test]
fn exhausted_buffer_mid_field_is_a_decode_error() {
    assert!(matches!(
        decode_cell(DataType::INT32, &vec![0, 1]),
        Err(IotDBError::Decode)
    ));
    assert!(matches!(
        decode_cell(DataType::INT64, &vec![0, 1, 2, 3]),
        Err(IotDBError::Decode)
    ));
    assert!(matches!(
        decode_cell(DataType::TEXT, &vec![0, 0, 0, 9, b'x']),
        Err(IotDBError::Decode)
    ));
    // The same through the row decoder: one populated INT32 cell over a
    // two-byte buffer.
    let columns = vec!["s".to_string()];
    let r = resp_to_rows(
        &columns,
        &vec![DataType::INT32],
        &None,
        &vec![vec![0x80]],
        vec![vec![0, 1]],
        vec![],
    );
    assert!(matches!(r, Err(IotDBError::Decode)));
}

#[test]
fn every_scalar_type_decodes_big_endian() {
    let columns = vec![
        "b".to_string(),
        "i".to_string(),
        "l".to_string(),
        "f".to_string(),
        "d".to_string(),
        "t".to_string(),
    ];
    let types = vec![
        DataType::BOOLEAN,
        DataType::INT32,
        DataType::INT64,
        DataType::FLOAT,
        DataType::DOUBLE,
        DataType::TEXT,
    ];
    let bitmaps = vec![vec![0x80u8]; 6];
    let values = vec![
        vec![1],
        (-7i32).to_be_bytes().to_vec(),
        (1i64 << 40).to_be_bytes().to_vec(),
        3.5f32.to_be_bytes().to_vec(),
        (-2.25f64).to_be_bytes().to_vec(),
        vec![0, 0, 0, 2, b'o', b'k'],
    ];
    let rows = resp_to_rows(&columns, &types, &None, &bitmaps, values, vec![]).unwrap();
    assert_eq!(rows.len(), 1);
    let row = &rows[0];
    assert_eq!(row.fields[0].bool_value, Some(true));
    assert_eq!(row.fields[1].int_value, Some(-7));
    assert_eq!(row.fields[2].long_value, Some(1i64 << 40));
    assert_eq!(row.fields[3].float_value, Some(3.5f32.to_bits()));
    assert_eq!(row.fields[4].double_value, Some((-2.25f64).to_bits()));
    assert_eq!(row.fields[5].binary_value, Some(b"ok".to_vec()));
}

#[test]
fn empty_value_buffers_decode_to_zero_rows() {
    // Termination: value buffers that are all empty from the start yield no
    // rows, even when a timestamp buffer is present.
    let columns = vec!["a".to_string(), "b".to_string()];
    let types = vec![DataType::INT32, DataType::INT32];
    let time = 5i64.to_be_bytes().to_vec();
    let rows = resp_to_rows(
        &columns,
        &types,
        &None,
        &vec![vec![0x80], vec![0x80]],
        vec![vec![], vec![]],
        time,
    )
    .unwrap();
    assert_eq!(rows.len(), 0);
}

#[test]
fn unreachable_leftover_bytes_are_a_decode_error() {
    // An all-zero bitmap never lets the one value byte be consumed: after a
    // full eight-row bitmap cycle without progress, the payload is corrupt.
    let columns = vec!["s".to_string()];
    let r = resp_to_rows(
        &columns,
        &vec![DataType::BOOLEAN],
        &None,
        &vec![vec![0x00]],
        vec![vec![1]],
        vec![],
    );
    assert!(matches!(r, Err(IotDBError::Decode)));
}

#[test]
fn null_streaks_end_when_a_later_row_consumes() {
    // Bitmap 0b0000_0001 populates only the last row of each eight-row
    // cycle: seven null rows precede each consuming row, across two full
    // cycles, and decoding still terminates with all sixteen rows.
    let columns = vec!["s".to_string()];
    let rows = resp_to_rows(
        &columns,
        &vec![DataType::BOOLEAN],
        &None,
        &vec![vec![0b0000_0001]],
        vec![vec![1, 0]],
        vec![],
    )
    .unwrap();
    assert_eq!(rows.len(), 16);
    for r in 0..16 {
        if r == 7 {
            assert_eq!(rows[r].fields[0].bool_value, Some(true));
        } else if r == 15 {
            assert_eq!(rows[r].fields[0].bool_value, Some(false));
        } else {
            assert_eq!(rows[r].fields[0].bool_value, None);
        }
    }
}

#[test]
fn rows_are_built_cell_by_cell() {
    let mut row = iotdb::dataset::ValueRow::new();
    assert_eq!(row.timestamp, None);
    assert_eq!(row.fields.len(), 0);
    row.timestamp(42);
    row.add_field(iotdb::dataset::Field::new(DataType::INT32));
    assert_eq!(row.timestamp, Some(42));
    assert_eq!(row.fields.len(), 1);
    assert_eq!(row.fields[0].int_value, None);
}

#[test]
fn timestamps_come_from_the_shared_time_buffer() {
    let columns = vec!["s".to_string()];
    let types = vec![DataType::BOOLEAN];
    let mut time = 100i64.to_be_bytes().to_vec();
    time.extend_from_slice(&(-3i64).to_be_bytes());
    let rows = resp_to_rows(
        &columns,
        &types,
        &None,
        &vec![vec![0xC0]],
        vec![vec![1, 0]],
        time,
    )
    .unwrap();
    assert_eq!(rows.len(), 2);
    assert_eq!(rows[0].timestamp, Some(100));
    assert_eq!(rows[0].fields[0].bool_value, Some(true));
    assert_eq!(rows[1].timestamp, Some(-3));
    assert_eq!(rows[1].fields[0].bool_value, Some(false));
}

#[test]
fn truncated_time_buffer_is_a_decode_error() {
    let columns = vec!["s".to_string()];
    let r = resp_to_rows(
        &columns,
        &vec![DataType::BOOLEAN],
        &None,
        &vec![vec![0x80]],
        vec![vec![1]],
        vec![1, 2, 3],
    );
    assert!(matches!(r, Err(IotDBError::Decode)));
}

#[test]
fn remap_table_redirects_columns_to_their_buffers() {
    // The name list says (a, b) but the physical buffers are ordered (b, a):
    // the remap table sends each column to its buffer.
    let columns = vec!["a".to_string(), "b".to_string()];
    let types = vec![DataType::INT32, DataType::BOOLEAN];
    let remap = Some(vec![("a".to_string(), 1), ("b".to_string(), 0)]);
    let bitmaps = vec![vec![0x80u8], vec![0x80u8]];
    let values = vec![vec![1], 42i32.to_be_bytes().to_vec()];
    let rows = resp_to_rows(&columns, &types, &remap, &bitmaps, values, vec![]).unwrap();
    assert_eq!(rows.len(), 1);
    assert_eq!(rows[0].fields[0].int_value, Some(42));
    assert_eq!(rows[0].fields[1].bool_value, Some(true));
}

#[test]
fn remap_falls_back_to_the_logical_position_for_missing_names() {
    // Only column "b" is remapped; "a" is absent from the table and keeps its
    // logical position 0.
    let columns = vec!["a".to_string(), "b".to_string()];
    let types = vec![DataType::BOOLEAN, DataType::BOOLEAN];
    let remap = Some(vec![("b".to_string(), 1)]);
    let rows = resp_to_rows(
        &columns,
        &types,
        &remap,
        &vec![vec![0x80], vec![0x80]],
        vec![vec![1], vec![0]],
        vec![],
    )
    .unwrap();
    assert_eq!(rows[0].fields[0].bool_value, Some(true));
    assert_eq!(rows[0].fields[1].bool_value, Some(false));
}

#[test]
fn remap_to_a_missing_buffer_is_a_decode_error() {
    let columns = vec!["a".to_string()];
    let remap = Some(vec![("a".to_string(), 9)]);
    let r = resp_to_rows(
        &columns,
        &vec![DataType::BOOLEAN],
        &remap,
        &vec![vec![0x80]],
        vec![vec![1]],
        vec![],
    );
    assert!(matches!(r, Err(IotDBError::Decode)));
}

#[test]
fn response_without_payload_yields_the_empty_batch() {
    let resp = TSExecuteStatementResp {
        status: ok_status(),
        columns: None,
        data_type_list: None,
        column_name_index_map: None,
        ignore_time_stamp: None,
        query_id: Some(4),
        query_data_set: None,
    };
    let ds = DataSet::new("show storage group".to_string(), 7, 1024, resp).unwrap();
    assert!(ds.record_batch.is_empty);
    assert_eq!(ds.record_batch.columns.len(), 0);
    assert_eq!(ds.record_batch.values.len(), 0);
    assert_eq!(ds.query_id, Some(4));
    assert_eq!(ds.session_id, 7);
    assert_eq!(ds.fetch_size, 1024);
}

#[test]
fn unknown_type_name_in_header_is_an_error() {
    let resp = TSExecuteStatementResp {
        status: ok_status(),
        columns: Some(vec!["s".to_string()]),
        data_type_list: Some(vec!["DECIMAL".to_string()]),
        column_name_index_map: None,
        ignore_time_stamp: None,
        query_id: None,
        query_data_set: Some(TSQueryDataSet {
            time: vec![],
            bitmap_list: vec![vec![0x80]],
            value_list: vec![vec![]],
        }),
    };
    match DataSet::new("q".to_string(), 1, 10, resp) {
        Err(IotDBError::UnknownTypeName(n)) => assert_eq!(n, "DECIMAL"),
        other => panic!("expected an unknown-type-name error, got {:?}", other),
    }
}

#[test]
fn payload_without_column_names_is_a_decode_error() {
    let resp = TSExecuteStatementResp {
        status: ok_status(),
        columns: None,
        data_type_list: None,
        column_name_index_map: None,
        ignore_time_stamp: None,
        query_id: None,
        query_data_set: Some(TSQueryDataSet {
            time: vec![],
            bitmap_list: vec![],
            value_list: vec![],
        }),
    };
    assert!(matches!(
        DataSet::new("q".to_string(), 1, 10, resp),
        Err(IotDBError::Decode)
    ));
}

#[test]
fn headers_prepend_time_unless_suppressed() {
    let make = |ignore| {
        let resp = TSExecuteStatementResp {
            status: ok_status(),
            columns: Some(vec!["c1".to_string()]),
            data_type_list: Some(vec!["BOOLEAN".to_string()]),
            column_name_index_map: None,
            ignore_time_stamp: ignore,
            query_id: None,
            query_data_set: Some(TSQueryDataSet {
                time: vec![],
                bitmap_list: vec![vec![0x80]],
                value_list: vec![vec![]],
            }),
        };
        DataSet::new("q".to_string(), 1, 10, resp).unwrap()
    };
    assert_eq!(make(None).headers(), vec!["Time", "c1"]);
    assert_eq!(make(Some(false)).headers(), vec!["Time", "c1"]);
    assert_eq!(make(Some(true)).headers(), vec!["c1"]);
}
