use iotdb::bytes::{read_be_i32, read_be_i64, read_be_u32, read_be_u64, u32_as_i32, u64_as_i64};
use iotdb::common::{Compressor, DataType, Encoding, ProtocolVersion};
use iotdb::errors::IotDBError;

#[test]
fn data_type_codes_round_trip() {
    let all = [
        DataType::BOOLEAN,
        DataType::INT32,
        DataType::INT64,
        DataType::FLOAT,
        DataType::DOUBLE,
        DataType::TEXT,
    ];
    for (i, t) in all.iter().enumerate() {
        assert_eq!(t.to_code(), i as i32);
        assert_eq!(DataType::from_code(t.to_code()).unwrap(), *t);
    }
}

#[test]
fn data_type_unknown_code_is_an_error() {
    assert!(matches!(
        DataType::from_code(6),
        Err(IotDBError::UnknownVariant(6))
    ));
    assert!(matches!(
        DataType::from_code(-1),
        Err(IotDBError::UnknownVariant(-1))
    ));
}

#[test]
fn data_type_names_decode() {
    let names = ["BOOLEAN", "INT32", "INT64", "FLOAT", "DOUBLE", "TEXT"];
    let all = [
        DataType::BOOLEAN,
        DataType::INT32,
        DataType::INT64,
        DataType::FLOAT,
        DataType::DOUBLE,
        DataType::TEXT,
    ];
    for (name, t) in names.iter().zip(all.iter()) {
        assert_eq!(DataType::from_name(&name.to_string()).unwrap(), *t);
    }
    match DataType::from_name(&"VARCHAR".to_string()) {
        Err(IotDBError::UnknownTypeName(n)) => assert_eq!(n, "VARCHAR"),
        other => panic!("expected an unknown-type-name error, got {:?}", other),
    }
}

#[test]
fn encoding_codes_round_trip() {
    let all = [
        Encoding::PLAIN,
        Encoding::PlainDictionary,
        Encoding::RLE,
        Encoding::DIFF,
        Encoding::Ts2diff,
        Encoding::BITMAP,
        Encoding::GorillaV1,
        Encoding::REGULAR,
        Encoding::GORILLA,
    ];
    for (i, t) in all.iter().enumerate() {
        assert_eq!(t.to_code(), i as i32);
        assert_eq!(Encoding::from_code(t.to_code()).unwrap(), *t);
    }
    assert!(matches!(
        Encoding::from_code(9),
        Err(IotDBError::UnknownVariant(9))
    ));
    assert_eq!(Encoding::default(), Encoding::PLAIN);
}

#[test]
fn compressor_codes_round_trip() {
    let all = [
        Compressor::UNCOMPRESSED,
        Compressor::SNAPPY,
        Compressor::GZIP,
        Compressor::LZO,
        Compressor::SDT,
        Compressor::PAA,
        Compressor::PLA,
        Compressor::LZ4,
    ];
    for (i, t) in all.iter().enumerate() {
        assert_eq!(t.to_code(), i as i32);
        assert_eq!(Compressor::from_code(t.to_code()).unwrap(), *t);
    }
    assert!(matches!(
        Compressor::from_code(8),
        Err(IotDBError::UnknownVariant(8))
    ));
    assert_eq!(Compressor::default(), Compressor::SNAPPY);
}

#[test]
fn protocol_version_codes_round_trip() {
    let all = [
        ProtocolVersion::V1,
        ProtocolVersion::V2,
        ProtocolVersion::V3,
    ];
    for (i, t) in all.iter().enumerate() {
        assert_eq!(t.to_code(), i as i32);
        assert_eq!(ProtocolVersion::from_code(t.to_code()).unwrap(), *t);
    }
    assert!(matches!(
        ProtocolVersion::from_code(3),
        Err(IotDBError::UnknownVariant(3))
    ));
}

#[test]
fn big_endian_reads_are_exact() {
    assert_eq!(read_be_u32(&vec![0x12, 0x34, 0x56, 0x78]), 0x12345678);
    assert_eq!(read_be_i32(&vec![0xFF, 0xFF, 0xFF, 0xFF]), -1);
    assert_eq!(read_be_i32(&vec![0x80, 0x00, 0x00, 0x00]), i32::MIN);
    assert_eq!(read_be_i32(&vec![0x00, 0x00, 0x00, 0x2A, 0xEE]), 42);
    assert_eq!(
        read_be_u64(&vec![0x01, 0x02, 0x03, 0x04, 0x05, 0x06, 0x07, 0x08]),
        0x0102030405060708
    );
    assert_eq!(
        read_be_i64(&vec![0xFF, 0xFF, 0xFF, 0xFF, 0xFF, 0xFF, 0xFF, 0xFE]),
        -2
    );
    let ts: i64 = 1622400000000;
    assert_eq!(read_be_i64(&ts.to_be_bytes().to_vec()), ts);
}

#[test]
fn signed_reinterpretation_matches_two_s_complement() {
    assert_eq!(u32_as_i32(0), 0);
    assert_eq!(u32_as_i32(0x7FFF_FFFF), i32::MAX);
    assert_eq!(u32_as_i32(0x8000_0000), i32::MIN);
    assert_eq!(u32_as_i32(0xFFFF_FFFF), -1);
    assert_eq!(u64_as_i64(0x8000_0000_0000_0000), i64::MIN);
    assert_eq!(u64_as_i64(u64::MAX), -1);
    assert_eq!(u32_as_i32(36.5f32.to_bits()), 36.5f32.to_bits() as i32);
}
