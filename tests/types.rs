use sqlite_tiny::error::ErrorKind;
use sqlite_tiny::query::{bind_value, payload};
use sqlite_tiny::row::{blob_value, read_value, text_value};
use sqlite_tiny::types::{FromSqlite, IntoSqlite, RealBits, SqliteType};
use std::sync::Arc;

fn round_trip<T: IntoSqlite + FromSqlite + PartialEq + std::fmt::Debug + Copy>(value: T) {
    let bridged = value.into_sqlite().expect("failed to convert into the bridge");
    assert_eq!(T::from_sqlite(bridged).expect("failed to convert back"), value);
}

#[test]
fn integers_round_trip() {
    for value in [i8::MIN, -1, 0, 1, i8::MAX] {
        round_trip(value);
    }
    for value in [i16::MIN, 0, i16::MAX] {
        round_trip(value);
    }
    for value in [i32::MIN, 0, i32::MAX] {
        round_trip(value);
    }
    for value in [i64::MIN, 0, i64::MAX] {
        round_trip(value);
    }
    for value in [isize::MIN, 0, isize::MAX] {
        round_trip(value);
    }
    for value in [i64::MIN as i128, 0, i64::MAX as i128] {
        round_trip(value);
    }
    for value in [0u8, u8::MAX] {
        round_trip(value);
    }
    for value in [0u16, u16::MAX] {
        round_trip(value);
    }
    for value in [0u32, u32::MAX] {
        round_trip(value);
    }
    for value in [0u64, i64::MAX as u64] {
        round_trip(value);
    }
    for value in [0usize, i64::MAX as usize] {
        round_trip(value);
    }
    for value in [0u128, i64::MAX as u128] {
        round_trip(value);
    }
}

#[test]
fn integer_conversion_values() {
    assert_eq!(300u16.into_sqlite().expect("failed to convert"), SqliteType::Integer(300));
    assert_eq!((-5i8).into_sqlite().expect("failed to convert"), SqliteType::Integer(-5));
    assert_eq!(i32::from_sqlite(SqliteType::Integer(-7)).expect("failed to convert"), -7);
}

#[test]
fn oversized_integers_fail() {
    assert_eq!(u64::MAX.into_sqlite().unwrap_err().kind, ErrorKind::Conversion);
    assert_eq!((i64::MAX as u64 + 1).into_sqlite().unwrap_err().kind, ErrorKind::Conversion);
    assert_eq!(u128::MAX.into_sqlite().unwrap_err().kind, ErrorKind::Conversion);
    assert_eq!((i64::MIN as i128 - 1).into_sqlite().unwrap_err().kind, ErrorKind::Conversion);
    assert_eq!((i64::MAX as i128 + 1).into_sqlite().unwrap_err().kind, ErrorKind::Conversion);
}

#[test]
fn narrowing_out_of_range_fails() {
    assert_eq!(u8::from_sqlite(SqliteType::Integer(256)).unwrap_err().kind, ErrorKind::Conversion);
    assert_eq!(u8::from_sqlite(SqliteType::Integer(255)).expect("failed to convert"), 255);
    assert_eq!(i8::from_sqlite(SqliteType::Integer(-129)).unwrap_err().kind, ErrorKind::Conversion);
    assert_eq!(u32::from_sqlite(SqliteType::Integer(-1)).unwrap_err().kind, ErrorKind::Conversion);
    assert_eq!(u64::from_sqlite(SqliteType::Integer(-1)).unwrap_err().kind, ErrorKind::Conversion);
    assert_eq!(i32::from_sqlite(SqliteType::Integer(1 << 31)).unwrap_err().kind, ErrorKind::Conversion);
    assert_eq!(i128::from_sqlite(SqliteType::Integer(i64::MIN)).expect("failed to convert"), i64::MIN as i128);
}

#[test]
fn wrong_storage_class_fails() {
    assert_eq!(i32::from_sqlite(SqliteType::Text("1".to_string())).unwrap_err().kind, ErrorKind::Conversion);
    assert_eq!(String::from_sqlite(SqliteType::Integer(1)).unwrap_err().kind, ErrorKind::Conversion);
    assert_eq!(<Vec<u8>>::from_sqlite(SqliteType::Text("a".to_string())).unwrap_err().kind, ErrorKind::Conversion);
    assert_eq!(RealBits::from_sqlite(SqliteType::Integer(1)).unwrap_err().kind, ErrorKind::Conversion);
    // An optional read keeps "wrong class" apart from "absent"
    assert_eq!(<Option<i32>>::from_sqlite(SqliteType::Text("1".to_string())).unwrap_err().kind, ErrorKind::Conversion);
}

#[test]
fn reals_round_trip() {
    for value in [0.0f64, -1.5, 4.4, f64::MAX, f64::MIN_POSITIVE] {
        let bridged = RealBits(value.to_bits()).into_sqlite().expect("failed to convert");
        let back = RealBits::from_sqlite(bridged).expect("failed to convert back");
        assert_eq!(f64::from_bits(back.0), value);
    }
}

#[test]
fn absent_reads_as_none_for_every_type() {
    assert_eq!(read_value::<Option<i8>>(SqliteType::Null).expect("failed to read"), None);
    assert_eq!(read_value::<Option<u128>>(SqliteType::Null).expect("failed to read"), None);
    assert_eq!(read_value::<Option<usize>>(SqliteType::Null).expect("failed to read"), None);
    assert_eq!(read_value::<Option<RealBits>>(SqliteType::Null).expect("failed to read"), None);
    assert_eq!(read_value::<Option<String>>(SqliteType::Null).expect("failed to read"), None);
    assert_eq!(read_value::<Option<Arc<String>>>(SqliteType::Null).expect("failed to read"), None);
    assert_eq!(read_value::<Option<Vec<u8>>>(SqliteType::Null).expect("failed to read"), None);
    assert_eq!(read_value::<Option<[u8; 3]>>(SqliteType::Null).expect("failed to read"), None);
}

#[test]
fn absent_fails_as_plain_type() {
    assert_eq!(read_value::<i32>(SqliteType::Null).unwrap_err().kind, ErrorKind::Conversion);
    assert_eq!(read_value::<u8>(SqliteType::Null).unwrap_err().kind, ErrorKind::Conversion);
    assert_eq!(read_value::<RealBits>(SqliteType::Null).unwrap_err().kind, ErrorKind::Conversion);
    assert_eq!(read_value::<String>(SqliteType::Null).unwrap_err().kind, ErrorKind::Conversion);
    assert_eq!(read_value::<Arc<Vec<u8>>>(SqliteType::Null).unwrap_err().kind, ErrorKind::Conversion);
    assert_eq!(read_value::<Vec<u8>>(SqliteType::Null).unwrap_err().kind, ErrorKind::Conversion);
    assert_eq!(read_value::<[u8; 2]>(SqliteType::Null).unwrap_err().kind, ErrorKind::Conversion);
    let error = read_value::<i64>(SqliteType::Null).unwrap_err();
    assert_eq!(error.error, "Failed to load from SQLite type");
    assert!(error.source().is_some());
}

#[test]
fn empty_blob_is_empty_bytes() {
    assert_eq!(blob_value(None), SqliteType::Blob(Vec::new()));
    assert_eq!(blob_value(Some(Vec::new())), SqliteType::Blob(Vec::new()));
    assert_eq!(read_value::<Option<Vec<u8>>>(blob_value(None)).expect("failed to read"), Some(Vec::new()));
    assert_eq!(read_value::<[u8; 0]>(blob_value(None)).expect("failed to read"), []);
}

#[test]
fn bound_text_and_bytes_read_back() {
    let text = "Grüße, 世界 🌍";
    let bound = bind_value(text).expect("failed to bind");
    let bytes = payload(&bound).expect("missing payload").to_vec();
    assert_eq!(bytes, text.as_bytes());
    assert_eq!(read_value::<String>(text_value(bytes).expect("failed to read")).expect("failed to read"), text);

    let data = vec![0u8, 255, 7, 0, 1];
    let bound = bind_value(data.clone()).expect("failed to bind");
    let bytes = payload(&bound).expect("missing payload").to_vec();
    assert_eq!(read_value::<Vec<u8>>(blob_value(Some(bytes))).expect("failed to read"), data);

    assert!(payload(&SqliteType::Integer(1)).is_none());
    assert!(payload(&SqliteType::Null).is_none());
    assert!(payload(&SqliteType::Real(0)).is_none());
}

#[test]
fn shared_text_and_bytes_read() {
    let text = read_value::<Arc<String>>(SqliteType::Text("abc".to_string())).expect("failed to read");
    assert_eq!(text.as_str(), "abc");
    let bytes = read_value::<Arc<Vec<u8>>>(SqliteType::Blob(vec![9, 8])).expect("failed to read");
    assert_eq!(bytes.as_slice(), &[9, 8]);
}
