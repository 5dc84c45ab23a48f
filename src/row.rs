//! Turning the engine's column data into bridge values and native values

use crate::error::{Error, ErrorKind};
use crate::types::{FromSqlite, SqliteType, SqliteValue};
use vstd::prelude::*;
use vstd::utf8::{decode_utf8, valid_utf8};

verus! {

/// Storage class code of an INTEGER column
pub const SQLITE_INTEGER: i32 = 1;

/// Storage class code of a REAL column
pub const SQLITE_FLOAT: i32 = 2;

/// Storage class code of a TEXT column
pub const SQLITE_TEXT: i32 = 3;

/// Storage class code of a BLOB column
pub const SQLITE_BLOB: i32 = 4;

/// Storage class code of a NULL column
pub const SQLITE_NULL: i32 = 5;

/// The dynamic storage class of a column in the current row
#[derive(Debug, Clone, Copy, PartialEq, Eq, Structural)]
pub enum ColumnType {
    Null,
    Integer,
    Float,
    Text,
    Blob,
}

/// The storage class that the engine's code `code` stands for
pub open spec fn column_type_of(code: i32) -> Option<ColumnType> {
    if code == SQLITE_NULL {
        Some(ColumnType::Null)
    } else if code == SQLITE_INTEGER {
        Some(ColumnType::Integer)
    } else if code == SQLITE_FLOAT {
        Some(ColumnType::Float)
    } else if code == SQLITE_TEXT {
        Some(ColumnType::Text)
    } else if code == SQLITE_BLOB {
        Some(ColumnType::Blob)
    } else {
        None
    }
}

/// The value that a text column with the bytes `bytes` reads as: the decoded
/// characters, where the bytes are valid UTF-8
pub open spec fn text_read(bytes: Seq<u8>) -> Option<SqliteValue> {
    if valid_utf8(bytes) {
        Some(SqliteValue::Text(decode_utf8(bytes)))
    } else {
        None
    }
}

/// The value that a blob column reads as, given its data, or `None` where the
/// engine gave no data (its way of storing an empty blob)
pub open spec fn blob_read(data: Option<Seq<u8>>) -> SqliteValue {
    match data {
        Some(bytes) => SqliteValue::Blob(bytes),
        None => SqliteValue::Blob(Seq::empty()),
    }
}

/// An empty blob reads back as a zero-length byte sequence and never as an
/// absent value, whether the engine gives no data for it or empty data; read as
/// optional bytes it is `Some` of no bytes
pub proof fn empty_blob_is_not_absent()
    ensures
        blob_read(None) == SqliteValue::Blob(Seq::<u8>::empty()),
        blob_read(Some(Seq::<u8>::empty())) == SqliteValue::Blob(Seq::<u8>::empty()),
        forall|data: Option<Seq<u8>>| !(#[trigger] blob_read(data) is Null),
        forall|x: Option<Vec<u8>>|
            #[trigger] <Option<Vec<u8>> as FromSqlite>::decodes(blob_read(None), x) ==> x is Some
                && x.unwrap()@.len() == 0,
{
}

/// Relies on `String::from_utf8`: it accepts exactly the byte sequences that are
/// valid UTF-8, and then holds the characters that they encode.
#[verifier::external_body]
fn string_from_utf8(bytes: Vec<u8>) -> (r: Option<String>)
    ensures
        match r {
            Some(s) => valid_utf8(bytes@) && s@ == decode_utf8(bytes@),
            None => !valid_utf8(bytes@),
        },
{
    String::from_utf8(bytes).ok()
}

/// Maps the engine's storage class code to a column type
pub fn column_type(code: i32) -> (r: Result<ColumnType, Error>)
    ensures
        match r {
            Ok(t) => column_type_of(code) == Some(t),
            Err(e) => column_type_of(code) is None && e.kind == ErrorKind::Conversion,
        },
{
    if code == SQLITE_NULL {
        Ok(ColumnType::Null)
    } else if code == SQLITE_INTEGER {
        Ok(ColumnType::Integer)
    } else if code == SQLITE_FLOAT {
        Ok(ColumnType::Float)
    } else if code == SQLITE_TEXT {
        Ok(ColumnType::Text)
    } else if code == SQLITE_BLOB {
        Ok(ColumnType::Blob)
    } else {
        let mut message = String::from_str("Unknown SQLite column type: ");
        let number = code.to_string();
        message.append(number.as_str());
        Err(Error::new(ErrorKind::Conversion, message, None))
    }
}

/// The value of a TEXT column whose content is `bytes`
pub fn text_value(bytes: Vec<u8>) -> (r: Result<SqliteType, Error>)
    ensures
        match r {
            Ok(v) => text_read(bytes@) == Some(v@),
            Err(e) => text_read(bytes@) is None && e.kind == ErrorKind::Conversion,
        },
{
    match string_from_utf8(bytes) {
        Some(text) => Ok(SqliteType::Text(text)),
        None => Err(
            Error::new(ErrorKind::Conversion, String::from_str("SQLite string is not valid UTF-8"), None),
        ),
    }
}

/// The value of a BLOB column whose data is `data`, `None` where the engine gave
/// no data
pub fn blob_value(data: Option<Vec<u8>>) -> (r: SqliteType)
    ensures
        r@ == blob_read(
            match data {
                Some(bytes) => Some(bytes@),
                None => None,
            },
        ),
{
    match data {
        Some(bytes) => SqliteType::Blob(bytes),
        None => SqliteType::Blob(Vec::new()),
    }
}

/// Reads the value of a column as the native type `T`
pub fn read_value<T: FromSqlite>(value: SqliteType) -> (r: Result<T, Error>)
    ensures
        match r {
            Ok(x) => T::decodable(value@) && T::decodes(value@, x),
            Err(e) => !T::decodable(value@) && e.kind == ErrorKind::Conversion,
        },
{
    match T::from_sqlite(value) {
        Ok(x) => Ok(x),
        Err(e) => Err(
            Error::new(
                ErrorKind::Conversion,
                String::from_str("Failed to load from SQLite type"),
                Some(Box::new(e)),
            ),
        ),
    }
}

} // verus!
