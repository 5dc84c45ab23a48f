//! What binding a parameter hands to the engine

use crate::error::{Error, ErrorKind};
use crate::row::{blob_read, text_read};
use crate::types::{IntoSqlite, SqliteType, SqliteValue};
use vstd::prelude::*;
use vstd::string::StringSliceAdditionalSpecFns;
use vstd::utf8::{encode_utf8, encode_utf8_decode_utf8, encode_utf8_valid_utf8};

verus! {

/// The bytes that binding a TEXT or BLOB value hands to the engine, which
/// copies them at once: the UTF-8 encoding of a text, the bytes of a blob
pub open spec fn bound_bytes(v: SqliteValue) -> Seq<u8> {
    match v {
        SqliteValue::Text(t) => encode_utf8(t),
        SqliteValue::Blob(b) => b,
        _ => Seq::empty(),
    }
}

/// Converts a native value into the dynamic value to bind
pub fn bind_value<T: IntoSqlite>(value: T) -> (r: Result<SqliteType, Error>)
    ensures
        match r {
            Ok(v) => value.encoded() == Some(v@),
            Err(e) => value.encoded() is None && e.kind == ErrorKind::Conversion,
        },
{
    match value.into_sqlite() {
        Ok(v) => Ok(v),
        Err(e) => Err(
            Error::new(
                ErrorKind::Conversion,
                String::from_str("Failed to convert value into SQLite type"),
                Some(Box::new(e)),
            ),
        ),
    }
}

/// The bytes to hand to the engine for a TEXT or BLOB value; `None` for the
/// other storage classes, which are bound by value
pub fn payload(value: &SqliteType) -> (r: Option<&[u8]>)
    ensures
        match r {
            Some(bytes) => (value@ is Text || value@ is Blob) && bytes@ == bound_bytes(value@),
            None => !(value@ is Text || value@ is Blob),
        },
{
    match value {
        SqliteType::Text(text) => Some(text.as_str().as_bytes()),
        SqliteType::Blob(bytes) => Some(bytes.as_slice()),
        _ => None,
    }
}

/// Text and bytes come back unchanged: the bytes that binding a TEXT or BLOB
/// value hands to the engine, read back from a column of that class, give the
/// bound value again
pub proof fn bound_payload_reads_back(v: SqliteValue)
    ensures
        v is Text ==> text_read(bound_bytes(v)) == Some(v),
        v is Blob ==> blob_read(Some(bound_bytes(v))) == v,
{
    if let SqliteValue::Text(t) = v {
        encode_utf8_valid_utf8(t);
        encode_utf8_decode_utf8(t);
    }
}

} // verus!
