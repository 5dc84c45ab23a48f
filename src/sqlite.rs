//! What is decided before a database is opened or a statement is prepared

use crate::error::{Error, ErrorKind};
use vstd::prelude::*;
use vstd::string::StringSliceAdditionalSpecFns;

verus! {

/// Open the database for reading and writing
pub const SQLITE_OPEN_READWRITE: i32 = 0x2;

/// Create the database if it does not exist
pub const SQLITE_OPEN_CREATE: i32 = 0x4;

/// Interpret the location as a URI
pub const SQLITE_OPEN_URI: i32 = 0x40;

/// Serialize all use of the connection inside the engine
pub const SQLITE_OPEN_FULLMUTEX: i32 = 0x10000;

/// The bytes of a C string for `text`: its UTF-8 bytes and a terminating NUL
pub open spec fn c_bytes(text: &str) -> Seq<u8> {
    text.spec_bytes().push(0u8)
}

/// Whether `text` holds a NUL character, which a C string cannot carry
pub open spec fn has_nul(text: &str) -> bool {
    text.spec_bytes().contains(0u8)
}

/// The NUL-terminated bytes of `text`, or `None` where it holds a NUL
fn c_string(text: &str) -> (r: Option<Vec<u8>>)
    ensures
        match r {
            Some(bytes) => !has_nul(text) && bytes@ == c_bytes(text),
            None => has_nul(text),
        },
{
    let bytes = text.as_bytes();
    let mut out: Vec<u8> = Vec::new();
    let mut i: usize = 0;
    while i < bytes.len()
        invariant
            bytes@ == text.spec_bytes(),
            i <= bytes@.len(),
            out@ == bytes@.subrange(0, i as int),
            forall|j: int| 0 <= j < i ==> bytes@[j] != 0u8,
        decreases bytes@.len() - i,
    {
        if bytes[i] == 0u8 {
            return None;
        }
        out.push(bytes[i]);
        i = i + 1;
    }
    proof {
        assert(out@ =~= bytes@);
    }
    out.push(0u8);
    Some(out)
}

/// What the engine's open call is given: the location as a C string, and the
/// open flags
#[derive(Debug)]
pub struct OpenRequest {
    /// The NUL-terminated location
    pub location: Vec<u8>,
    /// The open flags, always including [`SQLITE_OPEN_FULLMUTEX`]
    pub flags: i32,
}

impl OpenRequest {
    /// Prepares to open or create an SQLite 3 database for reading and writing
    pub fn new(path: &str) -> (r: Result<OpenRequest, Error>)
        ensures
            match r {
                Ok(request) => {
                    &&& !has_nul(path)
                    &&& request.location@ == c_bytes(path)
                    &&& request.flags == SQLITE_OPEN_READWRITE | SQLITE_OPEN_CREATE | SQLITE_OPEN_FULLMUTEX
                },
                Err(e) => has_nul(path) && e.kind == ErrorKind::MalformedInput,
            },
    {
        OpenRequest::raw(path, SQLITE_OPEN_READWRITE | SQLITE_OPEN_CREATE)
    }

    /// Prepares to open an SQLite database from a URI
    pub fn uri(uri: &str) -> (r: Result<OpenRequest, Error>)
        ensures
            match r {
                Ok(request) => {
                    &&& !has_nul(uri)
                    &&& request.location@ == c_bytes(uri)
                    &&& request.flags == SQLITE_OPEN_READWRITE | SQLITE_OPEN_URI | SQLITE_OPEN_FULLMUTEX
                },
                Err(e) => has_nul(uri) && e.kind == ErrorKind::MalformedInput,
            },
    {
        OpenRequest::raw(uri, SQLITE_OPEN_READWRITE | SQLITE_OPEN_URI)
    }

    /// Prepares to open an SQLite database at the given location with the given
    /// flags, to which [`SQLITE_OPEN_FULLMUTEX`] is always added
    pub fn raw(location: &str, flags: i32) -> (r: Result<OpenRequest, Error>)
        ensures
            match r {
                Ok(request) => {
                    &&& !has_nul(location)
                    &&& request.location@ == c_bytes(location)
                    &&& request.flags == flags | SQLITE_OPEN_FULLMUTEX
                    &&& request.flags & SQLITE_OPEN_FULLMUTEX == SQLITE_OPEN_FULLMUTEX
                },
                Err(e) => has_nul(location) && e.kind == ErrorKind::MalformedInput,
            },
    {
        match c_string(location) {
            Some(bytes) => {
                proof {
                    assert((flags | 0x10000i32) & 0x10000i32 == 0x10000i32) by (bit_vector);
                }
                Ok(OpenRequest { location: bytes, flags: flags | SQLITE_OPEN_FULLMUTEX })
            },
            None => Err(
                Error::new(ErrorKind::MalformedInput, String::from_str("Invalid database location"), None),
            ),
        }
    }
}

/// The NUL-terminated text of an SQL query
pub fn sql_text(query: &str) -> (r: Result<Vec<u8>, Error>)
    ensures
        match r {
            Ok(bytes) => !has_nul(query) && bytes@ == c_bytes(query),
            Err(e) => has_nul(query) && e.kind == ErrorKind::MalformedInput,
        },
{
    match c_string(query) {
        Some(bytes) => Ok(bytes),
        None => Err(Error::new(ErrorKind::MalformedInput, String::from_str("Invalid database query"), None)),
    }
}

/// Checks that the engine was built thread safe (`level` is what it reports):
/// only then does [`SQLITE_OPEN_FULLMUTEX`] make a connection safe to share
pub fn check_threadsafe(level: i32) -> (r: Result<(), Error>)
    ensures
        match r {
            Ok(()) => level != 0,
            Err(e) => level == 0 && e.kind == ErrorKind::NotThreadsafe,
        },
{
    if level != 0 {
        Ok(())
    } else {
        Err(Error::new(ErrorKind::NotThreadsafe, String::from_str("SQLite is not compiled threadsafe"), None))
    }
}

} // verus!
