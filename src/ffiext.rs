//! Result codes of the engine and the errors they stand for

use crate::error::{Error, ErrorKind};
use vstd::prelude::*;

verus! {

/// Successful result
pub const SQLITE_OK: i32 = 0;

/// A step produced a row
pub const SQLITE_ROW: i32 = 100;

/// A step finished the statement
pub const SQLITE_DONE: i32 = 101;

/// The message of an engine error: the engine's text for the result code
/// ("Unknown" where it has none), followed by the connection's own last error
/// text in parentheses where a connection is known.
pub open spec fn last_error_text(errstr: Option<&str>, errmsg: Option<&str>) -> Seq<char> {
    let code_text = match errstr {
        Some(s) => s@,
        None => "Unknown"@,
    };
    match errmsg {
        Some(m) => "SQLite error: "@ + code_text + " ("@ + m@ + ")"@,
        None => "SQLite error: "@ + code_text,
    }
}

/// Builds the error for the engine result code `retval`
///
/// `errstr` is the engine's text for the code, `errmsg` the last error text of
/// the connection, where the call was made on one.
pub fn sqlite3_last_error(retval: i32, errstr: Option<&str>, errmsg: Option<&str>) -> (r: Error)
    ensures
        r.kind == ErrorKind::Engine(retval),
        r.error@ == last_error_text(errstr, errmsg),
        r.source is None,
{
    let mut message = String::from_str("SQLite error: ");
    match errstr {
        Some(s) => message.append(s),
        None => message.append("Unknown"),
    }
    match errmsg {
        Some(m) => {
            message.append(" (");
            message.append(m);
            message.append(")");
        },
        None => {},
    }
    Error::new(ErrorKind::Engine(retval), message, None)
}

/// Maps a result code to a `Result`
pub fn sqlite3_check_result(retval: i32, errstr: Option<&str>, errmsg: Option<&str>) -> (r: Result<(), Error>)
    ensures
        match r {
            Ok(()) => retval == SQLITE_OK,
            Err(e) => retval != SQLITE_OK && e.kind == ErrorKind::Engine(retval) && e.error@
                == last_error_text(errstr, errmsg),
        },
{
    if retval == SQLITE_OK {
        Ok(())
    } else {
        Err(sqlite3_last_error(retval, errstr, errmsg))
    }
}

} // verus!
