//! A small, verified core for working with an embedded SQLite engine: the
//! dynamic value bridge, the error channel, result-code handling, the row
//! cursor protocol and the checks made before text is handed to the engine.

pub mod answer;
pub mod error;
pub mod ffiext;
pub mod query;
pub mod row;
pub mod sqlite;
pub mod types;

use vstd::prelude::*;

verus! {

/// Integer division rounding toward zero, as Rust's `/` does
pub open spec fn div_toward_zero(a: int, b: int) -> int {
    if a >= 0 {
        a / b
    } else {
        -((-a) / b)
    }
}

/// The remainder that goes with [`div_toward_zero`], as Rust's `%` gives it
pub open spec fn rem_toward_zero(a: int, b: int) -> int {
    a - b * div_toward_zero(a, b)
}

/// Splits an engine version number `major * 1_000_000 + minor * 1_000 + patch`
/// into its `(major, minor, patch)` triple
pub fn version(number: i32) -> (r: (i32, i32, i32))
    ensures
        r.0 == rem_toward_zero(div_toward_zero(number as int, 1_000_000), 1000),
        r.1 == rem_toward_zero(div_toward_zero(number as int, 1000), 1000),
        r.2 == rem_toward_zero(number as int, 1000),
{
    let major = (number / 1_000_000) % 1000;
    let minor = (number / 1_000) % 1000;
    let patch = number % 1000;
    (major, minor, patch)
}

} // verus!
