//! Bridge types between SQLite's dynamic storage classes and native values

use crate::error::{Error, ErrorKind};
use std::sync::Arc;
use vstd::array::array_fill_for_copy_types;
use vstd::slice::slice_to_vec;
use vstd::prelude::*;

verus! {

/// An SQLite convertible value
#[derive(Debug, Clone, PartialEq)]
pub enum SqliteType {
    /// NULL
    Null,
    /// INTEGER
    Integer(i64),
    /// REAL, held as the bit pattern of an IEEE 754 binary64 number
    Real(u64),
    /// TEXT
    Text(String),
    /// BLOB
    Blob(Vec<u8>),
}

/// The mathematical value of an [`SqliteType`]
pub enum SqliteValue {
    /// An absent value
    Null,
    /// An integer
    Integer(int),
    /// The bit pattern of a binary64 number
    Real(u64),
    /// The characters of a text
    Text(Seq<char>),
    /// A byte sequence
    Blob(Seq<u8>),
}

impl View for SqliteType {
    type V = SqliteValue;

    open spec fn view(&self) -> SqliteValue {
        match self {
            SqliteType::Null => SqliteValue::Null,
            SqliteType::Integer(i) => SqliteValue::Integer(*i as int),
            SqliteType::Real(bits) => SqliteValue::Real(*bits),
            SqliteType::Text(s) => SqliteValue::Text(s@),
            SqliteType::Blob(b) => SqliteValue::Blob(b@),
        }
    }
}

/// A REAL value as the bit pattern of an IEEE 754 binary64 number
#[derive(Debug, Clone, Copy, PartialEq, Eq, Structural)]
pub struct RealBits(pub u64);

/// Whether an integer fits the bridge's 64-bit signed integer
pub open spec fn fits_i64(i: int) -> bool {
    i64::MIN <= i <= i64::MAX
}

/// The error for a value that does not fit the requested side of the bridge
fn conversion_error() -> (r: Error)
    ensures
        r.kind == ErrorKind::Conversion,
        r.source is None,
{
    Error::new(ErrorKind::Conversion, String::from_str("Failed to convert SQLite type"), None)
}

/// A native value that becomes a dynamic SQLite value
pub trait IntoSqlite: Sized {
    /// The dynamic value that `self` becomes, or `None` where it does not fit
    spec fn encoded(self) -> Option<SqliteValue>;

    /// Converts the value into a dynamic SQLite value
    fn into_sqlite(self) -> (r: Result<SqliteType, Error>)
        ensures
            match r {
                Ok(v) => self.encoded() == Some(v@),
                Err(e) => self.encoded() is None && e.kind == ErrorKind::Conversion,
            },
    ;
}

/// A native value that a dynamic SQLite value can be read as
pub trait FromSqlite: Sized {
    /// Whether `v` can be read as this type
    spec fn decodable(v: SqliteValue) -> bool;

    /// Whether reading `v` gives `x`
    spec fn decodes(v: SqliteValue, x: Self) -> bool;

    /// Reads a dynamic SQLite value as this type
    fn from_sqlite(v: SqliteType) -> (r: Result<Self, Error>)
        ensures
            match r {
                Ok(x) => Self::decodable(v@) && Self::decodes(v@, x),
                Err(e) => !Self::decodable(v@) && e.kind == ErrorKind::Conversion,
            },
    ;
}

/// A native integer type, read and written through the bridge's 64-bit integer
pub trait NativeInteger: Sized {
    /// The integer's value
    spec fn as_int(self) -> int;

    /// The least value of the type
    spec fn min_int() -> int;

    /// The greatest value of the type
    spec fn max_int() -> int;

    /// Every value lies in the type's range, and values are told apart by their integer
    proof fn lemma_as_int(a: Self, b: Self)
        ensures
            Self::min_int() <= a.as_int() <= Self::max_int(),
            a.as_int() == b.as_int() ==> a == b,
    ;

    /// The value as a 64-bit signed integer, where it fits
    fn to_i64(self) -> (r: Option<i64>)
        ensures
            match r {
                Some(i) => i as int == self.as_int(),
                None => !fits_i64(self.as_int()),
            },
    ;

    /// The value of this type equal to `i`, where there is one
    fn from_i64(i: i64) -> (r: Option<Self>)
        ensures
            match r {
                Some(x) => x.as_int() == i as int,
                None => !(Self::min_int() <= i as int <= Self::max_int()),
            },
    ;
}

impl<T: NativeInteger> IntoSqlite for T {
    open spec fn encoded(self) -> Option<SqliteValue> {
        if fits_i64(self.as_int()) {
            Some(SqliteValue::Integer(self.as_int()))
        } else {
            None
        }
    }

    fn into_sqlite(self) -> (r: Result<SqliteType, Error>) {
        match self.to_i64() {
            Some(i) => Ok(SqliteType::Integer(i)),
            None => Err(conversion_error()),
        }
    }
}

impl<T: NativeInteger> FromSqlite for T {
    open spec fn decodable(v: SqliteValue) -> bool {
        match v {
            SqliteValue::Integer(i) => T::min_int() <= i <= T::max_int(),
            _ => false,
        }
    }

    open spec fn decodes(v: SqliteValue, x: T) -> bool {
        v == SqliteValue::Integer(x.as_int())
    }

    fn from_sqlite(v: SqliteType) -> (r: Result<T, Error>) {
        match v {
            SqliteType::Integer(i) => match T::from_i64(i) {
                Some(x) => {
                    proof {
                        T::lemma_as_int(x, x);
                    }
                    Ok(x)
                },
                None => Err(conversion_error()),
            },
            _ => Err(conversion_error()),
        }
    }
}

impl NativeInteger for i8 {
    open spec fn as_int(self) -> int {
        self as int
    }

    open spec fn min_int() -> int {
        i8::MIN as int
    }

    open spec fn max_int() -> int {
        i8::MAX as int
    }

    proof fn lemma_as_int(a: i8, b: i8) {
    }

    fn to_i64(self) -> (r: Option<i64>) {
        Some(self as i64)
    }

    fn from_i64(i: i64) -> (r: Option<i8>) {
        if i8::MIN as i64 <= i && i <= i8::MAX as i64 {
            Some(i as i8)
        } else {
            None
        }
    }
}

impl NativeInteger for i16 {
    open spec fn as_int(self) -> int {
        self as int
    }

    open spec fn min_int() -> int {
        i16::MIN as int
    }

    open spec fn max_int() -> int {
        i16::MAX as int
    }

    proof fn lemma_as_int(a: i16, b: i16) {
    }

    fn to_i64(self) -> (r: Option<i64>) {
        Some(self as i64)
    }

    fn from_i64(i: i64) -> (r: Option<i16>) {
        if i16::MIN as i64 <= i && i <= i16::MAX as i64 {
            Some(i as i16)
        } else {
            None
        }
    }
}

impl NativeInteger for i32 {
    open spec fn as_int(self) -> int {
        self as int
    }

    open spec fn min_int() -> int {
        i32::MIN as int
    }

    open spec fn max_int() -> int {
        i32::MAX as int
    }

    proof fn lemma_as_int(a: i32, b: i32) {
    }

    fn to_i64(self) -> (r: Option<i64>) {
        Some(self as i64)
    }

    fn from_i64(i: i64) -> (r: Option<i32>) {
        if i32::MIN as i64 <= i && i <= i32::MAX as i64 {
            Some(i as i32)
        } else {
            None
        }
    }
}

impl NativeInteger for i64 {
    open spec fn as_int(self) -> int {
        self as int
    }

    open spec fn min_int() -> int {
        i64::MIN as int
    }

    open spec fn max_int() -> int {
        i64::MAX as int
    }

    proof fn lemma_as_int(a: i64, b: i64) {
    }

    fn to_i64(self) -> (r: Option<i64>) {
        Some(self as i64)
    }

    fn from_i64(i: i64) -> (r: Option<i64>) {
        Some(i)
    }
}

impl NativeInteger for isize {
    open spec fn as_int(self) -> int {
        self as int
    }

    open spec fn min_int() -> int {
        isize::MIN as int
    }

    open spec fn max_int() -> int {
        isize::MAX as int
    }

    proof fn lemma_as_int(a: isize, b: isize) {
    }

    fn to_i64(self) -> (r: Option<i64>) {
        if i64::MIN as i128 <= self as i128 && self as i128 <= i64::MAX as i128 {
            Some(self as i64)
        } else {
            None
        }
    }

    fn from_i64(i: i64) -> (r: Option<isize>) {
        if isize::MIN as i64 <= i && i <= isize::MAX as i64 {
            Some(i as isize)
        } else {
            None
        }
    }
}

impl NativeInteger for i128 {
    open spec fn as_int(self) -> int {
        self as int
    }

    open spec fn min_int() -> int {
        i128::MIN as int
    }

    open spec fn max_int() -> int {
        i128::MAX as int
    }

    proof fn lemma_as_int(a: i128, b: i128) {
    }

    fn to_i64(self) -> (r: Option<i64>) {
        if i64::MIN as i128 <= self as i128 && self as i128 <= i64::MAX as i128 {
            Some(self as i64)
        } else {
            None
        }
    }

    fn from_i64(i: i64) -> (r: Option<i128>) {
        Some(i as i128)
    }
}

impl NativeInteger for u8 {
    open spec fn as_int(self) -> int {
        self as int
    }

    open spec fn min_int() -> int {
        u8::MIN as int
    }

    open spec fn max_int() -> int {
        u8::MAX as int
    }

    proof fn lemma_as_int(a: u8, b: u8) {
    }

    fn to_i64(self) -> (r: Option<i64>) {
        Some(self as i64)
    }

    fn from_i64(i: i64) -> (r: Option<u8>) {
        if 0 <= i && i as u64 <= u8::MAX as u64 {
            Some(i as u8)
        } else {
            None
        }
    }
}

impl NativeInteger for u16 {
    open spec fn as_int(self) -> int {
        self as int
    }

    open spec fn min_int() -> int {
        u16::MIN as int
    }

    open spec fn max_int() -> int {
        u16::MAX as int
    }

    proof fn lemma_as_int(a: u16, b: u16) {
    }

    fn to_i64(self) -> (r: Option<i64>) {
        Some(self as i64)
    }

    fn from_i64(i: i64) -> (r: Option<u16>) {
        if 0 <= i && i as u64 <= u16::MAX as u64 {
            Some(i as u16)
        } else {
            None
        }
    }
}

impl NativeInteger for u32 {
    open spec fn as_int(self) -> int {
        self as int
    }

    open spec fn min_int() -> int {
        u32::MIN as int
    }

    open spec fn max_int() -> int {
        u32::MAX as int
    }

    proof fn lemma_as_int(a: u32, b: u32) {
    }

    fn to_i64(self) -> (r: Option<i64>) {
        Some(self as i64)
    }

    fn from_i64(i: i64) -> (r: Option<u32>) {
        if 0 <= i && i as u64 <= u32::MAX as u64 {
            Some(i as u32)
        } else {
            None
        }
    }
}

impl NativeInteger for u64 {
    open spec fn as_int(self) -> int {
        self as int
    }

    open spec fn min_int() -> int {
        u64::MIN as int
    }

    open spec fn max_int() -> int {
        u64::MAX as int
    }

    proof fn lemma_as_int(a: u64, b: u64) {
    }

    fn to_i64(self) -> (r: Option<i64>) {
        if self as u128 <= i64::MAX as u128 {
            Some(self as i64)
        } else {
            None
        }
    }

    fn from_i64(i: i64) -> (r: Option<u64>) {
        if 0 <= i {
            Some(i as u64)
        } else {
            None
        }
    }
}

impl NativeInteger for usize {
    open spec fn as_int(self) -> int {
        self as int
    }

    open spec fn min_int() -> int {
        usize::MIN as int
    }

    open spec fn max_int() -> int {
        usize::MAX as int
    }

    proof fn lemma_as_int(a: usize, b: usize) {
    }

    fn to_i64(self) -> (r: Option<i64>) {
        if self as u128 <= i64::MAX as u128 {
            Some(self as i64)
        } else {
            None
        }
    }

    fn from_i64(i: i64) -> (r: Option<usize>) {
        if 0 <= i && i as u64 <= usize::MAX as u64 {
            Some(i as usize)
        } else {
            None
        }
    }
}

impl NativeInteger for u128 {
    open spec fn as_int(self) -> int {
        self as int
    }

    open spec fn min_int() -> int {
        u128::MIN as int
    }

    open spec fn max_int() -> int {
        u128::MAX as int
    }

    proof fn lemma_as_int(a: u128, b: u128) {
    }

    fn to_i64(self) -> (r: Option<i64>) {
        if self as u128 <= i64::MAX as u128 {
            Some(self as i64)
        } else {
            None
        }
    }

    fn from_i64(i: i64) -> (r: Option<u128>) {
        if 0 <= i {
            Some(i as u128)
        } else {
            None
        }
    }
}

/// Converting an integer into the bridge and reading it back as the same type
/// gives back the same value and no other; an integer outside the bridge's
/// 64-bit signed range fails to convert instead of being truncated
pub proof fn integer_round_trip<T: NativeInteger>(x: T)
    ensures
        <T as IntoSqlite>::encoded(x) is Some <==> fits_i64(x.as_int()),
        <T as IntoSqlite>::encoded(x) is Some ==> {
            let v = <T as IntoSqlite>::encoded(x).unwrap();
            &&& <T as FromSqlite>::decodable(v)
            &&& <T as FromSqlite>::decodes(v, x)
            &&& forall|y: T| #[trigger] <T as FromSqlite>::decodes(v, y) ==> y == x
        },
{
    T::lemma_as_int(x, x);
    assert forall|y: T| #[trigger] <T as FromSqlite>::decodes(SqliteValue::Integer(x.as_int()), y) implies y
        == x by {
        T::lemma_as_int(x, y);
    }
}

/// A REAL value's bit pattern goes through the bridge and back unchanged
pub proof fn real_round_trip(x: RealBits)
    ensures
        x.encoded() == Some(SqliteValue::Real(x.0)),
        RealBits::decodable(x.encoded().unwrap()),
        RealBits::decodes(x.encoded().unwrap(), x),
        forall|y: RealBits| #[trigger] RealBits::decodes(x.encoded().unwrap(), y) ==> y == x,
{
}

/// Reading an absent value as an optional type gives `None`, whatever the type
pub proof fn absent_reads_as_none<T: FromSqlite>()
    ensures
        <Option<T> as FromSqlite>::decodable(SqliteValue::Null),
        <Option<T> as FromSqlite>::decodes(SqliteValue::Null, None),
        forall|x: Option<T>| #[trigger] <Option<T> as FromSqlite>::decodes(SqliteValue::Null, x) ==> x is None,
{
}

/// Reading an absent value as a non-optional type fails: as an integer, a real,
/// a text or a byte sequence of any kind
pub proof fn absent_is_no_value<T: NativeInteger, const N: usize>()
    ensures
        !<T as FromSqlite>::decodable(SqliteValue::Null),
        !RealBits::decodable(SqliteValue::Null),
        !String::decodable(SqliteValue::Null),
        !<Arc<String> as FromSqlite>::decodable(SqliteValue::Null),
        !<Vec<u8> as FromSqlite>::decodable(SqliteValue::Null),
        !<Arc<Vec<u8>> as FromSqlite>::decodable(SqliteValue::Null),
        !<[u8; N] as FromSqlite>::decodable(SqliteValue::Null),
{
}

impl IntoSqlite for RealBits {
    open spec fn encoded(self) -> Option<SqliteValue> {
        Some(SqliteValue::Real(self.0))
    }

    fn into_sqlite(self) -> (r: Result<SqliteType, Error>) {
        Ok(SqliteType::Real(self.0))
    }
}

impl FromSqlite for RealBits {
    open spec fn decodable(v: SqliteValue) -> bool {
        v is Real
    }

    open spec fn decodes(v: SqliteValue, x: RealBits) -> bool {
        v == SqliteValue::Real(x.0)
    }

    fn from_sqlite(v: SqliteType) -> (r: Result<RealBits, Error>) {
        match v {
            SqliteType::Real(bits) => Ok(RealBits(bits)),
            _ => Err(conversion_error()),
        }
    }
}

impl IntoSqlite for String {
    open spec fn encoded(self) -> Option<SqliteValue> {
        Some(SqliteValue::Text(self@))
    }

    fn into_sqlite(self) -> (r: Result<SqliteType, Error>) {
        Ok(SqliteType::Text(self))
    }
}

impl<'a> IntoSqlite for &'a str {
    open spec fn encoded(self) -> Option<SqliteValue> {
        Some(SqliteValue::Text(self@))
    }

    fn into_sqlite(self) -> (r: Result<SqliteType, Error>) {
        Ok(SqliteType::Text(String::from_str(self)))
    }
}

impl FromSqlite for String {
    open spec fn decodable(v: SqliteValue) -> bool {
        v is Text
    }

    open spec fn decodes(v: SqliteValue, x: String) -> bool {
        v == SqliteValue::Text(x@)
    }

    fn from_sqlite(v: SqliteType) -> (r: Result<String, Error>) {
        match v {
            SqliteType::Text(s) => Ok(s),
            _ => Err(conversion_error()),
        }
    }
}

impl FromSqlite for Arc<String> {
    open spec fn decodable(v: SqliteValue) -> bool {
        v is Text
    }

    open spec fn decodes(v: SqliteValue, x: Arc<String>) -> bool {
        v == SqliteValue::Text(x@)
    }

    fn from_sqlite(v: SqliteType) -> (r: Result<Arc<String>, Error>) {
        match v {
            SqliteType::Text(s) => Ok(Arc::new(s)),
            _ => Err(conversion_error()),
        }
    }
}

impl IntoSqlite for Vec<u8> {
    open spec fn encoded(self) -> Option<SqliteValue> {
        Some(SqliteValue::Blob(self@))
    }

    fn into_sqlite(self) -> (r: Result<SqliteType, Error>) {
        Ok(SqliteType::Blob(self))
    }
}

impl<'a> IntoSqlite for &'a [u8] {
    open spec fn encoded(self) -> Option<SqliteValue> {
        Some(SqliteValue::Blob(self@))
    }

    fn into_sqlite(self) -> (r: Result<SqliteType, Error>) {
        Ok(SqliteType::Blob(slice_to_vec(self)))
    }
}

impl FromSqlite for Vec<u8> {
    open spec fn decodable(v: SqliteValue) -> bool {
        v is Blob
    }

    open spec fn decodes(v: SqliteValue, x: Vec<u8>) -> bool {
        v == SqliteValue::Blob(x@)
    }

    fn from_sqlite(v: SqliteType) -> (r: Result<Vec<u8>, Error>) {
        match v {
            SqliteType::Blob(b) => Ok(b),
            _ => Err(conversion_error()),
        }
    }
}

impl FromSqlite for Arc<Vec<u8>> {
    open spec fn decodable(v: SqliteValue) -> bool {
        v is Blob
    }

    open spec fn decodes(v: SqliteValue, x: Arc<Vec<u8>>) -> bool {
        v == SqliteValue::Blob(x@)
    }

    fn from_sqlite(v: SqliteType) -> (r: Result<Arc<Vec<u8>>, Error>) {
        match v {
            SqliteType::Blob(b) => Ok(Arc::new(b)),
            _ => Err(conversion_error()),
        }
    }
}

impl<const N: usize> IntoSqlite for [u8; N] {
    open spec fn encoded(self) -> Option<SqliteValue> {
        Some(SqliteValue::Blob(self@))
    }

    fn into_sqlite(self) -> (r: Result<SqliteType, Error>) {
        Ok(SqliteType::Blob(slice_to_vec(self.as_slice())))
    }
}

impl<const N: usize> FromSqlite for [u8; N] {
    open spec fn decodable(v: SqliteValue) -> bool {
        match v {
            SqliteValue::Blob(b) => b.len() == N,
            _ => false,
        }
    }

    open spec fn decodes(v: SqliteValue, x: [u8; N]) -> bool {
        v == SqliteValue::Blob(x@)
    }

    fn from_sqlite(v: SqliteType) -> (r: Result<[u8; N], Error>) {
        match v {
            SqliteType::Blob(b) => {
                if b.len() != N {
                    return Err(conversion_error());
                }
                let mut bytes: [u8; N] = array_fill_for_copy_types(0u8);
                let mut i: usize = 0;
                while i < N
                    invariant
                        b@.len() == N,
                        bytes@.len() == N,
                        i <= N,
                        forall|j: int| 0 <= j < i ==> bytes@[j] == b@[j],
                    decreases N - i,
                {
                    bytes[i] = b[i];
                    i = i + 1;
                }
                proof {
                    assert(bytes@ =~= b@);
                }
                Ok(bytes)
            },
            _ => Err(conversion_error()),
        }
    }
}

impl<T: IntoSqlite> IntoSqlite for Option<T> {
    open spec fn encoded(self) -> Option<SqliteValue> {
        match self {
            None => Some(SqliteValue::Null),
            Some(x) => x.encoded(),
        }
    }

    fn into_sqlite(self) -> (r: Result<SqliteType, Error>) {
        match self {
            None => Ok(SqliteType::Null),
            Some(x) => x.into_sqlite(),
        }
    }
}

impl<T: FromSqlite> FromSqlite for Option<T> {
    open spec fn decodable(v: SqliteValue) -> bool {
        v is Null || T::decodable(v)
    }

    open spec fn decodes(v: SqliteValue, x: Option<T>) -> bool {
        match x {
            None => v is Null,
            Some(y) => !(v is Null) && T::decodes(v, y),
        }
    }

    fn from_sqlite(v: SqliteType) -> (r: Result<Option<T>, Error>) {
        match v {
            SqliteType::Null => Ok(None),
            _ => match T::from_sqlite(v) {
                Ok(x) => Ok(Some(x)),
                Err(e) => Err(e),
            },
        }
    }
}

} // verus!
