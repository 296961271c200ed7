//! The backend-agnostic query model: scalar parameters, parameter shapes and
//! query descriptors.
//!
//! A query's placeholder style (positional markers or named markers) must
//! match the shape of the parameters supplied with it. Nothing here checks
//! that: a mismatch surfaces when the engine runs the query.
use vstd::prelude::*;
use crate::uuid::Uuid;

verus! {

/// A scalar value bound to a query placeholder. Floating-point values are
/// carried as their IEEE 754 bit patterns.
#[derive(Clone, Debug, PartialEq)]
pub enum Param {
    /// Null value.
    Null,
    /// Unsigned 8-bit integer.
    U8(u8),
    /// Unsigned 16-bit integer.
    U16(u16),
    /// Unsigned 32-bit integer.
    U32(u32),
    /// Unsigned 64-bit integer.
    U64(u64),
    /// Unsigned 128-bit integer.
    U128(u128),
    /// Unsigned pointer-width integer.
    USize(usize),
    /// Signed 8-bit integer.
    I8(i8),
    /// Signed 16-bit integer.
    I16(i16),
    /// Signed 32-bit integer.
    I32(i32),
    /// Signed 64-bit integer.
    I64(i64),
    /// Signed 128-bit integer.
    I128(i128),
    /// Signed pointer-width integer.
    ISize(isize),
    /// Single-precision float, by its bit pattern.
    F32(u32),
    /// Double-precision float, by its bit pattern.
    F64(u64),
    /// Text value.
    String(String),
    /// Byte sequence.
    Bytes(Vec<u8>),
    /// Unique identifier.
    Uuid(Uuid),
}

/// The parameters of a query.
#[derive(Clone, Debug, PartialEq)]
pub enum Params {
    /// No parameters.
    Empty,
    /// Values bound in order to the query's positional placeholders.
    Positional(Vec<Param>),
    /// Values bound by name to the query's named placeholders.
    Named(Vec<(String, Param)>),
}

/// A query text with its parameters.
#[derive(Clone, Debug, PartialEq)]
pub struct SqlQuery {
    /// The query text.
    pub query: String,
    /// The parameters bound to the query's placeholders.
    pub params: Params,
}

impl SqlQuery {
    /// A query made of the given text and parameters.
    pub fn new(query: &str, params: Params) -> (r: SqlQuery)
        ensures
            r.query@ == query@,
            r.params == params,
    {
        SqlQuery { query: query.to_owned(), params }
    }

    /// A query without parameters.
    pub fn plain(query: &str) -> (r: SqlQuery)
        ensures
            r.query@ == query@,
            r.params == Params::Empty,
    {
        SqlQuery::new(query, Params::Empty)
    }

    /// A query whose values are bound in order to positional placeholders.
    pub fn positional(query: &str, params: Vec<Param>) -> (r: SqlQuery)
        ensures
            r.query@ == query@,
            r.params == Params::Positional(params),
    {
        SqlQuery::new(query, Params::Positional(params))
    }

    /// A query whose values are bound by name to named placeholders.
    pub fn named(query: &str, params: Vec<(String, Param)>) -> (r: SqlQuery)
        ensures
            r.query@ == query@,
            r.params == Params::Named(params),
    {
        SqlQuery::new(query, Params::Named(params))
    }
}

impl Param {
    /// A text parameter holding a copy of `s`.
    pub fn text(s: &str) -> (r: Param)
        ensures
            r is String,
            r->String_0@ == s@,
    {
        Param::String(s.to_owned())
    }

    /// A single-precision float parameter, from its bit pattern.
    pub fn from_f32_bits(bits: u32) -> (r: Param)
        ensures
            r == Param::F32(bits),
    {
        Param::F32(bits)
    }

    /// A double-precision float parameter, from its bit pattern.
    pub fn from_f64_bits(bits: u64) -> (r: Param)
        ensures
            r == Param::F64(bits),
    {
        Param::F64(bits)
    }
}

impl From<u8> for Param {
    fn from(value: u8) -> Param {
        Param::U8(value)
    }
}

impl vstd::std_specs::convert::FromSpecImpl<u8> for Param {
    open spec fn obeys_from_spec() -> bool {
        true
    }

    open spec fn from_spec(value: u8) -> Param {
        Param::U8(value)
    }
}

impl From<u16> for Param {
    fn from(value: u16) -> Param {
        Param::U16(value)
    }
}

impl vstd::std_specs::convert::FromSpecImpl<u16> for Param {
    open spec fn obeys_from_spec() -> bool {
        true
    }

    open spec fn from_spec(value: u16) -> Param {
        Param::U16(value)
    }
}

impl From<u32> for Param {
    fn from(value: u32) -> Param {
        Param::U32(value)
    }
}

impl vstd::std_specs::convert::FromSpecImpl<u32> for Param {
    open spec fn obeys_from_spec() -> bool {
        true
    }

    open spec fn from_spec(value: u32) -> Param {
        Param::U32(value)
    }
}

impl From<u64> for Param {
    fn from(value: u64) -> Param {
        Param::U64(value)
    }
}

impl vstd::std_specs::convert::FromSpecImpl<u64> for Param {
    open spec fn obeys_from_spec() -> bool {
        true
    }

    open spec fn from_spec(value: u64) -> Param {
        Param::U64(value)
    }
}

impl From<u128> for Param {
    fn from(value: u128) -> Param {
        Param::U128(value)
    }
}

impl vstd::std_specs::convert::FromSpecImpl<u128> for Param {
    open spec fn obeys_from_spec() -> bool {
        true
    }

    open spec fn from_spec(value: u128) -> Param {
        Param::U128(value)
    }
}

impl From<usize> for Param {
    fn from(value: usize) -> Param {
        Param::USize(value)
    }
}

impl vstd::std_specs::convert::FromSpecImpl<usize> for Param {
    open spec fn obeys_from_spec() -> bool {
        true
    }

    open spec fn from_spec(value: usize) -> Param {
        Param::USize(value)
    }
}

impl From<i8> for Param {
    fn from(value: i8) -> Param {
        Param::I8(value)
    }
}

impl vstd::std_specs::convert::FromSpecImpl<i8> for Param {
    open spec fn obeys_from_spec() -> bool {
        true
    }

    open spec fn from_spec(value: i8) -> Param {
        Param::I8(value)
    }
}

impl From<i16> for Param {
    fn from(value: i16) -> Param {
        Param::I16(value)
    }
}

impl vstd::std_specs::convert::FromSpecImpl<i16> for Param {
    open spec fn obeys_from_spec() -> bool {
        true
    }

    open spec fn from_spec(value: i16) -> Param {
        Param::I16(value)
    }
}

impl From<i32> for Param {
    fn from(value: i32) -> Param {
        Param::I32(value)
    }
}

impl vstd::std_specs::convert::FromSpecImpl<i32> for Param {
    open spec fn obeys_from_spec() -> bool {
        true
    }

    open spec fn from_spec(value: i32) -> Param {
        Param::I32(value)
    }
}

impl From<i64> for Param {
    fn from(value: i64) -> Param {
        Param::I64(value)
    }
}

impl vstd::std_specs::convert::FromSpecImpl<i64> for Param {
    open spec fn obeys_from_spec() -> bool {
        true
    }

    open spec fn from_spec(value: i64) -> Param {
        Param::I64(value)
    }
}

impl From<i128> for Param {
    fn from(value: i128) -> Param {
        Param::I128(value)
    }
}

impl vstd::std_specs::convert::FromSpecImpl<i128> for Param {
    open spec fn obeys_from_spec() -> bool {
        true
    }

    open spec fn from_spec(value: i128) -> Param {
        Param::I128(value)
    }
}

impl From<isize> for Param {
    fn from(value: isize) -> Param {
        Param::ISize(value)
    }
}

impl vstd::std_specs::convert::FromSpecImpl<isize> for Param {
    open spec fn obeys_from_spec() -> bool {
        true
    }

    open spec fn from_spec(value: isize) -> Param {
        Param::ISize(value)
    }
}

impl From<String> for Param {
    fn from(value: String) -> Param {
        Param::String(value)
    }
}

impl vstd::std_specs::convert::FromSpecImpl<String> for Param {
    open spec fn obeys_from_spec() -> bool {
        true
    }

    open spec fn from_spec(value: String) -> Param {
        Param::String(value)
    }
}

impl From<Vec<u8>> for Param {
    fn from(value: Vec<u8>) -> Param {
        Param::Bytes(value)
    }
}

impl vstd::std_specs::convert::FromSpecImpl<Vec<u8>> for Param {
    open spec fn obeys_from_spec() -> bool {
        true
    }

    open spec fn from_spec(value: Vec<u8>) -> Param {
        Param::Bytes(value)
    }
}

impl From<Uuid> for Param {
    fn from(value: Uuid) -> Param {
        Param::Uuid(value)
    }
}

impl vstd::std_specs::convert::FromSpecImpl<Uuid> for Param {
    open spec fn obeys_from_spec() -> bool {
        true
    }

    open spec fn from_spec(value: Uuid) -> Param {
        Param::Uuid(value)
    }
}

} // verus!
