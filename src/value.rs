//! Translation of query parameters into the storage engine's native values.
//!
//! Integers up to 64 bits become native integers. 128-bit and pointer-width
//! integers have no native counterpart and become blobs holding their
//! little-endian (two's-complement for signed kinds) bytes, 16 for 128-bit
//! kinds and 8 for pointer-width ones. Identifiers become
//! blobs of their 16 raw bytes.
use vstd::prelude::*;
use crate::bytes::{byte_span, le_bytes, le_encode, le_signed, le_value, twos_complement};
use crate::bytes::{lemma_le_round_trip, lemma_le_signed_round_trip};
use crate::param::{Param, Params, SqlQuery};

verus! {

/// A floating-point value by its IEEE 754 bit pattern.
#[derive(Clone, Copy, Debug, PartialEq, Eq)]
pub enum FloatBits {
    /// Single precision.
    Single(u32),
    /// Double precision.
    Double(u64),
}

/// A value in the storage engine's native representation.
#[derive(Clone, Debug, PartialEq)]
pub enum SqlValue {
    /// Null.
    Null,
    /// A 64-bit signed integer.
    Integer(i64),
    /// A floating-point number.
    Real(FloatBits),
    /// UTF-8 text.
    Text(String),
    /// A byte sequence.
    Blob(Vec<u8>),
}

/// Parameters in the storage engine's native representation.
#[derive(Clone, Debug, PartialEq)]
pub enum BoundParams {
    /// No parameters.
    Empty,
    /// Values bound in order to positional placeholders.
    Positional(Vec<SqlValue>),
    /// Values bound by name to named placeholders.
    Named(Vec<(String, SqlValue)>),
}

/// A parameter that has no native representation.
#[derive(Clone, Copy, Debug, PartialEq, Eq)]
pub enum BindError {
    /// An unsigned 64-bit value above the largest native integer.
    IntegerOutOfRange(u64),
}

/// The mathematical content of a native value.
pub enum NativeView {
    Null,
    Integer(int),
    Real(FloatBits),
    Text(Seq<char>),
    Blob(Seq<u8>),
}

/// The mathematical content of native parameters.
pub enum BoundView {
    Empty,
    Positional(Seq<NativeView>),
    Named(Seq<(Seq<char>, NativeView)>),
}

impl View for SqlValue {
    type V = NativeView;

    open spec fn view(&self) -> NativeView {
        match self {
            SqlValue::Null => NativeView::Null,
            SqlValue::Integer(i) => NativeView::Integer(*i as int),
            SqlValue::Real(f) => NativeView::Real(*f),
            SqlValue::Text(s) => NativeView::Text(s@),
            SqlValue::Blob(b) => NativeView::Blob(b@),
        }
    }
}

impl View for BoundParams {
    type V = BoundView;

    open spec fn view(&self) -> BoundView {
        match self {
            BoundParams::Empty => BoundView::Empty,
            BoundParams::Positional(vs) => BoundView::Positional(vs@.map_values(|v: SqlValue| v@)),
            BoundParams::Named(kvs) => BoundView::Named(
                kvs@.map_values(|kv: (String, SqlValue)| (kv.0@, kv.1@)),
            ),
        }
    }
}

/// The native value that a parameter is bound as.
pub open spec fn native_of(p: Param) -> Result<NativeView, BindError> {
    match p {
        Param::Null => Ok(NativeView::Null),
        Param::U8(v) => Ok(NativeView::Integer(v as int)),
        Param::U16(v) => Ok(NativeView::Integer(v as int)),
        Param::U32(v) => Ok(NativeView::Integer(v as int)),
        Param::U64(v) => if v <= i64::MAX {
            Ok(NativeView::Integer(v as int))
        } else {
            Err(BindError::IntegerOutOfRange(v))
        },
        Param::U128(v) => Ok(NativeView::Blob(le_bytes(v as nat, 16))),
        Param::USize(v) => Ok(NativeView::Blob(le_bytes(v as nat, 8))),
        Param::I8(v) => Ok(NativeView::Integer(v as int)),
        Param::I16(v) => Ok(NativeView::Integer(v as int)),
        Param::I32(v) => Ok(NativeView::Integer(v as int)),
        Param::I64(v) => Ok(NativeView::Integer(v as int)),
        Param::I128(v) => Ok(NativeView::Blob(le_bytes(twos_complement(v as int, 16), 16))),
        Param::ISize(v) => Ok(NativeView::Blob(le_bytes(twos_complement(v as int, 8), 8))),
        Param::F32(b) => Ok(NativeView::Real(FloatBits::Single(b))),
        Param::F64(b) => Ok(NativeView::Real(FloatBits::Double(b))),
        Param::String(s) => Ok(NativeView::Text(s@)),
        Param::Bytes(b) => Ok(NativeView::Blob(b@)),
        Param::Uuid(u) => Ok(NativeView::Blob(u@)),
    }
}

/// Whether `i` is the first position of `ps` that has no native value.
pub open spec fn first_unbound(ps: Seq<Param>, i: int) -> bool {
    &&& 0 <= i < ps.len()
    &&& native_of(ps[i]) is Err
    &&& forall|j: int| 0 <= j < i ==> native_of(#[trigger] ps[j]) is Ok
}

/// The native values of a sequence of parameters, or the error of the first
/// one that has none.
pub open spec fn bind_all(ps: Seq<Param>) -> Result<Seq<NativeView>, BindError> {
    if forall|i: int| 0 <= i < ps.len() ==> native_of(#[trigger] ps[i]) is Ok {
        Ok(Seq::new(ps.len(), |i: int| native_of(ps[i])->Ok_0))
    } else {
        Err(native_of(ps[choose|i: int| first_unbound(ps, i)])->Err_0)
    }
}

/// The native form of a parameter list.
pub open spec fn bound_of(params: Params) -> Result<BoundView, BindError> {
    match params {
        Params::Empty => Ok(BoundView::Empty),
        Params::Positional(ps) => match bind_all(ps@) {
            Ok(vs) => Ok(BoundView::Positional(vs)),
            Err(e) => Err(e),
        },
        Params::Named(kvs) => match bind_all(kvs@.map_values(|kv: (String, Param)| kv.1)) {
            Ok(vs) => Ok(BoundView::Named(Seq::new(kvs@.len(), |i: int| (kvs@[i].0@, vs[i])))),
            Err(e) => Err(e),
        },
    }
}

/// Whether reading the native value `n` back as the kind of `p` restores `p`
/// exactly: integers by their numeric value, 128-bit and pointer-width
/// integers by decoding their bytes with the same width, everything else by
/// its content.
pub open spec fn reads_back_as(n: NativeView, p: Param) -> bool {
    match p {
        Param::Null => n is Null,
        Param::U8(v) => n is Integer && n->Integer_0 == v as int,
        Param::U16(v) => n is Integer && n->Integer_0 == v as int,
        Param::U32(v) => n is Integer && n->Integer_0 == v as int,
        Param::U64(v) => n is Integer && n->Integer_0 == v as int,
        Param::U128(v) => n is Blob && n->Blob_0.len() == 16 && le_value(n->Blob_0) == v as nat,
        Param::USize(v) => n is Blob && n->Blob_0.len() == 8 && le_value(n->Blob_0) == v as nat,
        Param::I8(v) => n is Integer && n->Integer_0 == v as int,
        Param::I16(v) => n is Integer && n->Integer_0 == v as int,
        Param::I32(v) => n is Integer && n->Integer_0 == v as int,
        Param::I64(v) => n is Integer && n->Integer_0 == v as int,
        Param::I128(v) => n is Blob && n->Blob_0.len() == 16 && le_signed(n->Blob_0) == v as int,
        Param::ISize(v) => n is Blob && n->Blob_0.len() == 8 && le_signed(n->Blob_0) == v as int,
        Param::F32(b) => n == NativeView::Real(FloatBits::Single(b)),
        Param::F64(b) => n == NativeView::Real(FloatBits::Double(b)),
        Param::String(s) => n == NativeView::Text(s@),
        Param::Bytes(b) => n == NativeView::Blob(b@),
        Param::Uuid(u) => n == NativeView::Blob(u@),
    }
}

/// The number of values that 8 and 16 bytes hold.
pub proof fn lemma_byte_spans()
    ensures
        byte_span(8) == 0x1_0000_0000_0000_0000,
        byte_span(16) == 0x1_0000_0000_0000_0000_0000_0000_0000_0000,
{
    reveal_with_fuel(byte_span, 17);
}

/// Every parameter that has a native value is restored exactly by reading
/// that value back as the parameter's own kind; 128-bit and pointer-width
/// integers are restored by decoding their bytes with the same width.
pub proof fn lemma_marshal_round_trip(p: Param)
    requires
        native_of(p) is Ok,
    ensures
        reads_back_as(native_of(p)->Ok_0, p),
{
    lemma_byte_spans();
    match p {
        Param::U128(v) => lemma_le_round_trip(v as nat, 16),
        Param::USize(v) => lemma_le_round_trip(v as nat, 8),
        Param::I128(v) => lemma_le_signed_round_trip(v as int, 16),
        Param::ISize(v) => lemma_le_signed_round_trip(v as int, 8),
        _ => {},
    }
}

fn copy_bytes(b: &Vec<u8>) -> (r: Vec<u8>)
    ensures
        r@ == b@,
{
    let mut r: Vec<u8> = Vec::new();
    let mut i: usize = 0;
    while i < b.len()
        invariant
            i <= b.len(),
            r@ == b@.take(i as int),
        decreases b.len() - i,
    {
        r.push(b[i]);
        assert(r@ =~= b@.take(i + 1));
        i = i + 1;
    }
    assert(b@.take(b.len() as int) =~= b@);
    r
}

impl Param {
    /// The native value this parameter is bound as.
    pub fn into_value(&self) -> (r: Result<SqlValue, BindError>)
        ensures
            match r {
                Ok(v) => native_of(*self) == Ok::<NativeView, BindError>(v@),
                Err(e) => native_of(*self) == Err::<NativeView, BindError>(e),
            },
    {
        proof {
            lemma_byte_spans();
        }
        match self {
            Param::Null => Ok(SqlValue::Null),
            Param::U8(v) => Ok(SqlValue::Integer(*v as i64)),
            Param::U16(v) => Ok(SqlValue::Integer(*v as i64)),
            Param::U32(v) => Ok(SqlValue::Integer(*v as i64)),
            Param::U64(v) => {
                if *v <= i64::MAX as u64 {
                    Ok(SqlValue::Integer(*v as i64))
                } else {
                    Err(BindError::IntegerOutOfRange(*v))
                }
            },
            Param::U128(v) => Ok(SqlValue::Blob(le_encode(*v, 16))),
            Param::USize(v) => Ok(SqlValue::Blob(le_encode(*v as u128, 8))),
            Param::I8(v) => Ok(SqlValue::Integer(*v as i64)),
            Param::I16(v) => Ok(SqlValue::Integer(*v as i64)),
            Param::I32(v) => Ok(SqlValue::Integer(*v as i64)),
            Param::I64(v) => Ok(SqlValue::Integer(*v)),
            Param::I128(v) => {
                let u: u128 = if *v >= 0 {
                    *v as u128
                } else {
                    u128::MAX - (-(*v + 1)) as u128
                };
                Ok(SqlValue::Blob(le_encode(u, 16)))
            },
            Param::ISize(v) => {
                let w = *v as i64;
                let u: u64 = if w >= 0 {
                    w as u64
                } else {
                    u64::MAX - (-(w + 1)) as u64
                };
                Ok(SqlValue::Blob(le_encode(u as u128, 8)))
            },
            Param::F32(b) => Ok(SqlValue::Real(FloatBits::Single(*b))),
            Param::F64(b) => Ok(SqlValue::Real(FloatBits::Double(*b))),
            Param::String(s) => Ok(SqlValue::Text(s.clone())),
            Param::Bytes(b) => Ok(SqlValue::Blob(copy_bytes(b))),
            Param::Uuid(u) => Ok(SqlValue::Blob(u.to_vec())),
        }
    }
}

proof fn lemma_first_unbound(ps: Seq<Param>, i: int)
    requires
        first_unbound(ps, i),
    ensures
        bind_all(ps) == Err::<Seq<NativeView>, BindError>(native_of(ps[i])->Err_0),
{
    let j = choose|j: int| first_unbound(ps, j);
    assert(first_unbound(ps, j));
    if j < i {
        assert(native_of(ps[j]) is Ok);
    } else if i < j {
        assert(native_of(ps[i]) is Ok);
    }
}

fn bind_positional(ps: &Vec<Param>) -> (r: Result<Vec<SqlValue>, BindError>)
    ensures
        match r {
            Ok(vs) => bind_all(ps@) == Ok::<Seq<NativeView>, BindError>(
                vs@.map_values(|v: SqlValue| v@),
            ),
            Err(e) => bind_all(ps@) == Err::<Seq<NativeView>, BindError>(e),
        },
{
    let mut values: Vec<SqlValue> = Vec::new();
    let mut i: usize = 0;
    while i < ps.len()
        invariant
            i <= ps.len(),
            values@.len() == i,
            forall|j: int| 0 <= j < i ==> native_of(#[trigger] ps@[j]) == Ok::<NativeView, BindError>(values@[j]@),
        decreases ps.len() - i,
    {
        match ps[i].into_value() {
            Ok(v) => values.push(v),
            Err(e) => {
                proof {
                    lemma_first_unbound(ps@, i as int);
                }
                return Err(e);
            },
        }
        i = i + 1;
    }
    assert(forall|j: int| 0 <= j < ps@.len() ==> native_of(#[trigger] ps@[j]) is Ok);
    assert(values@.map_values(|v: SqlValue| v@) =~= Seq::new(ps@.len(), |j: int| native_of(ps@[j])->Ok_0));
    Ok(values)
}

fn bind_named(kvs: &Vec<(String, Param)>) -> (r: Result<Vec<(String, SqlValue)>, BindError>)
    ensures
        ({
            let ps = kvs@.map_values(|kv: (String, Param)| kv.1);
            match r {
                Ok(named) => bind_all(ps) is Ok && named@.map_values(
                    |kv: (String, SqlValue)| (kv.0@, kv.1@),
                ) == Seq::new(kvs@.len(), |i: int| (kvs@[i].0@, bind_all(ps)->Ok_0[i])),
                Err(e) => bind_all(ps) == Err::<Seq<NativeView>, BindError>(e),
            }
        }),
{
    let ghost ps = kvs@.map_values(|kv: (String, Param)| kv.1);
    let mut named: Vec<(String, SqlValue)> = Vec::new();
    let mut i: usize = 0;
    while i < kvs.len()
        invariant
            i <= kvs.len(),
            ps == kvs@.map_values(|kv: (String, Param)| kv.1),
            named@.len() == i,
            forall|j: int| 0 <= j < i ==> native_of(#[trigger] ps[j]) == Ok::<NativeView, BindError>(named@[j].1@),
            forall|j: int| 0 <= j < i ==> (#[trigger] named@[j]).0@ == kvs@[j].0@,
        decreases kvs.len() - i,
    {
        match kvs[i].1.into_value() {
            Ok(v) => named.push((kvs[i].0.clone(), v)),
            Err(e) => {
                proof {
                    lemma_first_unbound(ps, i as int);
                }
                return Err(e);
            },
        }
        i = i + 1;
    }
    assert(forall|j: int| 0 <= j < ps.len() ==> native_of(#[trigger] ps[j]) is Ok);
    assert(named@.map_values(|kv: (String, SqlValue)| (kv.0@, kv.1@)) =~= Seq::new(
        kvs@.len(),
        |j: int| (kvs@[j].0@, bind_all(ps)->Ok_0[j]),
    ));
    Ok(named)
}

impl SqlQuery {
    /// The query's parameters in the engine's native representation, or the
    /// error of the first parameter that has none.
    pub fn to_params(&self) -> (r: Result<BoundParams, BindError>)
        ensures
            match r {
                Ok(b) => bound_of(self.params) == Ok::<BoundView, BindError>(b@),
                Err(e) => bound_of(self.params) == Err::<BoundView, BindError>(e),
            },
    {
        match &self.params {
            Params::Empty => Ok(BoundParams::Empty),
            Params::Positional(ps) => match bind_positional(ps) {
                Ok(vs) => Ok(BoundParams::Positional(vs)),
                Err(e) => Err(e),
            },
            Params::Named(kvs) => match bind_named(kvs) {
                Ok(named) => Ok(BoundParams::Named(named)),
                Err(e) => Err(e),
            },
        }
    }
}

} // verus!
