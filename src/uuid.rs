//! A 128-bit unique identifier, held as its 16 raw bytes. Generation and text
//! parsing are done by the `uuid` crate.
use vstd::prelude::*;
use crate::bytes::le_bytes;

verus! {

#[verifier::external_type_specification]
#[verifier::external_body]
pub struct ExUuidParseError(uuid::Error);

/// The bytes that `uuid::Uuid::parse_str` yields for a text, or `None` where it
/// rejects the text.
pub uninterp spec fn parsed_uuid(s: Seq<char>) -> Option<Seq<u8>>;

/// The 16 bytes of `v`, most significant first.
pub open spec fn be_bytes16(v: u128) -> Seq<u8> {
    le_bytes(v as nat, 16).reverse()
}

/// Whether the bytes carry the version 4 (random) tag and the RFC 4122 variant.
pub open spec fn is_random_v4(b: Seq<u8>) -> bool {
    &&& b.len() == 16
    &&& b[6] / 16 == 4
    &&& b[8] / 64 == 2
}

/// Relies on `uuid::Uuid::new_v4`: it masks a random value so that the version
/// nibble reads 4 and the variant bits read `10`.
#[verifier::external_body]
fn random_v4_bytes() -> (r: [u8; 16])
    ensures
        is_random_v4(r@),
{
    uuid::Uuid::new_v4().into_bytes()
}

/// Relies on `uuid::Uuid::from_u128`: the bytes are the big-endian form of `v`.
#[verifier::external_body]
fn u128_uuid_bytes(v: u128) -> (r: [u8; 16])
    ensures
        r@ == be_bytes16(v),
{
    uuid::Uuid::from_u128(v).into_bytes()
}

/// Relies on `uuid::Uuid::parse_str`, which accepts the hyphenated, simple,
/// URN and braced text forms in either case.
#[verifier::external_body]
fn parse_uuid_bytes(s: &str) -> (r: Result<[u8; 16], uuid::Error>)
    ensures
        match r {
            Ok(b) => parsed_uuid(s@) == Some(b@),
            Err(_) => parsed_uuid(s@) is None,
        },
{
    uuid::Uuid::parse_str(s).map(|u| u.into_bytes())
}

/// A unique identifier.
#[derive(Clone, Copy, Debug, PartialEq, Eq, Hash)]
pub struct Uuid {
    bytes: [u8; 16],
}

/// Errors for parsing or converting identifiers.
#[derive(Debug)]
pub enum UuidError {
    /// The text is not an identifier in any accepted form.
    ParseError(uuid::Error),
}

impl View for Uuid {
    type V = Seq<u8>;

    closed spec fn view(&self) -> Seq<u8> {
        self.bytes@
    }
}

impl Uuid {
    /// A new random (version 4) identifier.
    pub fn new() -> (r: Uuid)
        ensures
            is_random_v4(r@),
    {
        Uuid { bytes: random_v4_bytes() }
    }

    /// The identifier whose 16 bytes are all zero.
    pub fn zero() -> (r: Uuid)
        ensures
            r@ == Seq::new(16, |i: int| 0u8),
    {
        let r = Uuid { bytes: [0u8; 16] };
        assert(r@ =~= Seq::new(16, |i: int| 0u8));
        r
    }

    /// The identifier made of the given bytes.
    pub fn from_bytes(bytes: [u8; 16]) -> (r: Uuid)
        ensures
            r@ == bytes@,
    {
        Uuid { bytes }
    }

    /// The identifier whose big-endian integer form is `v`.
    pub fn from_u128(v: u128) -> (r: Uuid)
        ensures
            r@ == be_bytes16(v),
    {
        Uuid { bytes: u128_uuid_bytes(v) }
    }

    /// Parses an identifier from its text form.
    pub fn parse_str(s: &str) -> (r: Result<Uuid, UuidError>)
        ensures
            match r {
                Ok(u) => parsed_uuid(s@) == Some(u@),
                Err(_) => parsed_uuid(s@) is None,
            },
    {
        match parse_uuid_bytes(s) {
            Ok(bytes) => Ok(Uuid { bytes }),
            Err(e) => Err(UuidError::ParseError(e)),
        }
    }

    /// The 16 raw bytes.
    pub fn as_bytes(&self) -> (r: [u8; 16])
        ensures
            r@ == self@,
    {
        self.bytes
    }

    /// The raw bytes, as a vector.
    pub fn to_vec(&self) -> (r: Vec<u8>)
        ensures
            r@ == self@,
    {
        let mut r: Vec<u8> = Vec::new();
        let mut i: usize = 0;
        while i < 16
            invariant
                i <= 16,
                self@.len() == 16,
                r@ == self@.take(i as int),
            decreases 16 - i,
        {
            r.push(self.bytes[i]);
            assert(r@ =~= self@.take(i + 1));
            i = i + 1;
        }
        assert(self@.take(16) =~= self@);
        r
    }
}

impl Default for Uuid {
    fn default() -> (r: Uuid)
        ensures
            is_random_v4(r@),
    {
        Uuid::new()
    }
}

} // verus!
