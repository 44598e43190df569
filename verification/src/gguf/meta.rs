//! Typed metadata values and the raw key/value metadata map.
//!
//! A container file carries a metadata section of dotted string keys mapped
//! to typed values: a scalar (integers of several widths, a float held here
//! as its raw bits, a boolean, or a byte string) or an ordered array of
//! scalars of one declared kind. The map is built once per load and read-only
//! thereafter; lookups return the first entry with the requested key, and a
//! well-formed map has no repeated keys.

use crate::error::CallmError;
use vstd::prelude::*;

verus! {

/// The kind tag of a scalar metadata value, as declared in the container.
#[derive(Clone, Copy, Debug, PartialEq, Eq, Structural)]
pub enum ScalarKind {
    U8,
    I8,
    U16,
    I16,
    U32,
    I32,
    F32,
    Bool,
    Str,
    U64,
    I64,
    F64,
}

/// A scalar metadata value. Floating-point values are carried as their raw
/// IEEE 754 bits: the library never computes with them, it only stores and
/// hands them through.
#[derive(Clone, Debug, PartialEq, Eq)]
pub enum MetaScalar {
    U8(u8),
    I8(i8),
    U16(u16),
    I16(i16),
    U32(u32),
    I32(i32),
    F32Bits(u32),
    Bool(bool),
    Str(Vec<u8>),
    U64(u64),
    I64(i64),
    F64Bits(u64),
}

/// The mathematical value of a [`MetaScalar`].
pub enum MetaScalarV {
    U8(u8),
    I8(i8),
    U16(u16),
    I16(i16),
    U32(u32),
    I32(i32),
    F32Bits(u32),
    Bool(bool),
    Str(Seq<u8>),
    U64(u64),
    I64(i64),
    F64Bits(u64),
}

impl View for MetaScalar {
    type V = MetaScalarV;

    open spec fn view(&self) -> MetaScalarV {
        match self {
            MetaScalar::U8(v) => MetaScalarV::U8(*v),
            MetaScalar::I8(v) => MetaScalarV::I8(*v),
            MetaScalar::U16(v) => MetaScalarV::U16(*v),
            MetaScalar::I16(v) => MetaScalarV::I16(*v),
            MetaScalar::U32(v) => MetaScalarV::U32(*v),
            MetaScalar::I32(v) => MetaScalarV::I32(*v),
            MetaScalar::F32Bits(v) => MetaScalarV::F32Bits(*v),
            MetaScalar::Bool(v) => MetaScalarV::Bool(*v),
            MetaScalar::Str(v) => MetaScalarV::Str(v@),
            MetaScalar::U64(v) => MetaScalarV::U64(*v),
            MetaScalar::I64(v) => MetaScalarV::I64(*v),
            MetaScalar::F64Bits(v) => MetaScalarV::F64Bits(*v),
        }
    }
}

impl MetaScalar {
    /// The byte string held by a string scalar, or a type-conversion error.
    pub fn as_str_bytes(&self) -> (r: Result<&Vec<u8>, CallmError>)
        ensures
            match self@ {
                MetaScalarV::Str(s) => r matches Ok(v) && v@ == s,
                _ => r matches Err(e) && e is CandleError,
            },
    {
        match self {
            MetaScalar::Str(v) => Ok(v),
            _ => Err(CallmError::CandleError(String::from_str("not a string"))),
        }
    }

    /// The value held by a signed 32-bit scalar, or a type-conversion error.
    pub fn as_i32(&self) -> (r: Result<i32, CallmError>)
        ensures
            match self@ {
                MetaScalarV::I32(v) => r == Ok::<i32, CallmError>(v),
                _ => r matches Err(e) && e is CandleError,
            },
    {
        match self {
            MetaScalar::I32(v) => Ok(*v),
            _ => Err(CallmError::CandleError(String::from_str("not a i32"))),
        }
    }

    /// The raw bits held by a 32-bit float scalar, or a type-conversion
    /// error.
    pub fn as_f32_bits(&self) -> (r: Result<u32, CallmError>)
        ensures
            match self@ {
                MetaScalarV::F32Bits(v) => r == Ok::<u32, CallmError>(v),
                _ => r matches Err(e) && e is CandleError,
            },
    {
        match self {
            MetaScalar::F32Bits(v) => Ok(*v),
            _ => Err(CallmError::CandleError(String::from_str("not a f32"))),
        }
    }
}

/// A typed metadata value: a scalar, or an ordered array of scalars of one
/// declared kind.
#[derive(Clone, Debug, PartialEq, Eq)]
pub enum MetaValue {
    Scalar(MetaScalar),
    Array(ScalarKind, Vec<MetaScalar>),
}

/// The mathematical value of a [`MetaValue`].
pub enum MetaValueV {
    Scalar(MetaScalarV),
    Array(ScalarKind, Seq<MetaScalarV>),
}

impl View for MetaValue {
    type V = MetaValueV;

    open spec fn view(&self) -> MetaValueV {
        match self {
            MetaValue::Scalar(s) => MetaValueV::Scalar(s@),
            MetaValue::Array(k, v) => MetaValueV::Array(
                *k,
                v@.map_values(|s: MetaScalar| s@),
            ),
        }
    }
}

impl MetaValue {
    /// The value held by an unsigned 32-bit scalar, or a type-conversion
    /// error.
    pub fn to_u32(&self) -> (r: Result<u32, CallmError>)
        ensures
            match self@ {
                MetaValueV::Scalar(MetaScalarV::U32(v)) => r == Ok::<u32, CallmError>(v),
                _ => r matches Err(e) && e is CandleError,
            },
    {
        match self {
            MetaValue::Scalar(MetaScalar::U32(v)) => Ok(*v),
            _ => Err(CallmError::CandleError(String::from_str("not a u32"))),
        }
    }

    /// The byte string held by a string scalar, or a type-conversion error.
    pub fn to_str_bytes(&self) -> (r: Result<&Vec<u8>, CallmError>)
        ensures
            match self@ {
                MetaValueV::Scalar(MetaScalarV::Str(s)) => r matches Ok(v) && v@ == s,
                _ => r matches Err(e) && e is CandleError,
            },
    {
        match self {
            MetaValue::Scalar(MetaScalar::Str(v)) => Ok(v),
            _ => Err(CallmError::CandleError(String::from_str("not a string"))),
        }
    }

    /// The elements of an array value, or a type-conversion error.
    pub fn to_array(&self) -> (r: Result<&Vec<MetaScalar>, CallmError>)
        ensures
            match self@ {
                MetaValueV::Array(k, s) => r matches Ok(v) && v@.map_values(
                    |x: MetaScalar| x@,
                ) == s,
                _ => r matches Err(e) && e is CandleError,
            },
    {
        match self {
            MetaValue::Array(_, v) => Ok(v),
            _ => Err(CallmError::CandleError(String::from_str("not an array"))),
        }
    }
}

/// First-match lookup over a sequence of key/value entries.
pub open spec fn spec_lookup(
    entries: Seq<(Seq<u8>, MetaValueV)>,
    key: Seq<u8>,
) -> Option<MetaValueV>
    decreases entries.len(),
{
    if entries.len() == 0 {
        None
    } else if entries[0].0 == key {
        Some(entries[0].1)
    } else {
        spec_lookup(entries.skip(1), key)
    }
}

/// The raw metadata map of a container: dotted string keys (as bytes) mapped
/// to typed values, in the order the container declared them.
#[derive(Clone, Debug)]
pub struct MetaMap {
    entries: Vec<(Vec<u8>, MetaValue)>,
}

impl View for MetaMap {
    type V = Seq<(Seq<u8>, MetaValueV)>;

    closed spec fn view(&self) -> Seq<(Seq<u8>, MetaValueV)> {
        self.entries@.map_values(|e: (Vec<u8>, MetaValue)| (e.0@, e.1@))
    }
}

impl MetaMap {
    /// Whether the map is well-formed: no key occurs twice.
    pub open spec fn wf(&self) -> bool {
        forall|i: int, j: int|
            0 <= i < j < self@.len() ==> self@[i].0 != self@[j].0
    }

    /// An empty metadata map.
    pub fn new() -> (r: Self)
        ensures
            r@ == Seq::<(Seq<u8>, MetaValueV)>::empty(),
    {
        let r = MetaMap { entries: Vec::new() };
        proof {
            assert(r@ =~= Seq::<(Seq<u8>, MetaValueV)>::empty());
        }
        r
    }

    /// Appends an entry, keeping declaration order.
    pub fn push(&mut self, key: Vec<u8>, value: MetaValue)
        ensures
            final(self)@ =~= old(self)@.push((key@, value@)),
    {
        self.entries.push((key, value));
        proof {
            assert(final(self)@ =~= old(self)@.push((key@, value@)));
        }
    }

    /// The number of entries.
    pub fn len(&self) -> (r: usize)
        ensures
            r == self@.len(),
    {
        self.entries.len()
    }

    /// Looks a key up: returns the first entry with that key, or `None` when
    /// the key is absent.
    pub fn get(&self, key: &[u8]) -> (r: Option<&MetaValue>)
        ensures
            match r {
                Some(v) => spec_lookup(self@, key@) == Some(v@),
                None => spec_lookup(self@, key@) is None,
            },
    {
        let n = self.entries.len();
        let mut i: usize = 0;
        proof {
            assert(self@.skip(0) =~= self@);
        }
        while i < n
            invariant
                n == self.entries.len(),
                i <= n,
                spec_lookup(self@.skip(i as int), key@) == spec_lookup(self@, key@),
            decreases n - i,
        {
            proof {
                assert(self@.skip(i as int)[0] == self@[i as int]);
            }
            if bytes_eq(self.entries[i].0.as_slice(), key) {
                return Some(&self.entries[i].1);
            }
            proof {
                assert(self@.skip(i as int).skip(1) =~= self@.skip(i as int + 1));
            }
            i = i + 1;
        }
        proof {
            assert(self@.skip(n as int) =~= Seq::<(Seq<u8>, MetaValueV)>::empty());
        }
        None
    }
}

/// Byte-for-byte equality of two slices.
pub fn bytes_eq(a: &[u8], b: &[u8]) -> (r: bool)
    ensures
        r <==> a@ == b@,
{
    if a.len() != b.len() {
        proof {
            assert(a@ != b@) by {
                assert(a@.len() != b@.len());
            }
        }
        return false;
    }
    let n = a.len();
    let mut i: usize = 0;
    while i < n
        invariant
            n == a@.len(),
            n == b@.len(),
            i <= n,
            forall|j: int| 0 <= j < i ==> a@[j] == b@[j],
        decreases n - i,
    {
        if a[i] != b[i] {
            return false;
        }
        i = i + 1;
    }
    proof {
        assert(a@ =~= b@);
    }
    true
}

} // verus!
