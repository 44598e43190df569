//! Binary parser for the quantized container format.
//!
//! A container starts with a four-byte signature and a version, followed by
//! a tensor count, a metadata key/value section and a tensor directory; the
//! tensor data begins at the next aligned offset after the directory. The
//! grammar is written down once as a family of specification functions over
//! the byte sequence (`sp_*`); the executable parser is proved to return
//! exactly what the grammar yields: it succeeds with the grammar's container
//! if and only if the grammar accepts the stream, and fails with a loader
//! error otherwise.

use super::meta::{MetaMap, MetaScalar, MetaScalarV, MetaValue, MetaValueV, ScalarKind, spec_lookup};
use crate::error::CallmError;
use vstd::prelude::*;
use vstd::slice::{slice_subrange, slice_to_vec};
use vstd::string::StringSliceAdditionalSpecFns;

verus! {

/// The container signature "GGUF", read as a little-endian 32-bit value.
pub const GGUF_MAGIC: u32 = 0x46554747;

/// One entry of the tensor directory.
#[derive(Clone, Debug, PartialEq, Eq)]
pub struct TensorEntry {
    /// The tensor's name, as the byte string stored in the directory.
    pub name: Vec<u8>,
    /// The tensor's dimensions.
    pub dims: Vec<u64>,
    /// The code of the tensor's element type.
    pub dtype: u32,
    /// The tensor's byte offset, relative to the start of the tensor data.
    pub offset: u64,
}

/// The mathematical value of a [`TensorEntry`].
pub struct TensorEntryV {
    pub name: Seq<u8>,
    pub dims: Seq<u64>,
    pub dtype: u32,
    pub offset: u64,
}

impl View for TensorEntry {
    type V = TensorEntryV;

    open spec fn view(&self) -> TensorEntryV {
        TensorEntryV { name: self.name@, dims: self.dims@, dtype: self.dtype, offset: self.offset }
    }
}

/// A parsed container: the version, the raw metadata map, the tensor
/// directory, and the aligned offset at which the tensor data begins.
#[derive(Debug)]
pub struct GgufContainer {
    /// The container format version (2 or 3).
    pub version: u32,
    /// The raw metadata map, in declaration order.
    pub meta: MetaMap,
    /// The tensor directory, in declaration order.
    pub tensors: Vec<TensorEntry>,
    /// The byte offset of the tensor data: the end of the tensor directory,
    /// rounded up to the container's alignment.
    pub data_offset: u64,
}

/// The mathematical value of a [`GgufContainer`].
pub struct GgufContainerV {
    pub version: u32,
    pub meta: Seq<(Seq<u8>, MetaValueV)>,
    pub tensors: Seq<TensorEntryV>,
    pub data_offset: u64,
}

impl View for GgufContainer {
    type V = GgufContainerV;

    open spec fn view(&self) -> GgufContainerV {
        GgufContainerV {
            version: self.version,
            meta: self.meta@,
            tensors: self.tensors@.map_values(|t: TensorEntry| t@),
            data_offset: self.data_offset,
        }
    }
}

/// The little-endian value of the two bytes at `p`.
pub open spec fn le_u16(b: Seq<u8>, p: int) -> u16 {
    (b[p] + 0x100 * b[p + 1]) as u16
}

/// The little-endian value of the four bytes at `p`.
pub open spec fn le_u32(b: Seq<u8>, p: int) -> u32 {
    (b[p] + 0x100 * b[p + 1] + 0x1_0000 * b[p + 2] + 0x100_0000 * b[p + 3]) as u32
}

/// The little-endian value of the eight bytes at `p`.
pub open spec fn le_u64(b: Seq<u8>, p: int) -> u64 {
    (b[p] + 0x100 * b[p + 1] + 0x1_0000 * b[p + 2] + 0x100_0000 * b[p + 3] + 0x1_0000_0000 * b[p
        + 4] + 0x100_0000_0000 * b[p + 5] + 0x1_0000_0000_0000 * b[p + 6] + 0x100_0000_0000_0000
        * b[p + 7]) as u64
}

/// Grammar: an unsigned byte at `p`.
pub open spec fn sp_u8(b: Seq<u8>, p: int) -> Option<(u8, int)> {
    if p + 1 <= b.len() {
        Some((b[p], p + 1))
    } else {
        None
    }
}

/// Grammar: a little-endian 16-bit value at `p`.
pub open spec fn sp_u16(b: Seq<u8>, p: int) -> Option<(u16, int)> {
    if p + 2 <= b.len() {
        Some((le_u16(b, p), p + 2))
    } else {
        None
    }
}

/// Grammar: a little-endian 32-bit value at `p`.
pub open spec fn sp_u32(b: Seq<u8>, p: int) -> Option<(u32, int)> {
    if p + 4 <= b.len() {
        Some((le_u32(b, p), p + 4))
    } else {
        None
    }
}

/// Grammar: a little-endian 64-bit value at `p`.
pub open spec fn sp_u64(b: Seq<u8>, p: int) -> Option<(u64, int)> {
    if p + 8 <= b.len() {
        Some((le_u64(b, p), p + 8))
    } else {
        None
    }
}

/// Grammar: a length-prefixed byte string at `p`.
pub open spec fn sp_str(b: Seq<u8>, p: int) -> Option<(Seq<u8>, int)> {
    match sp_u64(b, p) {
        None => None,
        Some((l, p1)) => if p1 + l <= b.len() {
            Some((b.subrange(p1, p1 + l), p1 + l))
        } else {
            None
        },
    }
}

/// The scalar kind declared by a value-type code; the array code (9) and
/// unknown codes declare no scalar kind.
pub open spec fn spec_kind_of_code(c: u32) -> Option<ScalarKind> {
    if c == 0 {
        Some(ScalarKind::U8)
    } else if c == 1 {
        Some(ScalarKind::I8)
    } else if c == 2 {
        Some(ScalarKind::U16)
    } else if c == 3 {
        Some(ScalarKind::I16)
    } else if c == 4 {
        Some(ScalarKind::U32)
    } else if c == 5 {
        Some(ScalarKind::I32)
    } else if c == 6 {
        Some(ScalarKind::F32)
    } else if c == 7 {
        Some(ScalarKind::Bool)
    } else if c == 8 {
        Some(ScalarKind::Str)
    } else if c == 10 {
        Some(ScalarKind::U64)
    } else if c == 11 {
        Some(ScalarKind::I64)
    } else if c == 12 {
        Some(ScalarKind::F64)
    } else {
        None
    }
}

/// Grammar: one scalar of kind `k` at `p`. A boolean byte other than 0 or 1
/// is rejected.
pub open spec fn sp_scalar(k: ScalarKind, b: Seq<u8>, p: int) -> Option<(MetaScalarV, int)> {
    match k {
        ScalarKind::U8 => match sp_u8(b, p) {
            Some((v, p1)) => Some((MetaScalarV::U8(v), p1)),
            None => None,
        },
        ScalarKind::I8 => match sp_u8(b, p) {
            Some((v, p1)) => Some((MetaScalarV::I8(v as i8), p1)),
            None => None,
        },
        ScalarKind::U16 => match sp_u16(b, p) {
            Some((v, p1)) => Some((MetaScalarV::U16(v), p1)),
            None => None,
        },
        ScalarKind::I16 => match sp_u16(b, p) {
            Some((v, p1)) => Some((MetaScalarV::I16(v as i16), p1)),
            None => None,
        },
        ScalarKind::U32 => match sp_u32(b, p) {
            Some((v, p1)) => Some((MetaScalarV::U32(v), p1)),
            None => None,
        },
        ScalarKind::I32 => match sp_u32(b, p) {
            Some((v, p1)) => Some((MetaScalarV::I32(v as i32), p1)),
            None => None,
        },
        ScalarKind::F32 => match sp_u32(b, p) {
            Some((v, p1)) => Some((MetaScalarV::F32Bits(v), p1)),
            None => None,
        },
        ScalarKind::Bool => match sp_u8(b, p) {
            Some((v, p1)) => if v == 0 {
                Some((MetaScalarV::Bool(false), p1))
            } else if v == 1 {
                Some((MetaScalarV::Bool(true), p1))
            } else {
                None
            },
            None => None,
        },
        ScalarKind::Str => match sp_str(b, p) {
            Some((s, p1)) => Some((MetaScalarV::Str(s), p1)),
            None => None,
        },
        ScalarKind::U64 => match sp_u64(b, p) {
            Some((v, p1)) => Some((MetaScalarV::U64(v), p1)),
            None => None,
        },
        ScalarKind::I64 => match sp_u64(b, p) {
            Some((v, p1)) => Some((MetaScalarV::I64(v as i64), p1)),
            None => None,
        },
        ScalarKind::F64 => match sp_u64(b, p) {
            Some((v, p1)) => Some((MetaScalarV::F64Bits(v), p1)),
            None => None,
        },
    }
}

/// Grammar: `n` consecutive scalars of kind `k` starting at `p`.
pub open spec fn sp_elems(k: ScalarKind, n: int, b: Seq<u8>, p: int) -> Option<
    (Seq<MetaScalarV>, int),
>
    decreases n,
{
    if n <= 0 {
        Some((Seq::<MetaScalarV>::empty(), p))
    } else {
        match sp_scalar(k, b, p) {
            None => None,
            Some((v, p1)) => match sp_elems(k, n - 1, b, p1) {
                None => None,
                Some((vs, p2)) => Some((seq![v] + vs, p2)),
            },
        }
    }
}

/// Grammar: one typed metadata value at `p`: a value-type code, then either
/// a scalar payload or an array of element kind, count, and elements.
pub open spec fn sp_value(b: Seq<u8>, p: int) -> Option<(MetaValueV, int)> {
    match sp_u32(b, p) {
        None => None,
        Some((code, p1)) => if code == 9 {
            match sp_u32(b, p1) {
                None => None,
                Some((ecode, p2)) => match spec_kind_of_code(ecode) {
                    None => None,
                    Some(k) => match sp_u64(b, p2) {
                        None => None,
                        Some((n, p3)) => match sp_elems(k, n as int, b, p3) {
                            None => None,
                            Some((vs, p4)) => Some((MetaValueV::Array(k, vs), p4)),
                        },
                    },
                },
            }
        } else {
            match spec_kind_of_code(code) {
                None => None,
                Some(k) => match sp_scalar(k, b, p1) {
                    None => None,
                    Some((v, p2)) => Some((MetaValueV::Scalar(v), p2)),
                },
            }
        },
    }
}

/// Grammar: one metadata entry at `p`: a key string and a typed value.
pub open spec fn sp_entry(b: Seq<u8>, p: int) -> Option<((Seq<u8>, MetaValueV), int)> {
    match sp_str(b, p) {
        None => None,
        Some((key, p1)) => match sp_value(b, p1) {
            None => None,
            Some((v, p2)) => Some(((key, v), p2)),
        },
    }
}

/// Grammar: `n` consecutive metadata entries starting at `p`.
pub open spec fn sp_entries(n: int, b: Seq<u8>, p: int) -> Option<
    (Seq<(Seq<u8>, MetaValueV)>, int),
>
    decreases n,
{
    if n <= 0 {
        Some((Seq::<(Seq<u8>, MetaValueV)>::empty(), p))
    } else {
        match sp_entry(b, p) {
            None => None,
            Some((e, p1)) => match sp_entries(n - 1, b, p1) {
                None => None,
                Some((es, p2)) => Some((seq![e] + es, p2)),
            },
        }
    }
}

/// Grammar: `n` consecutive 64-bit dimensions starting at `p`.
pub open spec fn sp_dims(n: int, b: Seq<u8>, p: int) -> Option<(Seq<u64>, int)>
    decreases n,
{
    if n <= 0 {
        Some((Seq::<u64>::empty(), p))
    } else {
        match sp_u64(b, p) {
            None => None,
            Some((v, p1)) => match sp_dims(n - 1, b, p1) {
                None => None,
                Some((vs, p2)) => Some((seq![v] + vs, p2)),
            },
        }
    }
}

/// Grammar: one tensor-directory entry at `p`: a name, a dimension count,
/// the dimensions, an element-type code and a data offset.
pub open spec fn sp_tensor(b: Seq<u8>, p: int) -> Option<(TensorEntryV, int)> {
    match sp_str(b, p) {
        None => None,
        Some((name, p1)) => match sp_u32(b, p1) {
            None => None,
            Some((nd, p2)) => match sp_dims(nd as int, b, p2) {
                None => None,
                Some((dims, p3)) => match sp_u32(b, p3) {
                    None => None,
                    Some((dtype, p4)) => match sp_u64(b, p4) {
                        None => None,
                        Some((offset, p5)) => Some(
                            (TensorEntryV { name, dims, dtype, offset }, p5),
                        ),
                    },
                },
            },
        },
    }
}

/// Grammar: `n` consecutive tensor-directory entries starting at `p`.
pub open spec fn sp_tensors(n: int, b: Seq<u8>, p: int) -> Option<(Seq<TensorEntryV>, int)>
    decreases n,
{
    if n <= 0 {
        Some((Seq::<TensorEntryV>::empty(), p))
    } else {
        match sp_tensor(b, p) {
            None => None,
            Some((t, p1)) => match sp_tensors(n - 1, b, p1) {
                None => None,
                Some((ts, p2)) => Some((seq![t] + ts, p2)),
            },
        }
    }
}

/// `p` rounded up to the next multiple of `a`; meaningful for `a > 0`.
pub open spec fn spec_align_up(p: int, a: int) -> int {
    if p % a == 0 {
        p
    } else {
        p + a - p % a
    }
}

/// The container's alignment, read from the `general.alignment` metadata
/// key: its 32-bit value when present, 32 when absent. A present key of
/// another type, or a zero alignment, makes the container invalid.
pub open spec fn sp_alignment(meta: Seq<(Seq<u8>, MetaValueV)>) -> Option<int> {
    match spec_lookup(meta, "general.alignment".spec_bytes()) {
        None => Some(32),
        Some(MetaValueV::Scalar(MetaScalarV::U32(a))) => if a > 0 {
            Some(a as int)
        } else {
            None
        },
        Some(_) => None,
    }
}

/// Grammar: a whole container. The stream must start with the signature and
/// a version of 2 or 3, carry the declared number of metadata entries and
/// tensor-directory entries, and leave the aligned tensor-data offset
/// representable in 64 bits.
pub open spec fn sp_container(b: Seq<u8>) -> Option<GgufContainerV> {
    match sp_u32(b, 0) {
        None => None,
        Some((magic, p1)) => if magic != GGUF_MAGIC {
            None
        } else {
            match sp_u32(b, p1) {
                None => None,
                Some((version, p2)) => if version != 2 && version != 3 {
                    None
                } else {
                    match sp_u64(b, p2) {
                        None => None,
                        Some((tensor_count, p3)) => match sp_u64(b, p3) {
                            None => None,
                            Some((kv_count, p4)) => match sp_entries(kv_count as int, b, p4) {
                                None => None,
                                Some((meta, p5)) => match sp_tensors(tensor_count as int, b, p5) {
                                    None => None,
                                    Some((tensors, p6)) => match sp_alignment(meta) {
                                        None => None,
                                        Some(a) => if spec_align_up(p6, a) <= u64::MAX {
                                            Some(
                                                GgufContainerV {
                                                    version,
                                                    meta,
                                                    tensors,
                                                    data_offset: spec_align_up(p6, a) as u64,
                                                },
                                            )
                                        } else {
                                            None
                                        },
                                    },
                                },
                            },
                        },
                    }
                },
            }
        },
    }
}

/// The loader error every parse failure returns.
fn truncated() -> (r: CallmError)
    ensures
        r is LoaderFail,
{
    CallmError::LoaderFail(String::from_str("truncated GGUF stream"))
}

/// Reads the byte at `p`.
fn read_u8(b: &[u8], p: usize) -> (r: Result<(u8, usize), CallmError>)
    ensures
        match r {
            Ok((v, p2)) => sp_u8(b@, p as int) == Some((v, p2 as int)),
            Err(e) => sp_u8(b@, p as int) is None && e is LoaderFail,
        },
{
    if p < b.len() {
        Ok((*vstd::slice::slice_index_get(b, p), p + 1))
    } else {
        Err(truncated())
    }
}

/// Reads the little-endian 16-bit value at `p`.
fn read_u16(b: &[u8], p: usize) -> (r: Result<(u16, usize), CallmError>)
    ensures
        match r {
            Ok((v, p2)) => sp_u16(b@, p as int) == Some((v, p2 as int)),
            Err(e) => sp_u16(b@, p as int) is None && e is LoaderFail,
        },
{
    if b.len() >= 2 && p <= b.len() - 2 {
        let b0 = *vstd::slice::slice_index_get(b, p) as u16;
        let b1 = *vstd::slice::slice_index_get(b, p + 1) as u16;
        Ok((b0 + 0x100 * b1, p + 2))
    } else {
        Err(truncated())
    }
}

/// Reads the little-endian 32-bit value at `p`.
fn read_u32(b: &[u8], p: usize) -> (r: Result<(u32, usize), CallmError>)
    ensures
        match r {
            Ok((v, p2)) => sp_u32(b@, p as int) == Some((v, p2 as int)),
            Err(e) => sp_u32(b@, p as int) is None && e is LoaderFail,
        },
{
    if b.len() >= 4 && p <= b.len() - 4 {
        let b0 = *vstd::slice::slice_index_get(b, p) as u32;
        let b1 = *vstd::slice::slice_index_get(b, p + 1) as u32;
        let b2 = *vstd::slice::slice_index_get(b, p + 2) as u32;
        let b3 = *vstd::slice::slice_index_get(b, p + 3) as u32;
        Ok((b0 + 0x100 * b1 + 0x1_0000 * b2 + 0x100_0000 * b3, p + 4))
    } else {
        Err(truncated())
    }
}

/// Reads the little-endian 64-bit value at `p`.
fn read_u64(b: &[u8], p: usize) -> (r: Result<(u64, usize), CallmError>)
    ensures
        match r {
            Ok((v, p2)) => sp_u64(b@, p as int) == Some((v, p2 as int)),
            Err(e) => sp_u64(b@, p as int) is None && e is LoaderFail,
        },
{
    if b.len() >= 8 && p <= b.len() - 8 {
        let b0 = *vstd::slice::slice_index_get(b, p) as u64;
        let b1 = *vstd::slice::slice_index_get(b, p + 1) as u64;
        let b2 = *vstd::slice::slice_index_get(b, p + 2) as u64;
        let b3 = *vstd::slice::slice_index_get(b, p + 3) as u64;
        let b4 = *vstd::slice::slice_index_get(b, p + 4) as u64;
        let b5 = *vstd::slice::slice_index_get(b, p + 5) as u64;
        let b6 = *vstd::slice::slice_index_get(b, p + 6) as u64;
        let b7 = *vstd::slice::slice_index_get(b, p + 7) as u64;
        Ok(
            (
                b0 + 0x100 * b1 + 0x1_0000 * b2 + 0x100_0000 * b3 + 0x1_0000_0000 * b4
                    + 0x100_0000_0000 * b5 + 0x1_0000_0000_0000 * b6 + 0x100_0000_0000_0000 * b7,
                p + 8,
            ),
        )
    } else {
        Err(truncated())
    }
}

/// Reads the length-prefixed byte string at `p`.
fn read_str(b: &[u8], p: usize) -> (r: Result<(Vec<u8>, usize), CallmError>)
    ensures
        match r {
            Ok((v, p2)) => sp_str(b@, p as int) == Some((v@, p2 as int)),
            Err(e) => sp_str(b@, p as int) is None && e is LoaderFail,
        },
{
    let (l, p1) = match read_u64(b, p) {
        Ok(v) => v,
        Err(e) => {
            return Err(e);
        },
    };
    if l <= (b.len() - p1) as u64 {
        let end = p1 + (l as usize);
        let s = slice_to_vec(slice_subrange(b, p1, end));
        Ok((s, end))
    } else {
        Err(truncated())
    }
}

/// The scalar kind declared by a value-type code.
fn kind_of_code(c: u32) -> (r: Option<ScalarKind>)
    ensures
        r == spec_kind_of_code(c),
{
    match c {
        0 => Some(ScalarKind::U8),
        1 => Some(ScalarKind::I8),
        2 => Some(ScalarKind::U16),
        3 => Some(ScalarKind::I16),
        4 => Some(ScalarKind::U32),
        5 => Some(ScalarKind::I32),
        6 => Some(ScalarKind::F32),
        7 => Some(ScalarKind::Bool),
        8 => Some(ScalarKind::Str),
        10 => Some(ScalarKind::U64),
        11 => Some(ScalarKind::I64),
        12 => Some(ScalarKind::F64),
        _ => None,
    }
}

/// Reads one scalar of kind `k` at `p`.
fn read_scalar(b: &[u8], p: usize, k: ScalarKind) -> (r: Result<(MetaScalar, usize), CallmError>)
    ensures
        match r {
            Ok((v, p2)) => sp_scalar(k, b@, p as int) == Some((v@, p2 as int)),
            Err(e) => sp_scalar(k, b@, p as int) is None && e is LoaderFail,
        },
{
    match k {
        ScalarKind::U8 => match read_u8(b, p) {
            Ok((v, p1)) => Ok((MetaScalar::U8(v), p1)),
            Err(e) => Err(e),
        },
        ScalarKind::I8 => match read_u8(b, p) {
            Ok((v, p1)) => Ok((MetaScalar::I8(v as i8), p1)),
            Err(e) => Err(e),
        },
        ScalarKind::U16 => match read_u16(b, p) {
            Ok((v, p1)) => Ok((MetaScalar::U16(v), p1)),
            Err(e) => Err(e),
        },
        ScalarKind::I16 => match read_u16(b, p) {
            Ok((v, p1)) => Ok((MetaScalar::I16(v as i16), p1)),
            Err(e) => Err(e),
        },
        ScalarKind::U32 => match read_u32(b, p) {
            Ok((v, p1)) => Ok((MetaScalar::U32(v), p1)),
            Err(e) => Err(e),
        },
        ScalarKind::I32 => match read_u32(b, p) {
            Ok((v, p1)) => Ok((MetaScalar::I32(v as i32), p1)),
            Err(e) => Err(e),
        },
        ScalarKind::F32 => match read_u32(b, p) {
            Ok((v, p1)) => Ok((MetaScalar::F32Bits(v), p1)),
            Err(e) => Err(e),
        },
        ScalarKind::Bool => match read_u8(b, p) {
            Ok((v, p1)) => if v == 0 {
                Ok((MetaScalar::Bool(false), p1))
            } else if v == 1 {
                Ok((MetaScalar::Bool(true), p1))
            } else {
                Err(CallmError::LoaderFail(String::from_str("invalid GGUF boolean")))
            },
            Err(e) => Err(e),
        },
        ScalarKind::Str => match read_str(b, p) {
            Ok((s, p1)) => Ok((MetaScalar::Str(s), p1)),
            Err(e) => Err(e),
        },
        ScalarKind::U64 => match read_u64(b, p) {
            Ok((v, p1)) => Ok((MetaScalar::U64(v), p1)),
            Err(e) => Err(e),
        },
        ScalarKind::I64 => match read_u64(b, p) {
            Ok((v, p1)) => Ok((MetaScalar::I64(v as i64), p1)),
            Err(e) => Err(e),
        },
        ScalarKind::F64 => match read_u64(b, p) {
            Ok((v, p1)) => Ok((MetaScalar::F64Bits(v), p1)),
            Err(e) => Err(e),
        },
    }
}

/// Reads `n` consecutive scalars of kind `k` starting at `p`.
fn read_elems(b: &[u8], p: usize, k: ScalarKind, n: u64) -> (r: Result<
    (Vec<MetaScalar>, usize),
    CallmError,
>)
    ensures
        match r {
            Ok((vs, p2)) => sp_elems(k, n as int, b@, p as int) == Some(
                (vs@.map_values(|s: MetaScalar| s@), p2 as int),
            ),
            Err(e) => sp_elems(k, n as int, b@, p as int) is None && e is LoaderFail,
        },
{
    let mut vs: Vec<MetaScalar> = Vec::new();
    let mut pos = p;
    let mut i: u64 = 0;
    proof {
        assert(vs@.map_values(|s: MetaScalar| s@) =~= Seq::<MetaScalarV>::empty());
    }
    while i < n
        invariant
            i <= n,
            match sp_elems(k, n - i, b@, pos as int) {
                None => sp_elems(k, n as int, b@, p as int) is None,
                Some((rest, pe)) => sp_elems(k, n as int, b@, p as int) == Some(
                    (vs@.map_values(|s: MetaScalar| s@) + rest, pe),
                ),
            },
        decreases n - i,
    {
        match read_scalar(b, pos, k) {
            Err(e) => {
                return Err(e);
            },
            Ok((v, p2)) => {
                proof {
                    let done = vs@.map_values(|s: MetaScalar| s@);
                    let done2 = vs@.push(v).map_values(|s: MetaScalar| s@);
                    assert(done2 =~= done.push(v@));
                    match sp_elems(k, n - i - 1, b@, p2 as int) {
                        None => {},
                        Some((rest2, pe)) => {
                            assert(done + (seq![v@] + rest2) =~= done.push(v@) + rest2);
                        },
                    }
                }
                vs.push(v);
                pos = p2;
                i = i + 1;
            },
        }
    }
    proof {
        assert(vs@.map_values(|s: MetaScalar| s@) + Seq::<MetaScalarV>::empty() =~= vs@.map_values(
            |s: MetaScalar| s@,
        ));
    }
    Ok((vs, pos))
}

/// Reads one typed metadata value at `p`.
fn read_value(b: &[u8], p: usize) -> (r: Result<(MetaValue, usize), CallmError>)
    ensures
        match r {
            Ok((v, p2)) => sp_value(b@, p as int) == Some((v@, p2 as int)),
            Err(e) => sp_value(b@, p as int) is None && e is LoaderFail,
        },
{
    let (code, p1) = match read_u32(b, p) {
        Ok(v) => v,
        Err(e) => {
            return Err(e);
        },
    };
    if code == 9 {
        let (ecode, p2) = match read_u32(b, p1) {
            Ok(v) => v,
            Err(e) => {
                return Err(e);
            },
        };
        let k = match kind_of_code(ecode) {
            Some(k) => k,
            None => {
                return Err(CallmError::LoaderFail(String::from_str("invalid GGUF value type")));
            },
        };
        let (n, p3) = match read_u64(b, p2) {
            Ok(v) => v,
            Err(e) => {
                return Err(e);
            },
        };
        match read_elems(b, p3, k, n) {
            Ok((vs, p4)) => Ok((MetaValue::Array(k, vs), p4)),
            Err(e) => Err(e),
        }
    } else {
        let k = match kind_of_code(code) {
            Some(k) => k,
            None => {
                return Err(CallmError::LoaderFail(String::from_str("invalid GGUF value type")));
            },
        };
        match read_scalar(b, p1, k) {
            Ok((v, p2)) => Ok((MetaValue::Scalar(v), p2)),
            Err(e) => Err(e),
        }
    }
}

/// Reads one metadata entry (key and typed value) at `p`.
fn read_entry(b: &[u8], p: usize) -> (r: Result<((Vec<u8>, MetaValue), usize), CallmError>)
    ensures
        match r {
            Ok(((key, v), p2)) => sp_entry(b@, p as int) == Some(((key@, v@), p2 as int)),
            Err(e) => sp_entry(b@, p as int) is None && e is LoaderFail,
        },
{
    let (key, p1) = match read_str(b, p) {
        Ok(v) => v,
        Err(e) => {
            return Err(e);
        },
    };
    match read_value(b, p1) {
        Ok((v, p2)) => Ok(((key, v), p2)),
        Err(e) => Err(e),
    }
}

/// Reads one tensor-directory entry at `p`.
#[verifier::loop_isolation(false)]
fn read_tensor(b: &[u8], p: usize) -> (r: Result<(TensorEntry, usize), CallmError>)
    ensures
        match r {
            Ok((t, p2)) => sp_tensor(b@, p as int) == Some((t@, p2 as int)),
            Err(e) => sp_tensor(b@, p as int) is None && e is LoaderFail,
        },
{
    let (name, p1) = match read_str(b, p) {
        Ok(v) => v,
        Err(e) => {
            return Err(e);
        },
    };
    let (nd, p2) = match read_u32(b, p1) {
        Ok(v) => v,
        Err(e) => {
            return Err(e);
        },
    };
    let mut dims: Vec<u64> = Vec::new();
    let mut pos = p2;
    let mut i: u32 = 0;
    proof {
        assert(dims@ =~= Seq::<u64>::empty());
    }
    while i < nd
        invariant
            i <= nd,
            match sp_dims(nd - i, b@, pos as int) {
                None => sp_dims(nd as int, b@, p2 as int) is None,
                Some((rest, pe)) => sp_dims(nd as int, b@, p2 as int) == Some(
                    (dims@ + rest, pe),
                ),
            },
        decreases nd - i,
    {
        match read_u64(b, pos) {
            Err(e) => {
                return Err(e);
            },
            Ok((v, pn)) => {
                proof {
                    match sp_dims(nd - i - 1, b@, pn as int) {
                        None => {},
                        Some((rest2, pe)) => {
                            assert(dims@ + (seq![v] + rest2) =~= dims@.push(v) + rest2);
                        },
                    }
                }
                dims.push(v);
                pos = pn;
                i = i + 1;
            },
        }
    }
    proof {
        assert(dims@ + Seq::<u64>::empty() =~= dims@);
    }
    let (dtype, p4) = match read_u32(b, pos) {
        Ok(v) => v,
        Err(e) => {
            return Err(e);
        },
    };
    let (offset, p5) = match read_u64(b, p4) {
        Ok(v) => v,
        Err(e) => {
            return Err(e);
        },
    };
    Ok((TensorEntry { name, dims, dtype, offset }, p5))
}

/// Parses a whole container from a byte stream.
///
/// Succeeds exactly when the grammar [`sp_container`] accepts the stream,
/// and then returns the grammar's container; every failure (absent
/// signature, unsupported version, truncated stream, malformed value) is a
/// loader error.
#[verifier::loop_isolation(false)]
#[verifier::rlimit(60)]
pub fn parse_container(bytes: &[u8]) -> (r: Result<GgufContainer, CallmError>)
    ensures
        match r {
            Ok(c) => sp_container(bytes@) == Some(c@),
            Err(e) => sp_container(bytes@) is None && e is LoaderFail,
        },
{
    let (magic, p1) = match read_u32(bytes, 0) {
        Ok(v) => v,
        Err(e) => {
            return Err(e);
        },
    };
    if magic != GGUF_MAGIC {
        return Err(CallmError::LoaderFail(String::from_str("bad GGUF signature")));
    }
    let (version, p2) = match read_u32(bytes, p1) {
        Ok(v) => v,
        Err(e) => {
            return Err(e);
        },
    };
    if version != 2 && version != 3 {
        return Err(CallmError::LoaderFail(String::from_str("unsupported GGUF version")));
    }
    let (tensor_count, p3) = match read_u64(bytes, p2) {
        Ok(v) => v,
        Err(e) => {
            return Err(e);
        },
    };
    let (kv_count, p4) = match read_u64(bytes, p3) {
        Ok(v) => v,
        Err(e) => {
            return Err(e);
        },
    };

    // Metadata section.
    let mut meta = MetaMap::new();
    let mut pos = p4;
    let mut i: u64 = 0;
    while i < kv_count
        invariant
            i <= kv_count,
            match sp_entries(kv_count - i, bytes@, pos as int) {
                None => sp_entries(kv_count as int, bytes@, p4 as int) is None,
                Some((rest, pe)) => sp_entries(kv_count as int, bytes@, p4 as int) == Some(
                    (meta@ + rest, pe),
                ),
            },
        decreases kv_count - i,
    {
        match read_entry(bytes, pos) {
            Err(e) => {
                return Err(e);
            },
            Ok(((key, v), pn)) => {
                proof {
                    match sp_entries(kv_count - i - 1, bytes@, pn as int) {
                        None => {},
                        Some((rest2, pe)) => {
                            assert(meta@ + (seq![(key@, v@)] + rest2) =~= meta@.push((key@, v@))
                                + rest2);
                        },
                    }
                }
                meta.push(key, v);
                pos = pn;
                i = i + 1;
            },
        }
    }
    proof {
        assert(meta@ + Seq::<(Seq<u8>, MetaValueV)>::empty() =~= meta@);
    }
    let ghost p5 = pos as int;

    // Tensor directory.
    let mut tensors: Vec<TensorEntry> = Vec::new();
    let mut j: u64 = 0;
    proof {
        assert(tensors@.map_values(|t: TensorEntry| t@) =~= Seq::<TensorEntryV>::empty());
    }
    while j < tensor_count
        invariant
            j <= tensor_count,
            match sp_tensors(tensor_count - j, bytes@, pos as int) {
                None => sp_tensors(tensor_count as int, bytes@, p5) is None,
                Some((rest, pe)) => sp_tensors(tensor_count as int, bytes@, p5) == Some(
                    (tensors@.map_values(|t: TensorEntry| t@) + rest, pe),
                ),
            },
        decreases tensor_count - j,
    {
        match read_tensor(bytes, pos) {
            Err(e) => {
                return Err(e);
            },
            Ok((t, pn)) => {
                proof {
                    let done = tensors@.map_values(|t: TensorEntry| t@);
                    assert(tensors@.push(t).map_values(|t: TensorEntry| t@) =~= done.push(t@));
                    match sp_tensors(tensor_count - j - 1, bytes@, pn as int) {
                        None => {},
                        Some((rest2, pe)) => {
                            assert(done + (seq![t@] + rest2) =~= done.push(t@) + rest2);
                        },
                    }
                }
                tensors.push(t);
                pos = pn;
                j = j + 1;
            },
        }
    }
    proof {
        assert(tensors@.map_values(|t: TensorEntry| t@) + Seq::<TensorEntryV>::empty()
            =~= tensors@.map_values(|t: TensorEntry| t@));
    }

    // Alignment and tensor-data offset.
    let alignment: u64 = match meta.get("general.alignment".as_bytes()) {
        None => 32,
        Some(v) => match v {
            MetaValue::Scalar(MetaScalar::U32(a)) => {
                if *a > 0 {
                    *a as u64
                } else {
                    return Err(CallmError::LoaderFail(String::from_str(
                        "invalid GGUF alignment",
                    )));
                }
            },
            _ => {
                return Err(CallmError::LoaderFail(String::from_str("invalid GGUF alignment")));
            },
        },
    };
    let end = pos as u64;
    let rem = end % alignment;
    let data_offset: u64 = if rem == 0 {
        end
    } else {
        let add = alignment - rem;
        if end <= u64::MAX - add {
            end + add
        } else {
            return Err(CallmError::LoaderFail(String::from_str("invalid GGUF alignment")));
        }
    };
    Ok(GgufContainer { version, meta, tensors, data_offset })
}

} // verus!
