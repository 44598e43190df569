//! Specification-level encoder for the container format, and the law that
//! the parser grammar accepts exactly what the encoder produces.
//!
//! Nothing here runs: the encoder is the mathematical description of a
//! well-formed container's bytes, and [`lemma_container_roundtrip`] proves
//! that [`sp_container`] recovers the encoded container from them, whatever
//! tensor data follows. Together with the parser's contract - it returns
//! exactly what the grammar yields - this pins the parser against an
//! independent description of the format.

use super::meta::{MetaScalarV, MetaValueV, ScalarKind};
use super::parse::{
    le_u16, le_u32, le_u64, sp_container, sp_dims, sp_elems, sp_entries, sp_entry, sp_scalar,
    sp_str, sp_tensor, sp_tensors, sp_u16, sp_u32, sp_u64, sp_value, sp_alignment, spec_align_up,
    spec_kind_of_code, GgufContainerV, TensorEntryV, GGUF_MAGIC,
};
use vstd::arithmetic::div_mod::{lemma_div_denominator, lemma_fundamental_div_mod};
use vstd::prelude::*;

verus! {

/// The two little-endian bytes of a 16-bit value.
pub open spec fn enc_u16(v: u16) -> Seq<u8> {
    seq![(v % 0x100) as u8, ((v / 0x100) % 0x100) as u8]
}

/// The four little-endian bytes of a 32-bit value.
pub open spec fn enc_u32(v: u32) -> Seq<u8> {
    seq![
        (v % 0x100) as u8,
        ((v / 0x100) % 0x100) as u8,
        ((v / 0x1_0000) % 0x100) as u8,
        ((v / 0x100_0000) % 0x100) as u8,
    ]
}

/// The eight little-endian bytes of a 64-bit value.
pub open spec fn enc_u64(v: u64) -> Seq<u8> {
    seq![
        (v % 0x100) as u8,
        ((v / 0x100) % 0x100) as u8,
        ((v / 0x1_0000) % 0x100) as u8,
        ((v / 0x100_0000) % 0x100) as u8,
        ((v / 0x1_0000_0000) % 0x100) as u8,
        ((v / 0x100_0000_0000) % 0x100) as u8,
        ((v / 0x1_0000_0000_0000) % 0x100) as u8,
        ((v / 0x100_0000_0000_0000) % 0x100) as u8,
    ]
}

/// A length-prefixed byte string.
pub open spec fn enc_str(s: Seq<u8>) -> Seq<u8> {
    enc_u64(s.len() as u64) + s
}

/// The value-type code a scalar kind is declared with.
pub open spec fn scalar_code(k: ScalarKind) -> u32 {
    match k {
        ScalarKind::U8 => 0,
        ScalarKind::I8 => 1,
        ScalarKind::U16 => 2,
        ScalarKind::I16 => 3,
        ScalarKind::U32 => 4,
        ScalarKind::I32 => 5,
        ScalarKind::F32 => 6,
        ScalarKind::Bool => 7,
        ScalarKind::Str => 8,
        ScalarKind::U64 => 10,
        ScalarKind::I64 => 11,
        ScalarKind::F64 => 12,
    }
}

/// The kind tag of a scalar value.
pub open spec fn scalar_kind(v: MetaScalarV) -> ScalarKind {
    match v {
        MetaScalarV::U8(_) => ScalarKind::U8,
        MetaScalarV::I8(_) => ScalarKind::I8,
        MetaScalarV::U16(_) => ScalarKind::U16,
        MetaScalarV::I16(_) => ScalarKind::I16,
        MetaScalarV::U32(_) => ScalarKind::U32,
        MetaScalarV::I32(_) => ScalarKind::I32,
        MetaScalarV::F32Bits(_) => ScalarKind::F32,
        MetaScalarV::Bool(_) => ScalarKind::Bool,
        MetaScalarV::Str(_) => ScalarKind::Str,
        MetaScalarV::U64(_) => ScalarKind::U64,
        MetaScalarV::I64(_) => ScalarKind::I64,
        MetaScalarV::F64Bits(_) => ScalarKind::F64,
    }
}

/// One scalar's payload bytes.
pub open spec fn enc_scalar(v: MetaScalarV) -> Seq<u8> {
    match v {
        MetaScalarV::U8(x) => seq![x],
        MetaScalarV::I8(x) => seq![x as u8],
        MetaScalarV::U16(x) => enc_u16(x),
        MetaScalarV::I16(x) => enc_u16(x as u16),
        MetaScalarV::U32(x) => enc_u32(x),
        MetaScalarV::I32(x) => enc_u32(x as u32),
        MetaScalarV::F32Bits(x) => enc_u32(x),
        MetaScalarV::Bool(x) => seq![if x { 1u8 } else { 0u8 }],
        MetaScalarV::Str(s) => enc_str(s),
        MetaScalarV::U64(x) => enc_u64(x),
        MetaScalarV::I64(x) => enc_u64(x as u64),
        MetaScalarV::F64Bits(x) => enc_u64(x),
    }
}

/// Consecutive scalar payloads.
pub open spec fn enc_elems(vs: Seq<MetaScalarV>) -> Seq<u8>
    decreases vs.len(),
{
    if vs.len() == 0 {
        Seq::<u8>::empty()
    } else {
        enc_scalar(vs[0]) + enc_elems(vs.skip(1))
    }
}

/// One typed value: its type code, then its payload (with the element
/// kind and count first for an array).
pub open spec fn enc_value(v: MetaValueV) -> Seq<u8> {
    match v {
        MetaValueV::Scalar(s) => enc_u32(scalar_code(scalar_kind(s))) + enc_scalar(s),
        MetaValueV::Array(k, vs) => enc_u32(9) + (enc_u32(scalar_code(k)) + (enc_u64(
            vs.len() as u64,
        ) + enc_elems(vs))),
    }
}

/// One metadata entry: its key string, then its typed value.
pub open spec fn enc_entry(e: (Seq<u8>, MetaValueV)) -> Seq<u8> {
    enc_str(e.0) + enc_value(e.1)
}

/// Consecutive metadata entries.
pub open spec fn enc_entries(es: Seq<(Seq<u8>, MetaValueV)>) -> Seq<u8>
    decreases es.len(),
{
    if es.len() == 0 {
        Seq::<u8>::empty()
    } else {
        enc_entry(es[0]) + enc_entries(es.skip(1))
    }
}

/// Consecutive 64-bit dimensions.
pub open spec fn enc_dims(ds: Seq<u64>) -> Seq<u8>
    decreases ds.len(),
{
    if ds.len() == 0 {
        Seq::<u8>::empty()
    } else {
        enc_u64(ds[0]) + enc_dims(ds.skip(1))
    }
}

/// One tensor-directory entry.
pub open spec fn enc_tensor(t: TensorEntryV) -> Seq<u8> {
    enc_str(t.name) + (enc_u32(t.dims.len() as u32) + (enc_dims(t.dims) + (enc_u32(t.dtype)
        + enc_u64(t.offset))))
}

/// Consecutive tensor-directory entries.
pub open spec fn enc_tensors(ts: Seq<TensorEntryV>) -> Seq<u8>
    decreases ts.len(),
{
    if ts.len() == 0 {
        Seq::<u8>::empty()
    } else {
        enc_tensor(ts[0]) + enc_tensors(ts.skip(1))
    }
}

/// A whole container's bytes, before the tensor data.
pub open spec fn enc_container(
    version: u32,
    meta: Seq<(Seq<u8>, MetaValueV)>,
    tensors: Seq<TensorEntryV>,
) -> Seq<u8> {
    enc_u32(GGUF_MAGIC) + (enc_u32(version) + (enc_u64(tensors.len() as u64) + (enc_u64(
        meta.len() as u64,
    ) + (enc_entries(meta) + enc_tensors(tensors)))))
}

/// Whether a scalar is encodable: a byte string must be length-prefixable.
pub open spec fn wf_scalar(v: MetaScalarV) -> bool {
    match v {
        MetaScalarV::Str(s) => s.len() <= u64::MAX,
        _ => true,
    }
}

/// Whether a value is encodable: scalars encodable, and every array
/// element of the array's declared kind.
pub open spec fn wf_value(v: MetaValueV) -> bool {
    match v {
        MetaValueV::Scalar(s) => wf_scalar(s),
        MetaValueV::Array(k, vs) => vs.len() <= u64::MAX && (forall|i: int|
            0 <= i < vs.len() ==> scalar_kind(#[trigger] vs[i]) == k && wf_scalar(vs[i])),
    }
}

/// Whether a metadata entry is encodable.
pub open spec fn wf_entry(e: (Seq<u8>, MetaValueV)) -> bool {
    e.0.len() <= u64::MAX && wf_value(e.1)
}

/// Whether a tensor-directory entry is encodable.
pub open spec fn wf_tensor(t: TensorEntryV) -> bool {
    t.name.len() <= u64::MAX && t.dims.len() <= u32::MAX
}

/// Whether a whole container is encodable.
pub open spec fn wf_container(
    version: u32,
    meta: Seq<(Seq<u8>, MetaValueV)>,
    tensors: Seq<TensorEntryV>,
) -> bool {
    &&& (version == 2 || version == 3)
    &&& meta.len() <= u64::MAX
    &&& tensors.len() <= u64::MAX
    &&& (forall|i: int| 0 <= i < meta.len() ==> wf_entry(#[trigger] meta[i]))
    &&& (forall|i: int| 0 <= i < tensors.len() ==> wf_tensor(#[trigger] tensors[i]))
}

/// The little-endian bytes of a 16-bit value recompose to it.
proof fn lemma_le_u16(b: Seq<u8>, p: int, v: u16)
    requires
        0 <= p,
        p + 2 <= b.len(),
        b.subrange(p, p + 2) == enc_u16(v),
    ensures
        sp_u16(b, p) == Some((v, p + 2)),
{
    assert(b[p] == enc_u16(v)[0] && b[p + 1] == enc_u16(v)[1]) by {
        assert(b.subrange(p, p + 2)[0] == b[p]);
        assert(b.subrange(p, p + 2)[1] == b[p + 1]);
    }
    assert(v % 0x100 + 0x100 * ((v / 0x100) % 0x100) == v) by {
        lemma_fundamental_div_mod(v as int, 0x100);
        assert((v / 0x100) % 0x100 == v / 0x100);
    }
    assert(le_u16(b, p) == v);
}

/// The little-endian bytes of a 32-bit value recompose to it.
proof fn lemma_le_u32(b: Seq<u8>, p: int, v: u32)
    requires
        0 <= p,
        p + 4 <= b.len(),
        b.subrange(p, p + 4) == enc_u32(v),
    ensures
        sp_u32(b, p) == Some((v, p + 4)),
{
    assert forall|i: int| 0 <= i < 4 implies b[p + i] == enc_u32(v)[i] by {
        assert(b.subrange(p, p + 4)[i] == b[p + i]);
    }
    assert(v % 0x100 + 0x100 * ((v / 0x100) % 0x100) + 0x1_0000 * ((v / 0x1_0000) % 0x100)
        + 0x100_0000 * ((v / 0x100_0000) % 0x100) == v) by {
        lemma_fundamental_div_mod(v as int, 0x100);
        lemma_fundamental_div_mod(v as int / 0x100, 0x100);
        lemma_fundamental_div_mod(v as int / 0x1_0000, 0x100);
        lemma_div_denominator(v as int, 0x100, 0x100);
        lemma_div_denominator(v as int, 0x1_0000, 0x100);
        assert((v / 0x100_0000) % 0x100 == v / 0x100_0000);
    }
    assert(le_u32(b, p) == v);
}

/// The little-endian bytes of a 64-bit value recompose to it.
proof fn lemma_le_u64(b: Seq<u8>, p: int, v: u64)
    requires
        0 <= p,
        p + 8 <= b.len(),
        b.subrange(p, p + 8) == enc_u64(v),
    ensures
        sp_u64(b, p) == Some((v, p + 8)),
{
    assert forall|i: int| 0 <= i < 8 implies b[p + i] == enc_u64(v)[i] by {
        assert(b.subrange(p, p + 8)[i] == b[p + i]);
    }
    assert(v % 0x100 + 0x100 * ((v / 0x100) % 0x100) + 0x1_0000 * ((v / 0x1_0000) % 0x100)
        + 0x100_0000 * ((v / 0x100_0000) % 0x100) + 0x1_0000_0000 * ((v / 0x1_0000_0000) % 0x100)
        + 0x100_0000_0000 * ((v / 0x100_0000_0000) % 0x100) + 0x1_0000_0000_0000 * ((v
        / 0x1_0000_0000_0000) % 0x100) + 0x100_0000_0000_0000 * ((v / 0x100_0000_0000_0000)
        % 0x100) == v) by {
        lemma_fundamental_div_mod(v as int, 0x100);
        lemma_fundamental_div_mod(v as int / 0x100, 0x100);
        lemma_fundamental_div_mod(v as int / 0x1_0000, 0x100);
        lemma_fundamental_div_mod(v as int / 0x100_0000, 0x100);
        lemma_fundamental_div_mod(v as int / 0x1_0000_0000, 0x100);
        lemma_fundamental_div_mod(v as int / 0x100_0000_0000, 0x100);
        lemma_fundamental_div_mod(v as int / 0x1_0000_0000_0000, 0x100);
        lemma_div_denominator(v as int, 0x100, 0x100);
        lemma_div_denominator(v as int, 0x1_0000, 0x100);
        lemma_div_denominator(v as int, 0x100_0000, 0x100);
        lemma_div_denominator(v as int, 0x1_0000_0000, 0x100);
        lemma_div_denominator(v as int, 0x100_0000_0000, 0x100);
        lemma_div_denominator(v as int, 0x1_0000_0000_0000, 0x100);
        assert((v / 0x100_0000_0000_0000) % 0x100 == v / 0x100_0000_0000_0000);
    }
    assert(le_u64(b, p) == v);
}

/// Splitting a matched concatenation splits the byte range.
proof fn lemma_subrange_split(b: Seq<u8>, p: int, x: Seq<u8>, y: Seq<u8>)
    requires
        0 <= p,
        p + x.len() + y.len() <= b.len(),
        b.subrange(p, p + x.len() + y.len()) == x + y,
    ensures
        b.subrange(p, p + x.len() as int) == x,
        b.subrange(p + x.len() as int, p + x.len() + y.len()) == y,
{
    let w = b.subrange(p, p + x.len() + y.len());
    assert(b.subrange(p, p + x.len() as int) =~= x) by {
        assert forall|i: int| 0 <= i < x.len() implies b.subrange(p, p + x.len() as int)[i] == x[i]
        by {
            assert(w[i] == b[p + i]);
            assert(w[i] == (x + y)[i]);
        }
    }
    assert(b.subrange(p + x.len() as int, p + x.len() + y.len()) =~= y) by {
        assert forall|i: int|
            0 <= i < y.len() implies b.subrange(p + x.len() as int, p + x.len() + y.len())[i]
            == y[i] by {
            assert(w[x.len() + i] == b[p + x.len() + i]);
            assert(w[x.len() + i] == (x + y)[x.len() + i]);
        }
    }
}

/// A length-prefixed byte string parses back to itself.
proof fn lemma_sp_str(b: Seq<u8>, p: int, s: Seq<u8>)
    requires
        0 <= p,
        s.len() <= u64::MAX,
        p + enc_str(s).len() <= b.len(),
        b.subrange(p, p + enc_str(s).len()) == enc_str(s),
    ensures
        sp_str(b, p) == Some((s, p + enc_str(s).len())),
{
    let n = s.len() as u64;
    lemma_subrange_split(b, p, enc_u64(n), s);
    lemma_le_u64(b, p, n);
}

/// One scalar payload parses back to itself under its own kind.
proof fn lemma_sp_scalar(b: Seq<u8>, p: int, v: MetaScalarV)
    requires
        0 <= p,
        wf_scalar(v),
        p + enc_scalar(v).len() <= b.len(),
        b.subrange(p, p + enc_scalar(v).len()) == enc_scalar(v),
    ensures
        sp_scalar(scalar_kind(v), b, p) == Some((v, p + enc_scalar(v).len())),
{
    match v {
        MetaScalarV::U8(x) => {
            assert(b[p] == x) by {
                assert(b.subrange(p, p + 1)[0] == b[p]);
            }
        },
        MetaScalarV::I8(x) => {
            assert(b[p] == x as u8) by {
                assert(b.subrange(p, p + 1)[0] == b[p]);
            }
            assert((x as u8) as i8 == x) by (bit_vector);
        },
        MetaScalarV::U16(x) => {
            lemma_le_u16(b, p, x);
        },
        MetaScalarV::I16(x) => {
            lemma_le_u16(b, p, x as u16);
            assert((x as u16) as i16 == x) by (bit_vector);
        },
        MetaScalarV::U32(x) => {
            lemma_le_u32(b, p, x);
        },
        MetaScalarV::I32(x) => {
            lemma_le_u32(b, p, x as u32);
            assert((x as u32) as i32 == x) by (bit_vector);
        },
        MetaScalarV::F32Bits(x) => {
            lemma_le_u32(b, p, x);
        },
        MetaScalarV::Bool(x) => {
            assert(b[p] == (if x { 1u8 } else { 0u8 })) by {
                assert(b.subrange(p, p + 1)[0] == b[p]);
            }
        },
        MetaScalarV::Str(s) => {
            lemma_sp_str(b, p, s);
        },
        MetaScalarV::U64(x) => {
            lemma_le_u64(b, p, x);
        },
        MetaScalarV::I64(x) => {
            lemma_le_u64(b, p, x as u64);
            assert((x as u64) as i64 == x) by (bit_vector);
        },
        MetaScalarV::F64Bits(x) => {
            lemma_le_u64(b, p, x);
        },
    }
}

/// Consecutive scalar payloads of one kind parse back to themselves.
proof fn lemma_sp_elems(b: Seq<u8>, p: int, k: ScalarKind, vs: Seq<MetaScalarV>)
    requires
        0 <= p,
        forall|i: int| 0 <= i < vs.len() ==> scalar_kind(#[trigger] vs[i]) == k && wf_scalar(vs[i]),
        p + enc_elems(vs).len() <= b.len(),
        b.subrange(p, p + enc_elems(vs).len()) == enc_elems(vs),
    ensures
        sp_elems(k, vs.len() as int, b, p) == Some((vs, p + enc_elems(vs).len())),
    decreases vs.len(),
{
    if vs.len() == 0 {
    } else {
        lemma_subrange_split(b, p, enc_scalar(vs[0]), enc_elems(vs.skip(1)));
        lemma_sp_scalar(b, p, vs[0]);
        let p1 = p + enc_scalar(vs[0]).len();
        lemma_sp_elems(b, p1, k, vs.skip(1));
        assert(seq![vs[0]] + vs.skip(1) =~= vs);
    }
}

/// Encoded kind codes decode to the same kind.
proof fn lemma_kind_code(k: ScalarKind)
    ensures
        spec_kind_of_code(scalar_code(k)) == Some(k),
        scalar_code(k) != 9,
{
}

/// One typed value parses back to itself.
#[verifier::rlimit(100)]
#[verifier::spinoff_prover]
proof fn lemma_sp_value(b: Seq<u8>, p: int, v: MetaValueV)
    requires
        0 <= p,
        wf_value(v),
        p + enc_value(v).len() <= b.len(),
        b.subrange(p, p + enc_value(v).len()) == enc_value(v),
    ensures
        sp_value(b, p) == Some((v, p + enc_value(v).len())),
{
    match v {
        MetaValueV::Scalar(s) => {
            let k = scalar_kind(s);
            lemma_kind_code(k);
            lemma_subrange_split(b, p, enc_u32(scalar_code(k)), enc_scalar(s));
            lemma_le_u32(b, p, scalar_code(k));
            lemma_sp_scalar(b, p + 4, s);
        },
        MetaValueV::Array(k, vs) => {
            lemma_kind_code(k);
            lemma_subrange_split(
                b,
                p,
                enc_u32(9),
                enc_u32(scalar_code(k)) + (enc_u64(vs.len() as u64) + enc_elems(vs)),
            );
            lemma_le_u32(b, p, 9);
            lemma_subrange_split(
                b,
                p + 4,
                enc_u32(scalar_code(k)),
                enc_u64(vs.len() as u64) + enc_elems(vs),
            );
            lemma_le_u32(b, p + 4, scalar_code(k));
            lemma_subrange_split(b, p + 8, enc_u64(vs.len() as u64), enc_elems(vs));
            lemma_le_u64(b, p + 8, vs.len() as u64);
            lemma_sp_elems(b, p + 16, k, vs);
        },
    }
}

/// One metadata entry parses back to itself.
proof fn lemma_sp_entry(b: Seq<u8>, p: int, e: (Seq<u8>, MetaValueV))
    requires
        0 <= p,
        wf_entry(e),
        p + enc_entry(e).len() <= b.len(),
        b.subrange(p, p + enc_entry(e).len()) == enc_entry(e),
    ensures
        sp_entry(b, p) == Some((e, p + enc_entry(e).len())),
{
    lemma_subrange_split(b, p, enc_str(e.0), enc_value(e.1));
    lemma_sp_str(b, p, e.0);
    lemma_sp_value(b, p + enc_str(e.0).len(), e.1);
}

/// Consecutive metadata entries parse back to themselves.
proof fn lemma_sp_entries(b: Seq<u8>, p: int, es: Seq<(Seq<u8>, MetaValueV)>)
    requires
        0 <= p,
        forall|i: int| 0 <= i < es.len() ==> wf_entry(#[trigger] es[i]),
        p + enc_entries(es).len() <= b.len(),
        b.subrange(p, p + enc_entries(es).len()) == enc_entries(es),
    ensures
        sp_entries(es.len() as int, b, p) == Some((es, p + enc_entries(es).len())),
    decreases es.len(),
{
    if es.len() == 0 {
    } else {
        lemma_subrange_split(b, p, enc_entry(es[0]), enc_entries(es.skip(1)));
        lemma_sp_entry(b, p, es[0]);
        lemma_sp_entries(b, p + enc_entry(es[0]).len(), es.skip(1));
        assert(seq![es[0]] + es.skip(1) =~= es);
    }
}

/// Consecutive dimensions parse back to themselves.
proof fn lemma_sp_dims(b: Seq<u8>, p: int, ds: Seq<u64>)
    requires
        0 <= p,
        p + enc_dims(ds).len() <= b.len(),
        b.subrange(p, p + enc_dims(ds).len()) == enc_dims(ds),
    ensures
        sp_dims(ds.len() as int, b, p) == Some((ds, p + enc_dims(ds).len())),
    decreases ds.len(),
{
    if ds.len() == 0 {
    } else {
        lemma_subrange_split(b, p, enc_u64(ds[0]), enc_dims(ds.skip(1)));
        lemma_le_u64(b, p, ds[0]);
        lemma_sp_dims(b, p + 8, ds.skip(1));
        assert(seq![ds[0]] + ds.skip(1) =~= ds);
    }
}

/// One tensor-directory entry parses back to itself.
proof fn lemma_sp_tensor(b: Seq<u8>, p: int, t: TensorEntryV)
    requires
        0 <= p,
        wf_tensor(t),
        p + enc_tensor(t).len() <= b.len(),
        b.subrange(p, p + enc_tensor(t).len()) == enc_tensor(t),
    ensures
        sp_tensor(b, p) == Some((t, p + enc_tensor(t).len())),
{
    lemma_subrange_split(
        b,
        p,
        enc_str(t.name),
        enc_u32(t.dims.len() as u32) + (enc_dims(t.dims) + (enc_u32(t.dtype) + enc_u64(
            t.offset,
        ))),
    );
    lemma_sp_str(b, p, t.name);
    let p1 = p + enc_str(t.name).len() as int;
    lemma_subrange_split(
        b,
        p1,
        enc_u32(t.dims.len() as u32),
        enc_dims(t.dims) + (enc_u32(t.dtype) + enc_u64(t.offset)),
    );
    lemma_le_u32(b, p1, t.dims.len() as u32);
    let p2 = p1 + 4;
    lemma_subrange_split(b, p2, enc_dims(t.dims), enc_u32(t.dtype) + enc_u64(t.offset));
    lemma_sp_dims(b, p2, t.dims);
    let p3 = p2 + enc_dims(t.dims).len() as int;
    lemma_subrange_split(b, p3, enc_u32(t.dtype), enc_u64(t.offset));
    lemma_le_u32(b, p3, t.dtype);
    lemma_le_u64(b, p3 + 4, t.offset);
}

/// Consecutive tensor-directory entries parse back to themselves.
proof fn lemma_sp_tensors(b: Seq<u8>, p: int, ts: Seq<TensorEntryV>)
    requires
        0 <= p,
        forall|i: int| 0 <= i < ts.len() ==> wf_tensor(#[trigger] ts[i]),
        p + enc_tensors(ts).len() <= b.len(),
        b.subrange(p, p + enc_tensors(ts).len()) == enc_tensors(ts),
    ensures
        sp_tensors(ts.len() as int, b, p) == Some((ts, p + enc_tensors(ts).len())),
    decreases ts.len(),
{
    if ts.len() == 0 {
    } else {
        lemma_subrange_split(b, p, enc_tensor(ts[0]), enc_tensors(ts.skip(1)));
        lemma_sp_tensor(b, p, ts[0]);
        lemma_sp_tensors(b, p + enc_tensor(ts[0]).len(), ts.skip(1));
        assert(seq![ts[0]] + ts.skip(1) =~= ts);
    }
}

/// The header, metadata section and tensor directory of an encoded
/// container parse back to what was encoded.
#[verifier::rlimit(100)]
#[verifier::spinoff_prover]
proof fn lemma_container_sections(
    version: u32,
    meta: Seq<(Seq<u8>, MetaValueV)>,
    tensors: Seq<TensorEntryV>,
    rest: Seq<u8>,
)
    requires
        wf_container(version, meta, tensors),
    ensures
        ({
            let enc = enc_container(version, meta, tensors);
            let b = enc + rest;
            &&& sp_u32(b, 0) == Some((GGUF_MAGIC, 4int))
            &&& sp_u32(b, 4) == Some((version, 8int))
            &&& sp_u64(b, 8) == Some((tensors.len() as u64, 16int))
            &&& sp_u64(b, 16) == Some((meta.len() as u64, 24int))
            &&& sp_entries(meta.len() as int, b, 24) == Some(
                (meta, 24 + enc_entries(meta).len() as int),
            )
            &&& sp_tensors(
                tensors.len() as int,
                b,
                24 + enc_entries(meta).len() as int,
            ) == Some((tensors, enc.len() as int))
        }),
{
    let enc = enc_container(version, meta, tensors);
    let b = enc + rest;
    assert(b.subrange(0, enc.len() as int) =~= enc);
    lemma_subrange_split(
        b,
        0,
        enc_u32(GGUF_MAGIC),
        enc_u32(version) + (enc_u64(tensors.len() as u64) + (enc_u64(meta.len() as u64) + (
        enc_entries(meta) + enc_tensors(tensors)))),
    );
    lemma_le_u32(b, 0, GGUF_MAGIC);
    lemma_subrange_split(
        b,
        4,
        enc_u32(version),
        enc_u64(tensors.len() as u64) + (enc_u64(meta.len() as u64) + (enc_entries(meta)
            + enc_tensors(tensors))),
    );
    lemma_le_u32(b, 4, version);
    lemma_subrange_split(
        b,
        8,
        enc_u64(tensors.len() as u64),
        enc_u64(meta.len() as u64) + (enc_entries(meta) + enc_tensors(tensors)),
    );
    lemma_le_u64(b, 8, tensors.len() as u64);
    lemma_subrange_split(
        b,
        16,
        enc_u64(meta.len() as u64),
        enc_entries(meta) + enc_tensors(tensors),
    );
    lemma_le_u64(b, 16, meta.len() as u64);
    lemma_subrange_split(b, 24, enc_entries(meta), enc_tensors(tensors));
    lemma_sp_entries(b, 24, meta);
    let p5: int = 24 + enc_entries(meta).len() as int;
    lemma_sp_tensors(b, p5, tensors);

    let end: int = p5 + enc_tensors(tensors).len() as int;
    assert(end == enc.len());
}

/// The round-trip law of the container format: the grammar accepts the
/// encoder's bytes - whatever tensor data follows them - and recovers
/// exactly the encoded container, with the tensor-data offset at the end
/// of the directory rounded up to the container's alignment. A container
/// whose metadata declares an unusable alignment is not accepted.
#[verifier::rlimit(100)]
pub proof fn lemma_container_roundtrip(
    version: u32,
    meta: Seq<(Seq<u8>, MetaValueV)>,
    tensors: Seq<TensorEntryV>,
    rest: Seq<u8>,
)
    requires
        wf_container(version, meta, tensors),
    ensures
        ({
            let enc = enc_container(version, meta, tensors);
            let b = enc + rest;
            match sp_alignment(meta) {
                Some(a) => if spec_align_up(enc.len() as int, a) <= u64::MAX {
                    sp_container(b) == Some(
                        GgufContainerV {
                            version,
                            meta,
                            tensors,
                            data_offset: spec_align_up(enc.len() as int, a) as u64,
                        },
                    )
                } else {
                    sp_container(b) is None
                },
                None => sp_container(b) is None,
            }
        }),
{
    lemma_container_sections(version, meta, tensors, rest);
    let enc = enc_container(version, meta, tensors);
    let b = enc + rest;
    assert(meta.len() as u64 as int == meta.len() && tensors.len() as u64 as int
        == tensors.len());
}

} // verus!
