use callm::error::CallmError;
use callm::gguf::meta::{MetaScalar, MetaValue};
use callm::gguf::parse::{parse_container, GGUF_MAGIC};

fn le32(v: u32) -> Vec<u8> {
    v.to_le_bytes().to_vec()
}

fn le64(v: u64) -> Vec<u8> {
    v.to_le_bytes().to_vec()
}

fn gstr(s: &[u8]) -> Vec<u8> {
    let mut out = le64(s.len() as u64);
    out.extend_from_slice(s);
    out
}

fn header(version: u32, tensor_count: u64, kv_count: u64) -> Vec<u8> {
    let mut out = le32(GGUF_MAGIC);
    out.extend(le32(version));
    out.extend(le64(tensor_count));
    out.extend(le64(kv_count));
    out
}

fn kv_string(key: &[u8], val: &[u8]) -> Vec<u8> {
    let mut out = gstr(key);
    out.extend(le32(8));
    out.extend(gstr(val));
    out
}

fn kv_u32(key: &[u8], val: u32) -> Vec<u8> {
    let mut out = gstr(key);
    out.extend(le32(4));
    out.extend(le32(val));
    out
}

fn kv_string_array(key: &[u8], vals: &[&[u8]]) -> Vec<u8> {
    let mut out = gstr(key);
    out.extend(le32(9));
    out.extend(le32(8));
    out.extend(le64(vals.len() as u64));
    for v in vals {
        out.extend(gstr(v));
    }
    out
}

#[test]
fn container_minimal_roundtrip() {
    let mut bytes = header(3, 0, 2);
    bytes.extend(kv_string(b"general.architecture", b"llama"));
    bytes.extend(kv_u32(b"general.quantization_version", 2));
    let end = bytes.len() as u64;

    let c = parse_container(bytes.as_slice()).unwrap();
    assert_eq!(c.version, 3);
    assert_eq!(c.tensors.len(), 0);
    assert_eq!(
        c.meta.get(b"general.architecture"),
        Some(&MetaValue::Scalar(MetaScalar::Str(b"llama".to_vec())))
    );
    assert_eq!(
        c.meta.get(b"general.quantization_version"),
        Some(&MetaValue::Scalar(MetaScalar::U32(2)))
    );
    assert_eq!(c.meta.get(b"absent.key"), None);
    // Default alignment of 32: the data offset is the directory end rounded
    // up to the next multiple of 32.
    assert_eq!(c.data_offset, end.div_ceil(32) * 32);
}

#[test]
fn container_string_array_and_types() {
    let mut bytes = header(2, 0, 3);
    bytes.extend(kv_string_array(b"tokenizer.ggml.tokens", &[b"a", b"b", b"ab"]));
    // bool value
    bytes.extend(gstr(b"flag"));
    bytes.extend(le32(7));
    bytes.push(1);
    // f32 value: raw bits of 1.0f32
    bytes.extend(gstr(b"eps"));
    bytes.extend(le32(6));
    bytes.extend(le32(0x3F80_0000));

    let c = parse_container(bytes.as_slice()).unwrap();
    assert_eq!(c.version, 2);
    match c.meta.get(b"tokenizer.ggml.tokens").unwrap() {
        MetaValue::Array(_, items) => {
            assert_eq!(items.len(), 3);
            assert_eq!(items[0], MetaScalar::Str(b"a".to_vec()));
            assert_eq!(items[2], MetaScalar::Str(b"ab".to_vec()));
        }
        other => panic!("expected an array, got {:?}", other),
    }
    assert_eq!(c.meta.get(b"flag"), Some(&MetaValue::Scalar(MetaScalar::Bool(true))));
    assert_eq!(
        c.meta.get(b"eps"),
        Some(&MetaValue::Scalar(MetaScalar::F32Bits(0x3F80_0000)))
    );
}

#[test]
fn container_tensor_directory() {
    let mut bytes = header(3, 1, 1);
    bytes.extend(kv_u32(b"general.alignment", 64));
    // one tensor: name, n_dims=2, dims, dtype, offset
    bytes.extend(gstr(b"blk.0.attn_q.weight"));
    bytes.extend(le32(2));
    bytes.extend(le64(4096));
    bytes.extend(le64(32));
    bytes.extend(le32(12));
    bytes.extend(le64(0));
    let end = bytes.len() as u64;

    let c = parse_container(bytes.as_slice()).unwrap();
    assert_eq!(c.tensors.len(), 1);
    assert_eq!(c.tensors[0].name, b"blk.0.attn_q.weight".to_vec());
    assert_eq!(c.tensors[0].dims, vec![4096, 32]);
    assert_eq!(c.tensors[0].dtype, 12);
    assert_eq!(c.tensors[0].offset, 0);
    // declared alignment of 64 governs the data offset
    assert_eq!(c.data_offset, end.div_ceil(64) * 64);
}

#[test]
fn container_empty_sections() {
    let bytes = header(3, 0, 0);
    let c = parse_container(bytes.as_slice()).unwrap();
    assert_eq!(c.meta.len(), 0);
    assert_eq!(c.tensors.len(), 0);
    // the 24-byte header rounds up to the default alignment
    assert_eq!(c.data_offset, 32);
}

#[test]
fn container_repeated_keys_first_wins_on_lookup() {
    let mut bytes = header(3, 0, 2);
    bytes.extend(kv_u32(b"k", 1));
    bytes.extend(kv_u32(b"k", 2));
    let c = parse_container(bytes.as_slice()).unwrap();
    assert_eq!(c.meta.len(), 2);
    assert_eq!(c.meta.get(b"k"), Some(&MetaValue::Scalar(MetaScalar::U32(1))));
}

#[test]
fn container_bad_signature() {
    let mut bytes = le32(0x46554746);
    bytes.extend(le32(3));
    bytes.extend(le64(0));
    bytes.extend(le64(0));
    let e = parse_container(bytes.as_slice()).unwrap_err();
    assert!(matches!(e, CallmError::LoaderFail(_)));
}

#[test]
fn container_unsupported_version() {
    let bytes = header(1, 0, 0);
    let e = parse_container(bytes.as_slice()).unwrap_err();
    assert!(matches!(e, CallmError::LoaderFail(_)));
}

#[test]
fn container_truncated_stream() {
    let mut bytes = header(3, 0, 1);
    bytes.extend(gstr(b"general.architecture"));
    bytes.extend(le32(8));
    bytes.extend(le64(100)); // string claims 100 bytes, none follow
    let e = parse_container(bytes.as_slice()).unwrap_err();
    assert!(matches!(e, CallmError::LoaderFail(_)));

    let e2 = parse_container(&[0x47, 0x47]).unwrap_err();
    assert!(matches!(e2, CallmError::LoaderFail(_)));
}

#[test]
fn container_invalid_value_type() {
    let mut bytes = header(3, 0, 1);
    bytes.extend(gstr(b"key"));
    bytes.extend(le32(99));
    bytes.push(0);
    let e = parse_container(bytes.as_slice()).unwrap_err();
    assert!(matches!(e, CallmError::LoaderFail(_)));
}

#[test]
fn container_invalid_bool_byte() {
    let mut bytes = header(3, 0, 1);
    bytes.extend(gstr(b"flag"));
    bytes.extend(le32(7));
    bytes.push(2);
    let e = parse_container(bytes.as_slice()).unwrap_err();
    assert!(matches!(e, CallmError::LoaderFail(_)));
}

#[test]
fn container_nested_array_rejected() {
    // an array whose declared element type is itself the array code
    let mut bytes = header(3, 0, 1);
    bytes.extend(gstr(b"nested"));
    bytes.extend(le32(9));
    bytes.extend(le32(9));
    bytes.extend(le64(0));
    let e = parse_container(bytes.as_slice()).unwrap_err();
    assert!(matches!(e, CallmError::LoaderFail(_)));
}
