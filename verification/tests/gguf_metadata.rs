use callm::error::CallmError;
use callm::gguf::meta::{MetaMap, MetaScalar, MetaValue, ScalarKind};
use callm::loaders::gguf::{
    fix_llama_eos, gguf_template, interpret_gguf, parse_general_kv, parse_required_kv,
    parse_tokenizer_kv, LoaderGgufInfoModel,
};
use callm::loaders::gguf::llama::parse_llama_kv;
use callm::gguf::parse::{parse_container, GGUF_MAGIC};
use callm::templates::Template;

fn str_value(s: &[u8]) -> MetaValue {
    MetaValue::Scalar(MetaScalar::Str(s.to_vec()))
}

fn u32_value(v: u32) -> MetaValue {
    MetaValue::Scalar(MetaScalar::U32(v))
}

fn str_array(vals: &[&[u8]]) -> MetaValue {
    MetaValue::Array(
        ScalarKind::Str,
        vals.iter().map(|v| MetaScalar::Str(v.to_vec())).collect(),
    )
}

fn base_map() -> MetaMap {
    let mut m = MetaMap::new();
    m.push(b"general.architecture".to_vec(), str_value(b"llama"));
    m.push(b"general.quantization_version".to_vec(), u32_value(2));
    m
}

fn llama_map() -> MetaMap {
    let mut m = base_map();
    m.push(b"tokenizer.ggml.model".to_vec(), str_value(b"gpt2"));
    m.push(b"tokenizer.ggml.tokens".to_vec(), str_array(&[b"a", b"b", b"ab"]));
    m.push(b"tokenizer.ggml.bos_token_id".to_vec(), u32_value(0));
    m.push(b"tokenizer.ggml.eos_token_id".to_vec(), u32_value(1));
    m.push(b"llama.context_length".to_vec(), u32_value(4096));
    m.push(b"llama.embedding_length".to_vec(), u32_value(64));
    m.push(b"llama.block_count".to_vec(), u32_value(2));
    m.push(b"llama.feed_forward_length".to_vec(), u32_value(128));
    m.push(b"llama.rope.dimension_count".to_vec(), u32_value(16));
    m.push(b"llama.attention.head_count".to_vec(), u32_value(4));
    m.push(
        b"llama.attention.layer_norm_rms_epsilon".to_vec(),
        MetaValue::Scalar(MetaScalar::F32Bits(0x3727C5AC)),
    );
    m
}

#[test]
fn required_kv_reads_architecture_and_defaults_alignment() {
    let info = parse_required_kv(&base_map()).unwrap();
    assert_eq!(info.architecture, "llama");
    assert_eq!(info.quantization_version, 2);
    assert_eq!(info.alignment, 32);

    let mut m = base_map();
    m.push(b"general.alignment".to_vec(), u32_value(64));
    assert_eq!(parse_required_kv(&m).unwrap().alignment, 64);
}

#[test]
fn missing_architecture_names_the_key() {
    let mut m = MetaMap::new();
    m.push(b"general.quantization_version".to_vec(), u32_value(2));
    let e = parse_required_kv(&m).unwrap_err();
    match e {
        CallmError::LoaderFail(msg) => {
            assert_eq!(msg, "Missing GGUF metadata key general.architecture");
        }
        other => panic!("expected a loader failure, got {:?}", other),
    }
}

#[test]
fn wrong_type_for_required_key_is_a_type_error() {
    let mut m = MetaMap::new();
    m.push(b"general.architecture".to_vec(), u32_value(1));
    let e = parse_required_kv(&m).unwrap_err();
    assert!(matches!(e, CallmError::CandleError(_)));
}

#[test]
fn general_kv_reads_optional_fields_leniently() {
    let mut m = base_map();
    m.push(b"general.name".to_vec(), str_value(b"Test Model"));
    m.push(b"general.source.url".to_vec(), str_value(b"http://example"));
    let info = parse_general_kv(&m).unwrap();
    assert_eq!(info.name.as_deref(), Some("Test Model"));
    assert_eq!(info.author, None);
    assert_eq!(info.source.url.as_deref(), Some("http://example"));
    assert_eq!(info.source.huggingface_repository, None);

    // a present optional key of the wrong type propagates a type error
    let mut bad = base_map();
    bad.push(b"general.author".to_vec(), u32_value(5));
    assert!(matches!(parse_general_kv(&bad).unwrap_err(), CallmError::CandleError(_)));
}

#[test]
fn tokenizer_kv_reads_all_sections() {
    let mut m = llama_map();
    m.push(b"tokenizer.ggml.pre".to_vec(), str_value(b"llama-bpe"));
    m.push(b"tokenizer.chat_template".to_vec(), str_value(b"{{ messages }}"));
    m.push(
        b"tokenizer.ggml.token_type".to_vec(),
        MetaValue::Array(
            ScalarKind::I32,
            vec![MetaScalar::I32(1), MetaScalar::I32(1), MetaScalar::I32(3)],
        ),
    );
    m.push(b"tokenizer.ggml.merges".to_vec(), str_array(&[b"a b"]));
    let t = parse_tokenizer_kv(&m).unwrap();
    assert_eq!(t.model, "gpt2");
    assert_eq!(t.tokens, vec!["a", "b", "ab"]);
    assert_eq!(t.pre.as_deref(), Some("llama-bpe"));
    assert_eq!(t.chat_template.as_deref(), Some("{{ messages }}"));
    assert_eq!(t.bos_token_id, Some(0));
    assert_eq!(t.eos_token_id, Some(1));
    assert_eq!(t.unknown_token_id, None);
    assert_eq!(t.token_type, Some(vec![1, 1, 3]));
    assert_eq!(t.merges, Some(vec!["a b".to_string()]));
}

#[test]
fn tokenizer_kv_requires_vocabulary() {
    let m = base_map();
    assert!(parse_tokenizer_kv(&m).is_err());
}

#[test]
fn llama_kv_reads_hyperparameters() {
    let info = parse_llama_kv(&llama_map()).unwrap();
    assert_eq!(info.context_length, 4096);
    assert_eq!(info.embedding_length, 64);
    assert_eq!(info.block_count, 2);
    assert_eq!(info.feed_forward_length, 128);
    assert_eq!(info.rope.dimension_count, 16);
    assert_eq!(info.attention.head_count, 4);
    assert_eq!(info.attention.layer_norm_rms_epsilon_bits, 0x3727C5AC);
    assert_eq!(info.attention.head_count_kv, None);

    let mut m = MetaMap::new();
    m.push(b"llama.embedding_length".to_vec(), u32_value(64));
    assert!(parse_llama_kv(&m).is_err());
}

#[test]
fn eos_quirk_fires_only_on_the_known_id_and_text() {
    let mut toks = vec![String::new(); 128_002];
    toks[128_001] = "<|end_of_text|>".to_string();
    assert_eq!(fix_llama_eos(&toks, Some(128_001)), Some(128_009));

    // declared id maps to different text: kept
    let mut other = vec![String::new(); 128_002];
    other[128_001] = "<|eot_id|>".to_string();
    assert_eq!(fix_llama_eos(&other, Some(128_001)), Some(128_001));

    // different id with the known text elsewhere: kept
    assert_eq!(fix_llama_eos(&toks, Some(5)), Some(5));
    // id outside the vocabulary: kept
    assert_eq!(fix_llama_eos(&vec!["x".to_string()], Some(128_001)), Some(128_001));
    assert_eq!(fix_llama_eos(&toks, None), None);
}

#[test]
fn interpret_gguf_builds_the_description() {
    let info = interpret_gguf(&llama_map()).unwrap();
    assert_eq!(info.architecture, "llama");
    assert_eq!(info.tokenizer.eos_token_id, Some(1));
    match info.model {
        LoaderGgufInfoModel::Llama(lm) => assert_eq!(lm.context_length, 4096),
        other => panic!("expected the llama record, got {:?}", other),
    }
}

#[test]
fn interpret_gguf_rejects_other_architectures() {
    let mut m = llama_map();
    // a fresh map with a different architecture up front
    let mut m2 = MetaMap::new();
    m2.push(b"general.architecture".to_vec(), str_value(b"mamba"));
    m2.push(b"general.quantization_version".to_vec(), u32_value(2));
    m2.push(b"tokenizer.ggml.model".to_vec(), str_value(b"gpt2"));
    m2.push(b"tokenizer.ggml.tokens".to_vec(), str_array(&[b"a"]));
    assert!(matches!(interpret_gguf(&m2).unwrap_err(), CallmError::UnsupportedModel));

    // out-of-range special token id is rejected
    m.push(b"tokenizer.ggml.padding_token_id".to_vec(), u32_value(7));
    let info = interpret_gguf(&m).unwrap();
    assert_eq!(info.tokenizer.padding_token_id, Some(7));
}

#[test]
fn quirk_applies_end_to_end_from_container_bytes() {
    // a container whose declared EOS id 128001 names <|end_of_text|>
    let mut bytes = Vec::new();
    bytes.extend(GGUF_MAGIC.to_le_bytes());
    bytes.extend(3u32.to_le_bytes());
    bytes.extend(0u64.to_le_bytes());
    bytes.extend(12u64.to_le_bytes());
    let gstr = |out: &mut Vec<u8>, s: &[u8]| {
        out.extend((s.len() as u64).to_le_bytes());
        out.extend_from_slice(s);
    };
    let kv_str = |out: &mut Vec<u8>, k: &[u8], v: &[u8]| {
        gstr(out, k);
        out.extend(8u32.to_le_bytes());
        gstr(out, v);
    };
    let kv_u32 = |out: &mut Vec<u8>, k: &[u8], v: u32| {
        gstr(out, k);
        out.extend(4u32.to_le_bytes());
        out.extend(v.to_le_bytes());
    };
    kv_str(&mut bytes, b"general.architecture", b"llama");
    kv_u32(&mut bytes, b"general.quantization_version", 2);
    // a vocabulary large enough to hold the corrected id, whose entry
    // 128001 is the known text
    gstr(&mut bytes, b"tokenizer.ggml.tokens");
    bytes.extend(9u32.to_le_bytes());
    bytes.extend(8u32.to_le_bytes());
    bytes.extend(128_010u64.to_le_bytes());
    for i in 0..128_010u64 {
        if i == 128_001 {
            gstr(&mut bytes, b"<|end_of_text|>");
        } else {
            gstr(&mut bytes, b"");
        }
    }
    kv_str(&mut bytes, b"tokenizer.ggml.model", b"gpt2");
    kv_u32(&mut bytes, b"tokenizer.ggml.eos_token_id", 128_001);
    kv_u32(&mut bytes, b"llama.context_length", 4096);
    kv_u32(&mut bytes, b"llama.embedding_length", 64);
    kv_u32(&mut bytes, b"llama.block_count", 2);
    kv_u32(&mut bytes, b"llama.feed_forward_length", 128);
    kv_u32(&mut bytes, b"llama.rope.dimension_count", 16);
    kv_u32(&mut bytes, b"llama.attention.head_count", 4);
    gstr(&mut bytes, b"llama.attention.layer_norm_rms_epsilon");
    bytes.extend(6u32.to_le_bytes());
    bytes.extend(0x3727C5ACu32.to_le_bytes());

    let container = parse_container(bytes.as_slice()).unwrap();
    let info = interpret_gguf(&container.meta).unwrap();
    // the interpreted description carries the corrected id, not the declared one
    assert_eq!(info.tokenizer.eos_token_id, Some(128_009));
}

#[test]
fn gguf_template_selects_by_embedded_template() {
    let mut m = llama_map();
    m.push(b"tokenizer.chat_template".to_vec(), str_value(b"{{ bos_token }}"));
    let info = interpret_gguf(&m).unwrap();
    let tpl = gguf_template(&info);
    match &tpl {
        Template::Jinja(_) => {}
        Template::Dummy(_) => panic!("expected the structured template"),
    }
    assert_eq!(tpl.get_bos_token(), Some("a"));
    assert_eq!(tpl.get_eos_token(), Some("b"));

    let info2 = interpret_gguf(&llama_map()).unwrap();
    let tpl2 = gguf_template(&info2);
    assert!(matches!(tpl2, Template::Dummy(_)));
}
