use callm::error::CallmError;
use callm::loaders::gguf::LoaderGgufInfoTokenizer;
use callm::tokenize::{build_gguf_tokenizer, control_tokens, split_merges, vocab_pairs};

fn description() -> LoaderGgufInfoTokenizer {
    LoaderGgufInfoTokenizer {
        model: "gpt2".to_string(),
        tokens: vec![
            "a".to_string(),
            "b".to_string(),
            "ab".to_string(),
            "<eos>".to_string(),
        ],
        pre: None,
        bos_token_id: None,
        eos_token_id: Some(3),
        unknown_token_id: None,
        separator_token_id: None,
        padding_token_id: None,
        chat_template: None,
        scores_bits: None,
        token_type: Some(vec![1, 1, 1, 3]),
        merges: Some(vec!["a b".to_string()]),
        added_tokens: None,
    }
}

#[test]
fn vocab_pairs_index_equals_id() {
    let pairs = vocab_pairs(&vec!["x".to_string(), "y".to_string()]).unwrap();
    assert_eq!(pairs, vec![("x".to_string(), 0), ("y".to_string(), 1)]);
}

#[test]
fn split_merges_splits_at_first_space() {
    let pairs = split_merges(&vec!["a b".to_string(), "ab c d".to_string()]).unwrap();
    assert_eq!(pairs[0], ("a".to_string(), "b".to_string()));
    // split happens at the first interior separator only
    assert_eq!(pairs[1], ("ab".to_string(), "c d".to_string()));

    let e = split_merges(&vec!["nospace".to_string()]).unwrap_err();
    assert!(matches!(e, CallmError::TokenizerError { .. }));
}

#[test]
fn control_tokens_follow_the_classification() {
    let toks = vec!["a".to_string(), "<s>".to_string(), "b".to_string()];
    let specials = control_tokens(&toks, &vec![1, 3, 1]).unwrap();
    assert_eq!(specials, vec!["<s>".to_string()]);

    // a control flag outside the vocabulary is an error
    let e = control_tokens(&toks, &vec![1, 1, 1, 3]).unwrap_err();
    assert!(matches!(e, CallmError::TokenizerError { .. }));

    // non-control entries past the vocabulary end are ignored
    let ok = control_tokens(&toks, &vec![1, 1, 1, 2]).unwrap();
    assert_eq!(ok, Vec::<String>::new());
}

#[test]
fn build_rejects_unknown_model_family() {
    let mut d = description();
    d.model = "wordpiece".to_string();
    assert!(matches!(
        build_gguf_tokenizer(&d).unwrap_err(),
        CallmError::TokenizerError { .. }
    ));

    // recognized but not yet implemented family also fails
    let mut d2 = description();
    d2.model = "llama".to_string();
    assert!(build_gguf_tokenizer(&d2).is_err());
}

#[test]
fn build_rejects_unhandled_pre_tokenizer_tags() {
    let mut d = description();
    d.pre = Some("falcon".to_string());
    assert!(build_gguf_tokenizer(&d).is_err());

    let mut d2 = description();
    d2.pre = Some("completely-unknown".to_string());
    assert!(build_gguf_tokenizer(&d2).is_err());
}

#[test]
fn build_rejects_merges_longer_than_any_token() {
    // both merge sides exist, but their concatenation outgrows every
    // vocabulary entry: the encoder builder's buffer could not hold it
    let mut d = description();
    d.tokens = vec!["a".to_string(), "b".to_string()];
    d.token_type = None;
    d.merges = Some(vec!["a b".to_string()]);
    assert!(matches!(
        build_gguf_tokenizer(&d).unwrap_err(),
        CallmError::TokenizerError { .. }
    ));
}

#[test]
fn build_requires_merge_rules() {
    let mut d = description();
    d.merges = None;
    assert!(matches!(
        build_gguf_tokenizer(&d).unwrap_err(),
        CallmError::TokenizerError { .. }
    ));
}

#[test]
fn encode_decode_roundtrip() {
    let tokenizer = build_gguf_tokenizer(&description()).unwrap();
    // the whole-token vocabulary match wins over character pieces
    let ids = tokenizer.encode("ab", false).unwrap().get_ids().to_vec();
    assert_eq!(ids, vec![2]);
    let text = tokenizer.decode(&ids, true).unwrap();
    assert_eq!(text, "ab");

    // round-trip through merge application
    let ids2 = tokenizer.encode("ba", false).unwrap().get_ids().to_vec();
    let text2 = tokenizer.decode(&ids2, true).unwrap();
    assert_eq!(text2, "ba");
}

#[test]
fn control_tokens_bypass_encoding_and_survive_decode() {
    let tokenizer = build_gguf_tokenizer(&description()).unwrap();
    assert_eq!(tokenizer.token_to_id("<eos>"), Some(3));
    let ids = tokenizer.encode("<eos>ab", false).unwrap().get_ids().to_vec();
    assert_eq!(ids, vec![3, 2]);
    // skipping special tokens drops the control token from the text
    assert_eq!(tokenizer.decode(&ids, true).unwrap(), "ab");
    // keeping them preserves the control token verbatim
    assert_eq!(tokenizer.decode(&ids, false).unwrap(), "<eos>ab");
}

#[test]
fn llama_bpe_pre_tokenizer_is_accepted() {
    let mut d = description();
    d.pre = Some("llama-bpe".to_string());
    let tokenizer = build_gguf_tokenizer(&d).unwrap();
    let ids = tokenizer.encode("ab", false).unwrap().get_ids().to_vec();
    let text = tokenizer.decode(&ids, true).unwrap();
    assert_eq!(text, "ab");
}
