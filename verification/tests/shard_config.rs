use callm::error::CallmError;
use callm::loaders::safetensors::{
    architecture_from_name, collect_index_files, fix_shard_eos, parse_chat_template,
    parse_shard_config, read_model_index_json, shard_template, JsonLeaf,
};
use callm::models::ModelArchitecture;
use callm::templates::Template;

#[test]
fn shard_config_reads_tokens_and_architecture() {
    let text = r#"{"bos_token_id": 1, "eos_token_id": 2, "architectures": ["MistralForCausalLM"]}"#;
    let c = parse_shard_config(text).unwrap();
    assert_eq!(c.bos_token_id, 1);
    assert_eq!(c.eos_token_id, 2);
    assert_eq!(c.architecture, ModelArchitecture::Mistral);
    assert_eq!(c.architecture_name, "MistralForCausalLM");
}

#[test]
fn shard_config_applies_the_llama_eos_correction() {
    let text =
        r#"{"bos_token_id": 128000, "eos_token_id": 128001, "architectures": ["LlamaForCausalLM"]}"#;
    let c = parse_shard_config(text).unwrap();
    assert_eq!(c.eos_token_id, 128009);
    assert_eq!(c.architecture, ModelArchitecture::Llama);

    // another architecture with the same id is left alone
    let other =
        r#"{"bos_token_id": 1, "eos_token_id": 128001, "architectures": ["Qwen2ForCausalLM"]}"#;
    assert_eq!(parse_shard_config(other).unwrap().eos_token_id, 128001);

    assert_eq!(fix_shard_eos(&"LlamaForCausalLM".to_string(), 128001), 128009);
    assert_eq!(fix_shard_eos(&"LlamaForCausalLM".to_string(), 2), 2);
    assert_eq!(fix_shard_eos(&"MistralForCausalLM".to_string(), 128001), 128001);
}

#[test]
fn shard_config_names_each_missing_piece() {
    let missing_bos = r#"{"eos_token_id": 2, "architectures": ["MistralForCausalLM"]}"#;
    match parse_shard_config(missing_bos).unwrap_err() {
        CallmError::LoaderFail(msg) => assert_eq!(msg, "Missing BOS token ID in model config"),
        other => panic!("expected a loader failure, got {:?}", other),
    }

    let bad_eos = r#"{"bos_token_id": 1, "eos_token_id": "x", "architectures": ["A"]}"#;
    match parse_shard_config(bad_eos).unwrap_err() {
        CallmError::LoaderFail(msg) => {
            assert_eq!(msg, "Model config EOS token ID is not an integer")
        }
        other => panic!("expected a loader failure, got {:?}", other),
    }

    let empty_arch = r#"{"bos_token_id": 1, "eos_token_id": 2, "architectures": []}"#;
    match parse_shard_config(empty_arch).unwrap_err() {
        CallmError::LoaderFail(msg) => {
            assert_eq!(msg, "Empty architectures array in model config")
        }
        other => panic!("expected a loader failure, got {:?}", other),
    }

    let missing_eos = r#"{"bos_token_id": 1, "architectures": ["MistralForCausalLM"]}"#;
    match parse_shard_config(missing_eos).unwrap_err() {
        CallmError::LoaderFail(msg) => assert_eq!(msg, "Missing EOS token ID in model config"),
        other => panic!("expected a loader failure, got {:?}", other),
    }

    let not_json = "not json at all";
    assert!(matches!(parse_shard_config(not_json).unwrap_err(), CallmError::SerdeError(_)));

    let not_object = "[1, 2]";
    match parse_shard_config(not_object).unwrap_err() {
        CallmError::LoaderFail(msg) => assert_eq!(msg, "Unknown model config format"),
        other => panic!("expected a loader failure, got {:?}", other),
    }
}

#[test]
fn unknown_architecture_parses_as_unsupported() {
    let text = r#"{"bos_token_id": 1, "eos_token_id": 2, "architectures": ["FutureForCausalLM"]}"#;
    let c = parse_shard_config(text).unwrap();
    assert_eq!(c.architecture, ModelArchitecture::Unsupported);

    assert_eq!(architecture_from_name(&"Gemma2ForCausalLM".to_string()), ModelArchitecture::Gemma);
    assert_eq!(architecture_from_name(&"Phi3ForCausalLM".to_string()), ModelArchitecture::Phi3);
    assert_eq!(architecture_from_name(&"".to_string()), ModelArchitecture::Unsupported);
}

#[test]
fn chat_template_read_is_lenient() {
    assert_eq!(
        parse_chat_template(r#"{"chat_template": "{{ messages }}"}"#),
        Some("{{ messages }}".to_string())
    );
    assert_eq!(parse_chat_template(r#"{"other": 1}"#), None);
    assert_eq!(parse_chat_template(r#"{"chat_template": 5}"#), None);
    assert_eq!(parse_chat_template("broken"), None);
}

#[test]
fn model_index_files_are_deduplicated_in_order() {
    let entries = vec![
        ("a.weight".to_string(), JsonLeaf::Text("model-00002.safetensors".to_string())),
        ("b.weight".to_string(), JsonLeaf::Text("model-00001.safetensors".to_string())),
        ("c.weight".to_string(), JsonLeaf::Int(3)),
        ("d.weight".to_string(), JsonLeaf::Text("model-00002.safetensors".to_string())),
    ];
    let files = collect_index_files(&entries);
    assert_eq!(
        files,
        vec!["model-00002.safetensors".to_string(), "model-00001.safetensors".to_string()]
    );

    // serde_json objects iterate sorted by key, so the list is keyed order
    let text = r#"{"weight_map": {"a.weight": "f2.safetensors", "b.weight": "f1.safetensors", "c.weight": "f2.safetensors"}}"#;
    let files2 = read_model_index_json(text).unwrap();
    assert_eq!(files2, vec!["f2.safetensors".to_string(), "f1.safetensors".to_string()]);

    match read_model_index_json(r#"{"weight_map": 3}"#).unwrap_err() {
        CallmError::LoaderFail(msg) => assert_eq!(msg, "Model index deserialization failure"),
        other => panic!("expected a loader failure, got {:?}", other),
    }
}

#[test]
fn shard_template_selection_and_tokens() {
    let tpl = shard_template(None, Some("<s>".to_string()), Some("</s>".to_string()));
    assert!(matches!(tpl, Template::Dummy(_)));
    assert_eq!(tpl.get_bos_token(), Some("<s>"));
    assert_eq!(tpl.get_eos_token(), Some("</s>"));

    let t = "{{ messages }}".to_string();
    let tpl2 = shard_template(Some(&t), None, None);
    assert!(matches!(tpl2, Template::Jinja(_)));
    assert_eq!(tpl2.get_bos_token(), None);
    assert_eq!(tpl2.get_eos_token(), None);
}
