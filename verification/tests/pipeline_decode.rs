use callm::error::CallmError;
use callm::models::ModelImpl;
use callm::pipelines::text::{
    decode_loop, generate, select_build_source, select_sampling_policy, BuildSource,
    SamplingPolicy,
};
use callm::templates::{Template, TemplateDummy};
use callm::tokenize::build_gguf_tokenizer;
use callm::loaders::gguf::LoaderGgufInfoTokenizer;
use candle_core::{Device, Tensor};
use candle_transformers::generation::{LogitsProcessor, Sampling};

const VOCAB: usize = 8;

/// A deterministic engine double: step `n` emits logits whose arg-max is
/// `script[n]` (the last entry repeating once the script runs out).
struct ScriptModel {
    script: Vec<u32>,
    step: usize,
}

impl ScriptModel {
    fn new(script: Vec<u32>) -> Self {
        ScriptModel { script, step: 0 }
    }
}

impl ModelImpl for ScriptModel {
    fn load(&mut self) -> Result<(), CallmError> {
        Ok(())
    }

    fn unload(&mut self) -> Result<(), CallmError> {
        Ok(())
    }

    fn forward(&mut self, _input: &Tensor, _index_pos: usize) -> Result<Tensor, CallmError> {
        let idx = if self.step < self.script.len() {
            self.script[self.step]
        } else {
            *self.script.last().unwrap()
        };
        self.step += 1;
        let mut row = vec![0.0f32; VOCAB];
        row[idx as usize] = 10.0;
        Tensor::from_vec(row, (1, 1, VOCAB), &Device::Cpu)
            .map_err(|e| CallmError::CandleError(e.to_string()))
    }

    fn clear_kv_cache(&mut self) -> Result<(), CallmError> {
        self.step = 0;
        Ok(())
    }
}

/// An engine double emitting a fixed spread of logits, so that positive
/// temperatures actually sample.
struct SpreadModel;

impl ModelImpl for SpreadModel {
    fn load(&mut self) -> Result<(), CallmError> {
        Ok(())
    }

    fn unload(&mut self) -> Result<(), CallmError> {
        Ok(())
    }

    fn forward(&mut self, _input: &Tensor, _index_pos: usize) -> Result<Tensor, CallmError> {
        let row: Vec<f32> = (0..VOCAB).map(|i| 0.3 * i as f32).collect();
        Tensor::from_vec(row, (1, 1, VOCAB), &Device::Cpu)
            .map_err(|e| CallmError::CandleError(e.to_string()))
    }

    fn clear_kv_cache(&mut self) -> Result<(), CallmError> {
        Ok(())
    }
}

#[test]
fn decode_halts_exactly_at_eos() {
    let mut model = ScriptModel::new(vec![5, 6, 7, 1, 1]);
    let mut lp = LogitsProcessor::from_sampling(0, Sampling::ArgMax);
    let mut tokens = vec![2, 3];
    decode_loop(&mut model, &mut lp, &Device::Cpu, &mut tokens, 7).unwrap();
    // the EOS token is included in the raw sequence, nothing follows it
    assert_eq!(tokens, vec![2, 3, 5, 6, 7]);
}

#[test]
fn decode_halts_at_the_step_cap() {
    let mut model = ScriptModel::new(vec![1]);
    let mut lp = LogitsProcessor::from_sampling(0, Sampling::ArgMax);
    let mut tokens = vec![4];
    decode_loop(&mut model, &mut lp, &Device::Cpu, &mut tokens, 7).unwrap();
    assert_eq!(tokens.len(), 1 + 1000);
    assert_eq!(tokens[0], 4);
    assert!(tokens[1..].iter().all(|&t| t == 1));
}

#[test]
fn decode_first_step_feeds_whole_prompt() {
    // an empty prompt still generates from position zero
    let mut model = ScriptModel::new(vec![6, 7]);
    let mut lp = LogitsProcessor::from_sampling(0, Sampling::ArgMax);
    let mut tokens: Vec<u32> = vec![];
    decode_loop(&mut model, &mut lp, &Device::Cpu, &mut tokens, 7).unwrap();
    assert_eq!(tokens, vec![6, 7]);
}

#[test]
fn sampling_same_seed_same_output() {
    let mut out1 = vec![0u32];
    let mut out2 = vec![0u32];
    for out in [&mut out1, &mut out2] {
        let mut model = SpreadModel;
        let mut lp = LogitsProcessor::from_sampling(42, Sampling::All { temperature: 0.9 });
        decode_loop(&mut model, &mut lp, &Device::Cpu, out, 7).unwrap();
    }
    assert_eq!(out1, out2);
}

#[test]
fn temperature_zero_is_argmax_regardless_of_seed() {
    assert_eq!(select_sampling_policy(false, None, false), SamplingPolicy::ArgMax);
    assert_eq!(select_sampling_policy(false, Some(40), true), SamplingPolicy::ArgMax);

    // and with the arg-max policy two different seeds generate identically
    let mut out1 = vec![0u32];
    let mut out2 = vec![0u32];
    for (seed, out) in [(1u64, &mut out1), (999u64, &mut out2)] {
        let mut model = SpreadModel;
        let mut lp = LogitsProcessor::from_sampling(seed, Sampling::ArgMax);
        decode_loop(&mut model, &mut lp, &Device::Cpu, out, VOCAB as u32 - 1).unwrap();
    }
    assert_eq!(out1, out2);
    // the spread model's arg-max is the last vocabulary entry, which is EOS here
    assert_eq!(out1, vec![0, VOCAB as u32 - 1]);
}

#[test]
fn builder_source_precedence() {
    assert_eq!(select_build_source(true, true), BuildSource::GivenLoader);
    assert_eq!(select_build_source(true, false), BuildSource::GivenLoader);
    assert_eq!(select_build_source(false, true), BuildSource::DetectFromLocation);
    assert_eq!(select_build_source(false, false), BuildSource::Nothing);
}

#[test]
fn sampling_policy_follows_the_bounds() {
    assert_eq!(select_sampling_policy(true, None, false), SamplingPolicy::All);
    assert_eq!(select_sampling_policy(true, Some(40), false), SamplingPolicy::TopK { k: 40 });
    assert_eq!(select_sampling_policy(true, None, true), SamplingPolicy::TopP);
    assert_eq!(
        select_sampling_policy(true, Some(40), true),
        SamplingPolicy::TopKThenTopP { k: 40 }
    );
}

#[test]
fn generate_decodes_only_new_tokens() {
    let tok_description = LoaderGgufInfoTokenizer {
        model: "gpt2".to_string(),
        tokens: vec![
            "a".to_string(),
            "b".to_string(),
            "ab".to_string(),
            "<eos>".to_string(),
        ],
        pre: None,
        bos_token_id: None,
        eos_token_id: Some(3),
        unknown_token_id: None,
        separator_token_id: None,
        padding_token_id: None,
        chat_template: None,
        scores_bits: None,
        token_type: Some(vec![1, 1, 1, 3]),
        merges: Some(vec!["a b".to_string()]),
        added_tokens: None,
    };
    let tokenizer = build_gguf_tokenizer(&tok_description).unwrap();

    let mut dummy = TemplateDummy::new();
    dummy.set_eos_token(Some("<eos>".to_string()));
    let template = Template::Dummy(dummy);

    // prompt "ab" encodes to [2]; the model then emits b, a, <eos>
    let mut model = ScriptModel::new(vec![1, 0, 3]);
    let mut lp = LogitsProcessor::from_sampling(0, Sampling::ArgMax);
    let out = generate(&mut model, &mut lp, &tokenizer, &Device::Cpu, &template, "ab").unwrap();
    // only the tokens after the prompt are decoded, without the EOS text
    assert_eq!(out, "ba");
}

#[test]
fn generate_needs_a_resolved_eos_token() {
    let tok_description = LoaderGgufInfoTokenizer {
        model: "gpt2".to_string(),
        tokens: vec!["a".to_string()],
        pre: None,
        bos_token_id: None,
        eos_token_id: None,
        unknown_token_id: None,
        separator_token_id: None,
        padding_token_id: None,
        chat_template: None,
        scores_bits: None,
        token_type: None,
        merges: Some(vec![]),
        added_tokens: None,
    };
    let tokenizer = build_gguf_tokenizer(&tok_description).unwrap();
    let template = Template::Dummy(TemplateDummy::new());
    let mut model = ScriptModel::new(vec![0]);
    let mut lp = LogitsProcessor::from_sampling(0, Sampling::ArgMax);
    let e = generate(&mut model, &mut lp, &tokenizer, &Device::Cpu, &template, "a").unwrap_err();
    assert!(matches!(e, CallmError::GenericError(_)));
}
