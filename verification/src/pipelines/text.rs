//! The autoregressive text-generation pipeline.
//!
//! The decode loop owns the iteration discipline: the full prompt is fed at
//! position 0 on the first step, then exactly one newly sampled token per
//! step at the running position; the loop halts the moment the sampled token
//! equals the resolved end-of-sequence id, and never exceeds the hard cap of
//! 1000 generation steps. Sampling itself (arg-max or seeded pseudo-random
//! selection over the logits) is the compute engine's, reached through
//! trusted wrappers.

use crate::error::CallmError;
use crate::models::ModelImpl;
use crate::templates::Template;
use crate::tokenize::{tokenizer_decode, tokenizer_encode, tokenizer_token_to_id};
use vstd::prelude::*;
use candle_core::Device as CandleDevice;
use vstd::slice::slice_subrange;

verus! {

#[verifier::external_type_specification]
#[verifier::external_body]
pub struct ExDevice(CandleDevice);

#[verifier::external_type_specification]
#[verifier::external_body]
pub struct ExLogitsProcessor(candle_transformers::generation::LogitsProcessor);

/// The hard cap on generation steps in one decode-loop run.
pub const DECODE_STEP_CAP: usize = 1000;

/// The sampling policy one `run` call selects, evaluated fresh from the
/// configured temperature and bounds. The temperature, nucleus bound and
/// seed values themselves stay with the caller; the policy only records
/// which strategy applies and the top-k bound.
#[derive(Clone, Copy, Debug, PartialEq, Eq, Structural)]
pub enum SamplingPolicy {
    /// Deterministic arg-max selection.
    ArgMax,
    /// Pure temperature softmax sampling.
    All,
    /// Restrict to the k highest-probability tokens, then sample.
    TopK { k: usize },
    /// Nucleus sampling.
    TopP,
    /// Top-k filter, then nucleus filter, then temperature sampling.
    TopKThenTopP { k: usize },
}

/// Selects the sampling policy: a non-positive temperature always means
/// deterministic arg-max selection, whatever the bounds or the seed;
/// a positive temperature picks the strategy matching which of the top-k
/// and top-p bounds are present.
pub fn select_sampling_policy(
    temperature_positive: bool,
    top_k: Option<usize>,
    top_p_present: bool,
) -> (r: SamplingPolicy)
    ensures
        !temperature_positive ==> r == SamplingPolicy::ArgMax,
        temperature_positive && !top_p_present ==> r == (match top_k {
            Some(k) => SamplingPolicy::TopK { k },
            None => SamplingPolicy::All,
        }),
        temperature_positive && top_p_present ==> r == (match top_k {
            Some(k) => SamplingPolicy::TopKThenTopP { k },
            None => SamplingPolicy::TopP,
        }),
{
    if !temperature_positive {
        SamplingPolicy::ArgMax
    } else {
        match (top_k, top_p_present) {
            (None, false) => SamplingPolicy::All,
            (Some(k), false) => SamplingPolicy::TopK { k },
            (None, true) => SamplingPolicy::TopP,
            (Some(k), true) => SamplingPolicy::TopKThenTopP { k },
        }
    }
}

/// Where a pipeline under construction takes its loader from.
#[derive(Clone, Copy, Debug, PartialEq, Eq, Structural)]
pub enum BuildSource {
    /// A loader was handed in directly; it takes precedence.
    GivenLoader,
    /// Only a filesystem location was given: autodetect a loader from it.
    DetectFromLocation,
    /// Neither was given: building fails.
    Nothing,
}

/// Decides where a pipeline builder takes its loader from: an explicit
/// loader takes precedence over a location, and the absence of both is an
/// error.
pub fn select_build_source(has_loader: bool, has_location: bool) -> (r: BuildSource)
    ensures
        has_loader ==> r == BuildSource::GivenLoader,
        !has_loader && has_location ==> r == BuildSource::DetectFromLocation,
        !has_loader && !has_location ==> r == BuildSource::Nothing,
{
    if has_loader {
        BuildSource::GivenLoader
    } else if has_location {
        BuildSource::DetectFromLocation
    } else {
        BuildSource::Nothing
    }
}

/// Relies on `candle_core::Tensor::new` and `Tensor::unsqueeze`: builds the
/// rank-2 input tensor holding one batch of token ids.
#[verifier::external_body]
fn prepare_input(ctxt: &[u32], device: &CandleDevice) -> (r: Result<
    candle_core::Tensor,
    CallmError,
>)
    ensures
        r matches Err(e) ==> e is CandleError,
{
    match candle_core::Tensor::new(ctxt, device) {
        Ok(t) => match t.unsqueeze(0) {
            Ok(t2) => Ok(t2),
            Err(e) => Err(CallmError::CandleError(e.to_string())),
        },
        Err(e) => Err(CallmError::CandleError(e.to_string())),
    }
}

/// Relies on `candle_core::Tensor::squeeze`: drops the batch and position
/// axes so the logits cover the final position only.
#[verifier::external_body]
fn squeeze_logits(t: candle_core::Tensor) -> (r: Result<candle_core::Tensor, CallmError>)
    ensures
        r matches Err(e) ==> e is CandleError,
{
    match t.squeeze(0) {
        Ok(t1) => match t1.squeeze(0) {
            Ok(t2) => Ok(t2),
            Err(e) => Err(CallmError::CandleError(e.to_string())),
        },
        Err(e) => Err(CallmError::CandleError(e.to_string())),
    }
}

/// Relies on `candle_transformers::generation::LogitsProcessor::sample`:
/// draws the next token id from the model's emitted distribution, by the
/// processor's configured policy and seeded state.
#[verifier::external_body]
fn sample_token(
    logits_processor: &mut candle_transformers::generation::LogitsProcessor,
    logits: &candle_core::Tensor,
) -> (r: Result<u32, CallmError>)
    ensures
        r matches Err(e) ==> e is CandleError,
{
    match logits_processor.sample(logits) {
        Ok(t) => Ok(t),
        Err(e) => Err(CallmError::CandleError(e.to_string())),
    }
}

/// What a completed decode loop guarantees, relating the token sequence
/// after the call (`new`) to the one before (`orig`): the prompt is kept
/// unchanged; at least one and at most 1000 tokens were appended; no
/// appended token before the last equals the end-of-sequence id; and a run
/// that stopped under the cap stopped exactly by sampling that id.
pub open spec fn decode_loop_post(orig: Seq<u32>, new: Seq<u32>, eos_token: u32) -> bool {
    &&& new.len() >= orig.len() + 1
    &&& new.len() <= orig.len() + 1000
    &&& new.subrange(0, orig.len() as int) == orig
    &&& (forall|i: int| orig.len() <= i < new.len() - 1 ==> new[i] != eos_token)
    &&& (new.len() < orig.len() + 1000 ==> new[new.len() - 1] == eos_token)
}

/// Runs the decode loop over `tokens`, which enters holding the encoded
/// prompt and leaves holding the prompt plus every generated token,
/// the end-of-sequence token included when one was sampled.
///
/// On the first step the full prompt is fed at position 0; on every further
/// step only the single most recently generated token is fed, at the
/// position equal to the sequence length before it. The loop stops the
/// moment the sampled token equals `eos_token`, and in any case after 1000
/// steps. An engine or sampler failure ends the call with that error; the
/// prompt prefix is preserved even then.
pub fn decode_loop<M: ModelImpl>(
    model: &mut M,
    logits_processor: &mut candle_transformers::generation::LogitsProcessor,
    device: &CandleDevice,
    tokens: &mut Vec<u32>,
    eos_token: u32,
) -> (r: Result<(), CallmError>)
    requires
        old(tokens)@.len() + 1000 <= usize::MAX,
    ensures
        match r {
            Ok(_) => decode_loop_post(old(tokens)@, final(tokens)@, eos_token),
            Err(_) => final(tokens)@.len() >= old(tokens)@.len() && final(tokens)@.subrange(
                0,
                old(tokens)@.len() as int,
            ) == old(tokens)@,
        },
{
    let ghost orig = tokens@;
    let mut index: usize = 0;
    let mut finished = false;
    while index < DECODE_STEP_CAP && !finished
        invariant
            orig == old(tokens)@,
            orig.len() + 1000 <= usize::MAX,
            index <= 1000,
            tokens@.len() == orig.len() + index,
            tokens@.subrange(0, orig.len() as int) == orig,
            forall|i: int| orig.len() <= i < tokens@.len() - 1 ==> tokens@[i] != eos_token,
            index >= 1 ==> (finished <==> tokens@[tokens@.len() - 1] == eos_token),
            index == 0 ==> !finished,
        decreases 1000 - index,
    {
        let ctxt_size = if index > 0 {
            1
        } else {
            tokens.len()
        };
        let start_pos = tokens.len() - ctxt_size;
        let ctxt = slice_subrange(tokens.as_slice(), start_pos, tokens.len());
        let input = match prepare_input(ctxt, device) {
            Ok(t) => t,
            Err(e) => {
                return Err(e);
            },
        };
        let logits_full = match model.forward(&input, start_pos) {
            Ok(t) => t,
            Err(e) => {
                return Err(e);
            },
        };
        let logits = match squeeze_logits(logits_full) {
            Ok(t) => t,
            Err(e) => {
                return Err(e);
            },
        };
        let new_token = match sample_token(logits_processor, &logits) {
            Ok(t) => t,
            Err(e) => {
                return Err(e);
            },
        };
        proof {
            assert(tokens@.push(new_token).subrange(0, orig.len() as int) =~= tokens@.subrange(
                0,
                orig.len() as int,
            ));
        }
        tokens.push(new_token);
        if new_token == eos_token {
            finished = true;
        }
        index = index + 1;
    }
    Ok(())
}

/// Runs one text-generation call: encodes the prompt (adding no special
/// tokens - templates are responsible for any special-token text), resolves
/// the end-of-sequence id through the template's token text, drives the
/// decode loop, clears the model's decode cache, and decodes only the
/// tokens generated after the prompt.
///
/// A template without a resolved end-of-sequence token cannot generate and
/// is a generic error, as is an end-of-sequence text the tokenizer does not
/// know.
pub fn generate<M: ModelImpl>(
    model: &mut M,
    logits_processor: &mut candle_transformers::generation::LogitsProcessor,
    tokenizer: &tokenizers::Tokenizer,
    device: &CandleDevice,
    template: &Template,
    text: &str,
) -> (r: Result<String, CallmError>)
    ensures
        template.spec_eos() is None ==> (r matches Err(e) && e is GenericError),
{
    // Resolve the end-of-sequence token.
    let eos_token_str = match template.get_eos_token() {
        Some(s) => s,
        None => {
            return Err(CallmError::GenericError(String::from_str("Missing EOS token")));
        },
    };
    let eos_token = match tokenizer_token_to_id(tokenizer, eos_token_str) {
        Some(id) => id,
        None => {
            return Err(
                CallmError::GenericError(String::from_str("EOS token missing in the tokenizer")),
            );
        },
    };

    // Tokenize user input.
    let mut tokens = match tokenizer_encode(tokenizer, text, false) {
        Ok(v) => v,
        Err(e) => {
            return Err(e);
        },
    };
    let num_tokens_at_start = tokens.len();
    if num_tokens_at_start > usize::MAX - 1000 {
        return Err(CallmError::GenericError(String::from_str("Prompt too long")));
    }

    let loop_result = decode_loop(model, logits_processor, device, &mut tokens, eos_token);

    // Clear the decode cache before reporting any loop failure.
    match model.clear_kv_cache() {
        Ok(_) => (),
        Err(e) => {
            return Err(e);
        },
    }
    match loop_result {
        Ok(_) => (),
        Err(e) => {
            return Err(e);
        },
    }

    // Decode only the newly generated tokens.
    let tail = vstd::slice::slice_subrange(tokens.as_slice(), num_tokens_at_start, tokens.len());
    tokenizer_decode(tokenizer, tail, true)
}

} // verus!
