//! Model architectures and the compute-engine interface.
//!
//! The numeric forward pass is an external capability: implementations of
//! [`ModelImpl`] own a loaded model and expose the forward/clear-cache
//! contract the generation pipeline drives. The library never looks inside
//! a tensor; it only carries them between the engine and the sampler.

use crate::error::CallmError;
use vstd::prelude::*;

verus! {

#[verifier::external_type_specification]
#[verifier::external_body]
pub struct ExTensor(candle_core::Tensor);

#[verifier::external_type_specification]
#[verifier::external_body]
pub struct ExCandleError(candle_core::Error);

/// Enum representing different model architectures supported by the system.
#[derive(Clone, Debug, PartialEq, Eq, Structural)]
pub enum ModelArchitecture {
    /// Default value for unsupported architectures.
    Unsupported,
    Gemma,
    Llama,
    LlamaQuantized,
    Mistral,
    Phi3,
    Qwen2,
    Qwen2Quantized,
}

/// A trait defining the interface of model implementations.
///
/// Nothing is promised of the tensors an implementation returns: the
/// engine's numeric behaviour is outside the library. The pipeline's own
/// guarantees (prompt preservation, step bound, termination on the
/// end-of-sequence token) hold whatever an implementation returns.
pub trait ModelImpl {
    /// Loads the model.
    fn load(&mut self) -> Result<(), CallmError>;

    /// Unloads the model.
    fn unload(&mut self) -> Result<(), CallmError>;

    /// Performs a forward pass: evaluates the model on `input` at position
    /// index `index_pos` and returns the logits tensor.
    fn forward(&mut self, input: &candle_core::Tensor, index_pos: usize) -> Result<
        candle_core::Tensor,
        CallmError,
    >;

    /// Clears the key-value cache of the model.
    fn clear_kv_cache(&mut self) -> Result<(), CallmError>;
}

} // verus!
