//! Local loading and token-by-token text generation for generative language
//! models stored in two on-disk formats: a self-describing quantized container
//! and a directory of weight shards with JSON side-car files.
//!
//! The crate covers the model-loading and generation-orchestration layer: the
//! binary container parser, the metadata interpreter, the tokenizer builder,
//! the chat-template resolver and the autoregressive decode loop. Numeric
//! tensor computation is delegated to an external compute engine behind the
//! [`models::ModelImpl`] interface.

pub mod device;
pub mod error;
pub mod gguf;
pub mod loaders;
pub mod models;
pub mod pipelines;
pub mod templates;
pub mod tokenize;
pub mod utils;
