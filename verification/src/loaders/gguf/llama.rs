//! Architecture-specific hyperparameters read from a container declaring
//! the `llama` architecture family.

use super::{missing_key_err, req_u32, req_u32_field, opt_u32, opt_u32_field, FieldErr};
use crate::error::CallmError;
use crate::gguf::meta::MetaMap;
use vstd::prelude::*;
use vstd::string::StringSliceAdditionalSpecFns;

verus! {

/// Hyperparameters of the `llama` model family.
#[derive(Clone, Debug, PartialEq, Eq, Structural)]
pub struct LoaderGgufInfoModelLlama {
    pub context_length: u32,
    pub embedding_length: u32,
    pub block_count: u32,
    pub feed_forward_length: u32,
    pub rope: LoaderGgufInfoModelLlamaRope,
    pub attention: LoaderGgufInfoModelLlamaAttention,
}

/// Positional-encoding parameters of the `llama` model family.
#[derive(Clone, Debug, PartialEq, Eq, Structural)]
pub struct LoaderGgufInfoModelLlamaRope {
    pub dimension_count: u32,
}

/// Attention parameters of the `llama` model family. The normalization
/// epsilon is carried as its raw IEEE 754 bits.
#[derive(Clone, Debug, PartialEq, Eq, Structural)]
pub struct LoaderGgufInfoModelLlamaAttention {
    pub head_count: u32,
    pub layer_norm_rms_epsilon_bits: u32,
    pub head_count_kv: Option<u32>,
}

/// What a successful [`parse_llama_kv`] returns, field by field.
pub open spec fn llama_kv_ok(m: Seq<(Seq<u8>, crate::gguf::meta::MetaValueV)>, info: LoaderGgufInfoModelLlama) -> bool {
    &&& req_u32_field(m, "llama.context_length".spec_bytes()) == Ok::<u32, FieldErr>(
        info.context_length,
    )
    &&& req_u32_field(m, "llama.embedding_length".spec_bytes()) == Ok::<u32, FieldErr>(
        info.embedding_length,
    )
    &&& req_u32_field(m, "llama.block_count".spec_bytes()) == Ok::<u32, FieldErr>(
        info.block_count,
    )
    &&& req_u32_field(m, "llama.feed_forward_length".spec_bytes()) == Ok::<u32, FieldErr>(
        info.feed_forward_length,
    )
    &&& req_u32_field(m, "llama.rope.dimension_count".spec_bytes()) == Ok::<u32, FieldErr>(
        info.rope.dimension_count,
    )
    &&& req_u32_field(m, "llama.attention.head_count".spec_bytes()) == Ok::<u32, FieldErr>(
        info.attention.head_count,
    )
    &&& match crate::gguf::meta::spec_lookup(
        m,
        "llama.attention.layer_norm_rms_epsilon".spec_bytes(),
    ) {
        Some(
            crate::gguf::meta::MetaValueV::Scalar(
                crate::gguf::meta::MetaScalarV::F32Bits(bits),
            ),
        ) => info.attention.layer_norm_rms_epsilon_bits == bits,
        _ => false,
    }
    &&& opt_u32_field(m, "llama.attention.head_count_kv".spec_bytes()) == Ok::<
        Option<u32>,
        FieldErr,
    >(info.attention.head_count_kv)
}

/// Whether some hyperparameter of the `llama` family cannot be extracted.
pub open spec fn llama_kv_err(m: Seq<(Seq<u8>, crate::gguf::meta::MetaValueV)>) -> bool {
    ||| req_u32_field(m, "llama.context_length".spec_bytes()) is Err
    ||| req_u32_field(m, "llama.embedding_length".spec_bytes()) is Err
    ||| req_u32_field(m, "llama.block_count".spec_bytes()) is Err
    ||| req_u32_field(m, "llama.feed_forward_length".spec_bytes()) is Err
    ||| req_u32_field(m, "llama.rope.dimension_count".spec_bytes()) is Err
    ||| req_u32_field(m, "llama.attention.head_count".spec_bytes()) is Err
    ||| (match crate::gguf::meta::spec_lookup(
        m,
        "llama.attention.layer_norm_rms_epsilon".spec_bytes(),
    ) {
        Some(
            crate::gguf::meta::MetaValueV::Scalar(crate::gguf::meta::MetaScalarV::F32Bits(_)),
        ) => false,
        _ => true,
    })
    ||| opt_u32_field(m, "llama.attention.head_count_kv".spec_bytes()) is Err
}

/// Whether `e` names the first missing key of the family's required keys,
/// in reading order.
pub open spec fn llama_missing_key_named(
    m: Seq<(Seq<u8>, crate::gguf::meta::MetaValueV)>,
    e: crate::error::CallmError,
) -> bool {
    &&& (crate::gguf::meta::spec_lookup(m, "llama.context_length".spec_bytes()) is None
        ==> missing_key_err(e, "llama.context_length"))
    &&& ((req_u32_field(m, "llama.context_length".spec_bytes()) is Ok
        && crate::gguf::meta::spec_lookup(m, "llama.embedding_length".spec_bytes()) is None)
        ==> missing_key_err(e, "llama.embedding_length"))
    &&& ((req_u32_field(m, "llama.context_length".spec_bytes()) is Ok && req_u32_field(
        m,
        "llama.embedding_length".spec_bytes(),
    ) is Ok && crate::gguf::meta::spec_lookup(m, "llama.block_count".spec_bytes()) is None)
        ==> missing_key_err(e, "llama.block_count"))
    &&& ((req_u32_field(m, "llama.context_length".spec_bytes()) is Ok && req_u32_field(
        m,
        "llama.embedding_length".spec_bytes(),
    ) is Ok && req_u32_field(m, "llama.block_count".spec_bytes()) is Ok
        && crate::gguf::meta::spec_lookup(m, "llama.feed_forward_length".spec_bytes()) is None)
        ==> missing_key_err(e, "llama.feed_forward_length"))
    &&& ((req_u32_field(m, "llama.context_length".spec_bytes()) is Ok && req_u32_field(
        m,
        "llama.embedding_length".spec_bytes(),
    ) is Ok && req_u32_field(m, "llama.block_count".spec_bytes()) is Ok && req_u32_field(
        m,
        "llama.feed_forward_length".spec_bytes(),
    ) is Ok && crate::gguf::meta::spec_lookup(m, "llama.rope.dimension_count".spec_bytes())
        is None) ==> missing_key_err(e, "llama.rope.dimension_count"))
    &&& ((req_u32_field(m, "llama.context_length".spec_bytes()) is Ok && req_u32_field(
        m,
        "llama.embedding_length".spec_bytes(),
    ) is Ok && req_u32_field(m, "llama.block_count".spec_bytes()) is Ok && req_u32_field(
        m,
        "llama.feed_forward_length".spec_bytes(),
    ) is Ok && req_u32_field(m, "llama.rope.dimension_count".spec_bytes()) is Ok
        && crate::gguf::meta::spec_lookup(m, "llama.attention.head_count".spec_bytes()) is None)
        ==> missing_key_err(e, "llama.attention.head_count"))
    &&& ((req_u32_field(m, "llama.context_length".spec_bytes()) is Ok && req_u32_field(
        m,
        "llama.embedding_length".spec_bytes(),
    ) is Ok && req_u32_field(m, "llama.block_count".spec_bytes()) is Ok && req_u32_field(
        m,
        "llama.feed_forward_length".spec_bytes(),
    ) is Ok && req_u32_field(m, "llama.rope.dimension_count".spec_bytes()) is Ok && req_u32_field(
        m,
        "llama.attention.head_count".spec_bytes(),
    ) is Ok && crate::gguf::meta::spec_lookup(
        m,
        "llama.attention.layer_norm_rms_epsilon".spec_bytes(),
    ) is None) ==> missing_key_err(e, "llama.attention.layer_norm_rms_epsilon"))
}

/// Reads the `llama` family's hyperparameters from the raw metadata map.
/// Every scalar is required except the key/value head count; a missing key
/// is a loader failure naming it, a wrongly-typed value a type error.
pub fn parse_llama_kv(m: &MetaMap) -> (r: Result<LoaderGgufInfoModelLlama, CallmError>)
    ensures
        match r {
            Ok(info) => llama_kv_ok(m@, info),
            Err(e) => llama_kv_err(m@) && (e is LoaderFail || e is CandleError)
                && llama_missing_key_named(m@, e),
        },
{
    let context_length = match req_u32(m, "llama.context_length") {
        Ok(v) => v,
        Err(e) => {
            return Err(e);
        },
    };
    let embedding_length = match req_u32(m, "llama.embedding_length") {
        Ok(v) => v,
        Err(e) => {
            return Err(e);
        },
    };
    let block_count = match req_u32(m, "llama.block_count") {
        Ok(v) => v,
        Err(e) => {
            return Err(e);
        },
    };
    let feed_forward_length = match req_u32(m, "llama.feed_forward_length") {
        Ok(v) => v,
        Err(e) => {
            return Err(e);
        },
    };
    let dimension_count = match req_u32(m, "llama.rope.dimension_count") {
        Ok(v) => v,
        Err(e) => {
            return Err(e);
        },
    };
    let head_count = match req_u32(m, "llama.attention.head_count") {
        Ok(v) => v,
        Err(e) => {
            return Err(e);
        },
    };
    let layer_norm_rms_epsilon_bits = match super::get_metadata(
        m,
        "llama.attention.layer_norm_rms_epsilon",
    ) {
        Err(e) => {
            return Err(e);
        },
        Ok(v) => match v {
            crate::gguf::meta::MetaValue::Scalar(
                crate::gguf::meta::MetaScalar::F32Bits(bits),
            ) => *bits,
            _ => {
                return Err(CallmError::CandleError(String::from_str("not a f32")));
            },
        },
    };
    let head_count_kv = match opt_u32(m, "llama.attention.head_count_kv") {
        Ok(v) => v,
        Err(e) => {
            return Err(e);
        },
    };

    Ok(
        LoaderGgufInfoModelLlama {
            context_length,
            embedding_length,
            block_count,
            feed_forward_length,
            rope: LoaderGgufInfoModelLlamaRope { dimension_count },
            attention: LoaderGgufInfoModelLlamaAttention {
                head_count,
                layer_norm_rms_epsilon_bits,
                head_count_kv,
            },
        },
    )
}

} // verus!
