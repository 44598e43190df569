//! Interpreter for the quantized container's metadata.
//!
//! The raw key/value map parsed from a container is turned into a structured
//! model description: general fields, the tokenizer description, and the
//! architecture-specific hyperparameters. Required keys must be present with
//! the right type; optional keys may be absent, but a present key of the
//! wrong type is a type error. One documented quirk is applied here: a
//! declared end-of-sequence token id naming a specific known token text is
//! silently remapped to the known-correct id for that model family.

pub mod llama;

use super::str_views;
use crate::error::CallmError;
use crate::gguf::meta::{MetaMap, MetaScalar, MetaScalarV, MetaValue, MetaValueV, spec_lookup};
use crate::templates::{Template, TemplateDummy, TemplateJinja};
use crate::utils::{utf8_lossy, utf8_of};
use llama::LoaderGgufInfoModelLlama;
use vstd::prelude::*;
use vstd::string::StringSliceAdditionalSpecFns;

verus! {

/// Why a metadata field extraction failed: the key was absent, or present
/// with a value of the wrong type.
#[derive(Clone, Copy, Debug, PartialEq, Eq, Structural)]
pub enum FieldErr {
    Missing,
    WrongType,
}

/// A required string field: the key must map to a string scalar.
pub open spec fn req_str_field(m: Seq<(Seq<u8>, MetaValueV)>, key: Seq<u8>) -> Result<
    Seq<u8>,
    FieldErr,
> {
    match spec_lookup(m, key) {
        None => Err(FieldErr::Missing),
        Some(MetaValueV::Scalar(MetaScalarV::Str(s))) => Ok(s),
        Some(_) => Err(FieldErr::WrongType),
    }
}

/// A required 32-bit unsigned field.
pub open spec fn req_u32_field(m: Seq<(Seq<u8>, MetaValueV)>, key: Seq<u8>) -> Result<
    u32,
    FieldErr,
> {
    match spec_lookup(m, key) {
        None => Err(FieldErr::Missing),
        Some(MetaValueV::Scalar(MetaScalarV::U32(v))) => Ok(v),
        Some(_) => Err(FieldErr::WrongType),
    }
}

/// An optional string field: absence is not an error.
pub open spec fn opt_str_field(m: Seq<(Seq<u8>, MetaValueV)>, key: Seq<u8>) -> Result<
    Option<Seq<u8>>,
    FieldErr,
> {
    match spec_lookup(m, key) {
        None => Ok(None),
        Some(MetaValueV::Scalar(MetaScalarV::Str(s))) => Ok(Some(s)),
        Some(_) => Err(FieldErr::WrongType),
    }
}

/// An optional 32-bit unsigned field: absence is not an error.
pub open spec fn opt_u32_field(m: Seq<(Seq<u8>, MetaValueV)>, key: Seq<u8>) -> Result<
    Option<u32>,
    FieldErr,
> {
    match spec_lookup(m, key) {
        None => Ok(None),
        Some(MetaValueV::Scalar(MetaScalarV::U32(v))) => Ok(Some(v)),
        Some(_) => Err(FieldErr::WrongType),
    }
}

/// The byte strings of an array whose elements are all strings.
pub open spec fn str_items(es: Seq<MetaScalarV>) -> Option<Seq<Seq<u8>>> {
    if forall|i: int| 0 <= i < es.len() ==> es[i] is Str {
        Some(
            es.map_values(
                |e: MetaScalarV|
                    match e {
                        MetaScalarV::Str(s) => s,
                        _ => Seq::<u8>::empty(),
                    },
            ),
        )
    } else {
        None
    }
}

/// The values of an array whose elements are all signed 32-bit scalars.
pub open spec fn i32_items(es: Seq<MetaScalarV>) -> Option<Seq<i32>> {
    if forall|i: int| 0 <= i < es.len() ==> es[i] is I32 {
        Some(
            es.map_values(
                |e: MetaScalarV|
                    match e {
                        MetaScalarV::I32(v) => v,
                        _ => 0i32,
                    },
            ),
        )
    } else {
        None
    }
}

/// The raw bits of an array whose elements are all 32-bit floats.
pub open spec fn f32_items(es: Seq<MetaScalarV>) -> Option<Seq<u32>> {
    if forall|i: int| 0 <= i < es.len() ==> es[i] is F32Bits {
        Some(
            es.map_values(
                |e: MetaScalarV|
                    match e {
                        MetaScalarV::F32Bits(v) => v,
                        _ => 0u32,
                    },
            ),
        )
    } else {
        None
    }
}

/// An optional string-array field.
pub open spec fn opt_str_array_field(m: Seq<(Seq<u8>, MetaValueV)>, key: Seq<u8>) -> Result<
    Option<Seq<Seq<u8>>>,
    FieldErr,
> {
    match spec_lookup(m, key) {
        None => Ok(None),
        Some(MetaValueV::Array(k, es)) => match str_items(es) {
            Some(ss) => Ok(Some(ss)),
            None => Err(FieldErr::WrongType),
        },
        Some(_) => Err(FieldErr::WrongType),
    }
}

/// An optional array field of signed 32-bit scalars.
pub open spec fn opt_i32_array_field(m: Seq<(Seq<u8>, MetaValueV)>, key: Seq<u8>) -> Result<
    Option<Seq<i32>>,
    FieldErr,
> {
    match spec_lookup(m, key) {
        None => Ok(None),
        Some(MetaValueV::Array(k, es)) => match i32_items(es) {
            Some(vs) => Ok(Some(vs)),
            None => Err(FieldErr::WrongType),
        },
        Some(_) => Err(FieldErr::WrongType),
    }
}

/// An optional array field of 32-bit floats, kept as raw bits.
pub open spec fn opt_f32_array_field(m: Seq<(Seq<u8>, MetaValueV)>, key: Seq<u8>) -> Result<
    Option<Seq<u32>>,
    FieldErr,
> {
    match spec_lookup(m, key) {
        None => Ok(None),
        Some(MetaValueV::Array(k, es)) => match f32_items(es) {
            Some(vs) => Ok(Some(vs)),
            None => Err(FieldErr::WrongType),
        },
        Some(_) => Err(FieldErr::WrongType),
    }
}

/// A required string-array field.
pub open spec fn req_str_array_field(m: Seq<(Seq<u8>, MetaValueV)>, key: Seq<u8>) -> Result<
    Seq<Seq<u8>>,
    FieldErr,
> {
    match spec_lookup(m, key) {
        None => Err(FieldErr::Missing),
        Some(MetaValueV::Array(k, es)) => match str_items(es) {
            Some(ss) => Ok(ss),
            None => Err(FieldErr::WrongType),
        },
        Some(_) => Err(FieldErr::WrongType),
    }
}

/// Whether `e` is the loader failure naming a missing metadata key.
pub open spec fn missing_key_err(e: CallmError, key: &str) -> bool {
    e matches CallmError::LoaderFail(m) && m@ == "Missing GGUF metadata key "@ + key@
}

/// Looks `key` up in the raw metadata map; a missing key is a loader
/// failure naming the key.
pub fn get_metadata<'a>(m: &'a MetaMap, key: &str) -> (r: Result<&'a MetaValue, CallmError>)
    ensures
        match r {
            Ok(v) => spec_lookup(m@, key.spec_bytes()) == Some(v@),
            Err(e) => spec_lookup(m@, key.spec_bytes()) is None && (e matches
                CallmError::LoaderFail(msg) && msg@ == "Missing GGUF metadata key "@ + key@),
        },
{
    match m.get(key.as_bytes()) {
        Some(v) => Ok(v),
        None => Err(
            CallmError::LoaderFail(String::from_str("Missing GGUF metadata key ").concat(key)),
        ),
    }
}

/// Extracts a required string field as text.
fn req_string(m: &MetaMap, key: &str) -> (r: Result<String, CallmError>)
    ensures
        match r {
            Ok(s) => req_str_field(m@, key.spec_bytes()) matches Ok(b) && s@ == utf8_of(b),
            Err(e) => req_str_field(m@, key.spec_bytes()) is Err && (req_str_field(
                m@,
                key.spec_bytes(),
            ) == Err::<Seq<u8>, FieldErr>(FieldErr::Missing) ==> (e matches CallmError::LoaderFail(
                msg,
            ) && msg@ == "Missing GGUF metadata key "@ + key@)) && (req_str_field(
                m@,
                key.spec_bytes(),
            ) == Err::<Seq<u8>, FieldErr>(FieldErr::WrongType) ==> e is CandleError),
        },
{
    match get_metadata(m, key) {
        Err(e) => Err(e),
        Ok(v) => match v.to_str_bytes() {
            Err(e) => Err(e),
            Ok(b) => Ok(utf8_lossy(b.as_slice())),
        },
    }
}

/// Extracts a required 32-bit unsigned field.
fn req_u32(m: &MetaMap, key: &str) -> (r: Result<u32, CallmError>)
    ensures
        match r {
            Ok(v) => req_u32_field(m@, key.spec_bytes()) == Ok::<u32, FieldErr>(v),
            Err(e) => req_u32_field(m@, key.spec_bytes()) is Err && (req_u32_field(
                m@,
                key.spec_bytes(),
            ) == Err::<u32, FieldErr>(FieldErr::Missing) ==> (e matches CallmError::LoaderFail(msg)
                && msg@ == "Missing GGUF metadata key "@ + key@)) && (req_u32_field(
                m@,
                key.spec_bytes(),
            ) == Err::<u32, FieldErr>(FieldErr::WrongType) ==> e is CandleError),
        },
{
    match get_metadata(m, key) {
        Err(e) => Err(e),
        Ok(v) => v.to_u32(),
    }
}

/// Extracts an optional string field as text.
fn opt_string(m: &MetaMap, key: &str) -> (r: Result<Option<String>, CallmError>)
    ensures
        match r {
            Ok(o) => match o {
                Some(s) => opt_str_field(m@, key.spec_bytes()) matches Ok(Some(b)) && s@
                    == utf8_of(b),
                None => opt_str_field(m@, key.spec_bytes()) == Ok::<
                    Option<Seq<u8>>,
                    FieldErr,
                >(None),
            },
            Err(e) => opt_str_field(m@, key.spec_bytes()) is Err && e is CandleError,
        },
{
    match m.get(key.as_bytes()) {
        None => Ok(None),
        Some(v) => match v.to_str_bytes() {
            Err(e) => Err(e),
            Ok(b) => Ok(Some(utf8_lossy(b.as_slice()))),
        },
    }
}

/// Extracts an optional 32-bit unsigned field.
fn opt_u32(m: &MetaMap, key: &str) -> (r: Result<Option<u32>, CallmError>)
    ensures
        match r {
            Ok(o) => opt_u32_field(m@, key.spec_bytes()) == Ok::<Option<u32>, FieldErr>(o),
            Err(e) => opt_u32_field(m@, key.spec_bytes()) is Err && e is CandleError,
        },
{
    match m.get(key.as_bytes()) {
        None => Ok(None),
        Some(v) => match v.to_u32() {
            Err(e) => Err(e),
            Ok(x) => Ok(Some(x)),
        },
    }
}

/// Extracts an optional string-array field as text items.
fn opt_string_array(m: &MetaMap, key: &str) -> (r: Result<Option<Vec<String>>, CallmError>)
    ensures
        match r {
            Ok(o) => match o {
                Some(v) => opt_str_array_field(m@, key.spec_bytes()) matches Ok(Some(ss))
                    && v@.len() == ss.len() && (forall|i: int|
                    0 <= i < ss.len() ==> v@[i]@ == utf8_of(ss[i])),
                None => opt_str_array_field(m@, key.spec_bytes()) == Ok::<
                    Option<Seq<Seq<u8>>>,
                    FieldErr,
                >(None),
            },
            Err(e) => opt_str_array_field(m@, key.spec_bytes()) is Err && e is CandleError,
        },
{
    let v = match m.get(key.as_bytes()) {
        None => {
            return Ok(None);
        },
        Some(v) => v,
    };
    let es = match v.to_array() {
        Err(e) => {
            return Err(e);
        },
        Ok(es) => es,
    };
    let ghost esv = v@->Array_1;
    proof {
        assert(esv.len() == es@.len() && forall|j: int|
            0 <= j < es@.len() ==> esv[j] == es@[j]@);
    }
    let mut out: Vec<String> = Vec::new();
    let mut i: usize = 0;
    while i < es.len()
        invariant
            i <= es.len(),
            spec_lookup(m@, key.spec_bytes()) == Some(v@),
            v@ is Array,
            esv == v@->Array_1,
            esv.len() == es@.len(),
            forall|j: int| 0 <= j < es@.len() ==> esv[j] == es@[j]@,
            out@.len() == i,
            forall|j: int| 0 <= j < i ==> esv[j] is Str,
            forall|j: int| 0 <= j < i ==> out@[j]@ == utf8_of(esv[j]->Str_0),
        decreases es.len() - i,
    {
        match es[i].as_str_bytes() {
            Err(e) => {
                proof {
                    assert(esv[i as int] == es@[i as int]@);
                    assert(!(esv[i as int] is Str));
                    assert(str_items(esv) is None);
                }
                return Err(e);
            },
            Ok(b) => {
                out.push(utf8_lossy(b.as_slice()));
            },
        }
        i = i + 1;
    }
    proof {
        assert(str_items(esv) matches Some(ss) && ss.len() == out@.len() && forall|j: int|
            0 <= j < ss.len() ==> out@[j]@ == utf8_of(ss[j]));
    }
    Ok(Some(out))
}

/// Extracts an optional array field of signed 32-bit scalars.
fn opt_i32_array(m: &MetaMap, key: &str) -> (r: Result<Option<Vec<i32>>, CallmError>)
    ensures
        match r {
            Ok(o) => match o {
                Some(v) => opt_i32_array_field(m@, key.spec_bytes()) == Ok::<
                    Option<Seq<i32>>,
                    FieldErr,
                >(Some(v@)),
                None => opt_i32_array_field(m@, key.spec_bytes()) == Ok::<
                    Option<Seq<i32>>,
                    FieldErr,
                >(None),
            },
            Err(e) => opt_i32_array_field(m@, key.spec_bytes()) is Err && e is CandleError,
        },
{
    let v = match m.get(key.as_bytes()) {
        None => {
            return Ok(None);
        },
        Some(v) => v,
    };
    let es = match v.to_array() {
        Err(e) => {
            return Err(e);
        },
        Ok(es) => es,
    };
    let ghost esv = v@->Array_1;
    proof {
        assert(esv.len() == es@.len() && forall|j: int|
            0 <= j < es@.len() ==> esv[j] == es@[j]@);
    }
    let mut out: Vec<i32> = Vec::new();
    let mut i: usize = 0;
    while i < es.len()
        invariant
            i <= es.len(),
            spec_lookup(m@, key.spec_bytes()) == Some(v@),
            v@ is Array,
            esv == v@->Array_1,
            esv.len() == es@.len(),
            forall|j: int| 0 <= j < es@.len() ==> esv[j] == es@[j]@,
            out@.len() == i,
            forall|j: int| 0 <= j < i ==> esv[j] is I32,
            forall|j: int| 0 <= j < i ==> out@[j] == esv[j]->I32_0,
        decreases es.len() - i,
    {
        match es[i].as_i32() {
            Err(e) => {
                proof {
                    assert(esv[i as int] == es@[i as int]@);
                    assert(!(esv[i as int] is I32));
                    assert(i32_items(esv) is None);
                }
                return Err(e);
            },
            Ok(x) => {
                out.push(x);
            },
        }
        i = i + 1;
    }
    proof {
        assert(i32_items(esv) matches Some(vs) && vs =~= out@);
    }
    Ok(Some(out))
}

/// Extracts an optional array field of 32-bit floats, as raw bits.
fn opt_f32_array(m: &MetaMap, key: &str) -> (r: Result<Option<Vec<u32>>, CallmError>)
    ensures
        match r {
            Ok(o) => match o {
                Some(v) => opt_f32_array_field(m@, key.spec_bytes()) == Ok::<
                    Option<Seq<u32>>,
                    FieldErr,
                >(Some(v@)),
                None => opt_f32_array_field(m@, key.spec_bytes()) == Ok::<
                    Option<Seq<u32>>,
                    FieldErr,
                >(None),
            },
            Err(e) => opt_f32_array_field(m@, key.spec_bytes()) is Err && e is CandleError,
        },
{
    let v = match m.get(key.as_bytes()) {
        None => {
            return Ok(None);
        },
        Some(v) => v,
    };
    let es = match v.to_array() {
        Err(e) => {
            return Err(e);
        },
        Ok(es) => es,
    };
    let ghost esv = v@->Array_1;
    proof {
        assert(esv.len() == es@.len() && forall|j: int|
            0 <= j < es@.len() ==> esv[j] == es@[j]@);
    }
    let mut out: Vec<u32> = Vec::new();
    let mut i: usize = 0;
    while i < es.len()
        invariant
            i <= es.len(),
            spec_lookup(m@, key.spec_bytes()) == Some(v@),
            v@ is Array,
            esv == v@->Array_1,
            esv.len() == es@.len(),
            forall|j: int| 0 <= j < es@.len() ==> esv[j] == es@[j]@,
            out@.len() == i,
            forall|j: int| 0 <= j < i ==> esv[j] is F32Bits,
            forall|j: int| 0 <= j < i ==> out@[j] == esv[j]->F32Bits_0,
        decreases es.len() - i,
    {
        match es[i].as_f32_bits() {
            Err(e) => {
                proof {
                    assert(esv[i as int] == es@[i as int]@);
                    assert(!(esv[i as int] is F32Bits));
                    assert(f32_items(esv) is None);
                }
                return Err(e);
            },
            Ok(x) => {
                out.push(x);
            },
        }
        i = i + 1;
    }
    proof {
        assert(f32_items(esv) matches Some(vs) && vs =~= out@);
    }
    Ok(Some(out))
}

/// GGUF general metadata.
#[derive(Clone, Debug)]
pub struct LoaderGgufInfo {
    /// General metadata - required.
    pub architecture: String,
    pub quantization_version: u32,
    pub alignment: u32,
    /// General metadata.
    pub name: Option<String>,
    pub author: Option<String>,
    pub url: Option<String>,
    pub description: Option<String>,
    pub license: Option<String>,
    pub file_type: Option<u32>,
    pub source: LoaderGgufInfoSource,
    /// Varies by model.
    pub model: LoaderGgufInfoModel,
    /// Tokenizer config.
    pub tokenizer: LoaderGgufInfoTokenizer,
}

/// GGUF `general.source` metadata.
#[derive(Clone, Debug)]
pub struct LoaderGgufInfoSource {
    pub url: Option<String>,
    pub huggingface_repository: Option<String>,
}

/// GGUF model enum.
#[derive(Clone, Debug)]
pub enum LoaderGgufInfoModel {
    /// No architecture-specific record was read.
    Unset,
    Llama(LoaderGgufInfoModelLlama),
}

/// GGUF tokenizer metadata. Per-token scores are carried as raw IEEE 754
/// bits: the library stores and hands them through without computing.
#[derive(Clone, Debug)]
pub struct LoaderGgufInfoTokenizer {
    // required
    pub model: String,
    pub tokens: Vec<String>,
    // optional
    pub pre: Option<String>,
    pub bos_token_id: Option<u32>,
    pub eos_token_id: Option<u32>,
    pub unknown_token_id: Option<u32>,
    pub separator_token_id: Option<u32>,
    pub padding_token_id: Option<u32>,
    pub chat_template: Option<String>,
    // optional arrays
    pub scores_bits: Option<Vec<u32>>,
    pub token_type: Option<Vec<i32>>,
    pub merges: Option<Vec<String>>,
    pub added_tokens: Option<Vec<String>>,
}

/// Whether `field` holds the text of the optional string key `key`.
pub open spec fn opt_str_ok(
    m: Seq<(Seq<u8>, MetaValueV)>,
    key: Seq<u8>,
    field: Option<String>,
) -> bool {
    match opt_str_field(m, key) {
        Ok(None) => field is None,
        Ok(Some(b)) => field matches Some(s) && s@ == utf8_of(b),
        Err(_) => false,
    }
}

/// Whether `field` holds the items of the optional string-array key `key`.
pub open spec fn opt_str_array_ok(
    m: Seq<(Seq<u8>, MetaValueV)>,
    key: Seq<u8>,
    field: Option<Vec<String>>,
) -> bool {
    match opt_str_array_field(m, key) {
        Ok(None) => field is None,
        Ok(Some(ss)) => field matches Some(v) && v@.len() == ss.len() && (forall|i: int|
            0 <= i < ss.len() ==> v@[i]@ == utf8_of(ss[i])),
        Err(_) => false,
    }
}

/// What a successful [`parse_required_kv`] promises of the three required
/// general fields: the architecture text, the quantization version, and the
/// alignment with its built-in default of 32.
pub open spec fn required_kv_ok(m: Seq<(Seq<u8>, MetaValueV)>, info: LoaderGgufInfo) -> bool {
    &&& (req_str_field(m, "general.architecture".spec_bytes()) matches Ok(b)
        && info.architecture@ == utf8_of(b))
    &&& req_u32_field(m, "general.quantization_version".spec_bytes()) == Ok::<u32, FieldErr>(
        info.quantization_version,
    )
    &&& match opt_u32_field(m, "general.alignment".spec_bytes()) {
        Ok(Some(a)) => info.alignment == a,
        Ok(None) => info.alignment == 32,
        Err(_) => false,
    }
}

/// Whether some required general field cannot be extracted.
pub open spec fn required_kv_err(m: Seq<(Seq<u8>, MetaValueV)>) -> bool {
    ||| req_str_field(m, "general.architecture".spec_bytes()) is Err
    ||| req_u32_field(m, "general.quantization_version".spec_bytes()) is Err
    ||| opt_u32_field(m, "general.alignment".spec_bytes()) is Err
}

/// What a successful [`parse_general_kv`] promises: the required fields and
/// every optional descriptive field.
pub open spec fn general_kv_ok(m: Seq<(Seq<u8>, MetaValueV)>, info: LoaderGgufInfo) -> bool {
    &&& required_kv_ok(m, info)
    &&& opt_str_ok(m, "general.name".spec_bytes(), info.name)
    &&& opt_str_ok(m, "general.author".spec_bytes(), info.author)
    &&& opt_str_ok(m, "general.url".spec_bytes(), info.url)
    &&& opt_str_ok(m, "general.description".spec_bytes(), info.description)
    &&& info.license is None
    &&& opt_u32_field(m, "general.file_type".spec_bytes()) == Ok::<Option<u32>, FieldErr>(
        info.file_type,
    )
    &&& opt_str_ok(m, "general.source.url".spec_bytes(), info.source.url)
    &&& opt_str_ok(
        m,
        "general.source.huggingface.repository".spec_bytes(),
        info.source.huggingface_repository,
    )
}

/// Whether some general field cannot be extracted.
pub open spec fn general_kv_err(m: Seq<(Seq<u8>, MetaValueV)>) -> bool {
    ||| required_kv_err(m)
    ||| opt_str_field(m, "general.name".spec_bytes()) is Err
    ||| opt_str_field(m, "general.author".spec_bytes()) is Err
    ||| opt_str_field(m, "general.url".spec_bytes()) is Err
    ||| opt_str_field(m, "general.description".spec_bytes()) is Err
    ||| opt_u32_field(m, "general.file_type".spec_bytes()) is Err
    ||| opt_str_field(m, "general.source.url".spec_bytes()) is Err
    ||| opt_str_field(m, "general.source.huggingface.repository".spec_bytes()) is Err
}

/// What a successful [`parse_tokenizer_kv`] promises of every tokenizer
/// field, with the end-of-sequence id pinned to `eos`.
pub open spec fn tokenizer_kv_ok_with_eos(
    m: Seq<(Seq<u8>, MetaValueV)>,
    t: LoaderGgufInfoTokenizer,
    eos: Option<u32>,
) -> bool {
    &&& (req_str_field(m, "tokenizer.ggml.model".spec_bytes()) matches Ok(b) && t.model@
        == utf8_of(b))
    &&& (req_str_array_field(m, "tokenizer.ggml.tokens".spec_bytes()) matches Ok(ss)
        && t.tokens@.len() == ss.len() && (forall|i: int|
        0 <= i < ss.len() ==> t.tokens@[i]@ == utf8_of(ss[i])))
    &&& opt_str_ok(m, "tokenizer.ggml.pre".spec_bytes(), t.pre)
    &&& opt_str_ok(m, "tokenizer.chat_template".spec_bytes(), t.chat_template)
    &&& opt_u32_field(m, "tokenizer.ggml.bos_token_id".spec_bytes()) == Ok::<
        Option<u32>,
        FieldErr,
    >(t.bos_token_id)
    &&& t.eos_token_id == eos
    &&& opt_u32_field(m, "tokenizer.ggml.unknown_token_id".spec_bytes()) == Ok::<
        Option<u32>,
        FieldErr,
    >(t.unknown_token_id)
    &&& opt_u32_field(m, "tokenizer.ggml.separator_token_id".spec_bytes()) == Ok::<
        Option<u32>,
        FieldErr,
    >(t.separator_token_id)
    &&& opt_u32_field(m, "tokenizer.ggml.padding_token_id".spec_bytes()) == Ok::<
        Option<u32>,
        FieldErr,
    >(t.padding_token_id)
    &&& match opt_f32_array_field(m, "tokenizer.ggml.scores".spec_bytes()) {
        Ok(Some(vs)) => t.scores_bits matches Some(v) && v@ == vs,
        Ok(None) => t.scores_bits is None,
        Err(_) => false,
    }
    &&& match opt_i32_array_field(m, "tokenizer.ggml.token_type".spec_bytes()) {
        Ok(Some(vs)) => t.token_type matches Some(v) && v@ == vs,
        Ok(None) => t.token_type is None,
        Err(_) => false,
    }
    &&& opt_str_array_ok(m, "tokenizer.ggml.merges".spec_bytes(), t.merges)
    &&& opt_str_array_ok(m, "tokenizer.ggml.added_tokens".spec_bytes(), t.added_tokens)
}

/// What a successful [`parse_tokenizer_kv`] promises: every field as
/// declared, the end-of-sequence id as declared.
pub open spec fn tokenizer_kv_ok(
    m: Seq<(Seq<u8>, MetaValueV)>,
    t: LoaderGgufInfoTokenizer,
) -> bool {
    match opt_u32_field(m, "tokenizer.ggml.eos_token_id".spec_bytes()) {
        Ok(o) => tokenizer_kv_ok_with_eos(m, t, o),
        Err(_) => false,
    }
}

/// Whether some tokenizer field cannot be extracted.
pub open spec fn tokenizer_kv_err(m: Seq<(Seq<u8>, MetaValueV)>) -> bool {
    ||| req_str_field(m, "tokenizer.ggml.model".spec_bytes()) is Err
    ||| req_str_array_field(m, "tokenizer.ggml.tokens".spec_bytes()) is Err
    ||| opt_str_field(m, "tokenizer.ggml.pre".spec_bytes()) is Err
    ||| opt_str_field(m, "tokenizer.chat_template".spec_bytes()) is Err
    ||| opt_u32_field(m, "tokenizer.ggml.bos_token_id".spec_bytes()) is Err
    ||| opt_u32_field(m, "tokenizer.ggml.eos_token_id".spec_bytes()) is Err
    ||| opt_u32_field(m, "tokenizer.ggml.unknown_token_id".spec_bytes()) is Err
    ||| opt_u32_field(m, "tokenizer.ggml.separator_token_id".spec_bytes()) is Err
    ||| opt_u32_field(m, "tokenizer.ggml.padding_token_id".spec_bytes()) is Err
    ||| opt_f32_array_field(m, "tokenizer.ggml.scores".spec_bytes()) is Err
    ||| opt_i32_array_field(m, "tokenizer.ggml.token_type".spec_bytes()) is Err
    ||| opt_str_array_field(m, "tokenizer.ggml.merges".spec_bytes()) is Err
    ||| opt_str_array_field(m, "tokenizer.ggml.added_tokens".spec_bytes()) is Err
}

/// An empty tokenizer description, before the tokenizer section is parsed.
fn empty_tokenizer() -> (t: LoaderGgufInfoTokenizer)
    ensures
        t.tokens@.len() == 0,
{
    LoaderGgufInfoTokenizer {
        model: String::new(),
        tokens: Vec::new(),
        pre: None,
        bos_token_id: None,
        eos_token_id: None,
        unknown_token_id: None,
        separator_token_id: None,
        padding_token_id: None,
        chat_template: None,
        scores_bits: None,
        token_type: None,
        merges: None,
        added_tokens: None,
    }
}

/// Reads the required general keys: the architecture name, the quantization
/// version, and the alignment, which defaults to 32 when absent - the only
/// metadata key with a built-in default. A missing required key is a loader
/// failure naming the key; a present key of the wrong type is a type error.
pub fn parse_required_kv(m: &MetaMap) -> (r: Result<LoaderGgufInfo, CallmError>)
    ensures
        match r {
            Ok(info) => required_kv_ok(m@, info) && info.license is None && info.model is Unset,
            Err(e) => required_kv_err(m@) && (e is LoaderFail || e is CandleError) && (spec_lookup(
                m@,
                "general.architecture".spec_bytes(),
            ) is None ==> missing_key_err(e, "general.architecture")) && ((req_str_field(
                m@,
                "general.architecture".spec_bytes(),
            ) is Ok && spec_lookup(m@, "general.quantization_version".spec_bytes()) is None)
                ==> missing_key_err(e, "general.quantization_version")),
        },
{
    let architecture = match req_string(m, "general.architecture") {
        Ok(v) => v,
        Err(e) => {
            return Err(e);
        },
    };
    let quantization_version = match req_u32(m, "general.quantization_version") {
        Ok(v) => v,
        Err(e) => {
            return Err(e);
        },
    };
    let alignment = match opt_u32(m, "general.alignment") {
        Ok(Some(a)) => a,
        Ok(None) => 32,
        Err(e) => {
            return Err(e);
        },
    };

    Ok(
        LoaderGgufInfo {
            architecture,
            quantization_version,
            alignment,
            name: None,
            author: None,
            url: None,
            description: None,
            license: None,
            file_type: None,
            source: LoaderGgufInfoSource { url: None, huggingface_repository: None },
            model: LoaderGgufInfoModel::Unset,
            tokenizer: empty_tokenizer(),
        },
    )
}

/// Reads the general metadata section: the required keys, then the optional
/// descriptive keys, read leniently - a missing optional key is not an
/// error, a present key of the wrong type propagates a type error.
pub fn parse_general_kv(m: &MetaMap) -> (r: Result<LoaderGgufInfo, CallmError>)
    ensures
        match r {
            Ok(info) => general_kv_ok(m@, info) && info.model is Unset,
            Err(e) => general_kv_err(m@) && (e is LoaderFail || e is CandleError) && (spec_lookup(
                m@,
                "general.architecture".spec_bytes(),
            ) is None ==> missing_key_err(e, "general.architecture")) && ((req_str_field(
                m@,
                "general.architecture".spec_bytes(),
            ) is Ok && spec_lookup(m@, "general.quantization_version".spec_bytes()) is None)
                ==> missing_key_err(e, "general.quantization_version")),
        },
{
    let mut info = match parse_required_kv(m) {
        Ok(v) => v,
        Err(e) => {
            return Err(e);
        },
    };

    info.name = match opt_string(m, "general.name") {
        Ok(v) => v,
        Err(e) => {
            return Err(e);
        },
    };
    info.author = match opt_string(m, "general.author") {
        Ok(v) => v,
        Err(e) => {
            return Err(e);
        },
    };
    info.url = match opt_string(m, "general.url") {
        Ok(v) => v,
        Err(e) => {
            return Err(e);
        },
    };
    info.description = match opt_string(m, "general.description") {
        Ok(v) => v,
        Err(e) => {
            return Err(e);
        },
    };
    info.file_type = match opt_u32(m, "general.file_type") {
        Ok(v) => v,
        Err(e) => {
            return Err(e);
        },
    };
    info.source.url = match opt_string(m, "general.source.url") {
        Ok(v) => v,
        Err(e) => {
            return Err(e);
        },
    };
    info.source.huggingface_repository = match opt_string(
        m,
        "general.source.huggingface.repository",
    ) {
        Ok(v) => v,
        Err(e) => {
            return Err(e);
        },
    };

    Ok(info)
}

/// Reads the tokenizer metadata section: the required family tag and
/// vocabulary, then the optional pre-tokenization tag, special-token ids,
/// chat template and arrays.
pub fn parse_tokenizer_kv(m: &MetaMap) -> (r: Result<LoaderGgufInfoTokenizer, CallmError>)
    ensures
        match r {
            Ok(t) => tokenizer_kv_ok(m@, t),
            Err(e) => tokenizer_kv_err(m@) && (e is LoaderFail || e is CandleError) && (
            spec_lookup(m@, "tokenizer.ggml.model".spec_bytes()) is None ==> missing_key_err(
                e,
                "tokenizer.ggml.model",
            )) && ((req_str_field(m@, "tokenizer.ggml.model".spec_bytes()) is Ok && spec_lookup(
                m@,
                "tokenizer.ggml.tokens".spec_bytes(),
            ) is None) ==> missing_key_err(e, "tokenizer.ggml.tokens")),
        },
{
    let model = match req_string(m, "tokenizer.ggml.model") {
        Ok(v) => v,
        Err(e) => {
            return Err(e);
        },
    };
    let tokens = match req_string_array(m, "tokenizer.ggml.tokens") {
        Ok(v) => v,
        Err(e) => {
            return Err(e);
        },
    };
    let pre = match opt_string(m, "tokenizer.ggml.pre") {
        Ok(v) => v,
        Err(e) => {
            return Err(e);
        },
    };
    let chat_template = match opt_string(m, "tokenizer.chat_template") {
        Ok(v) => v,
        Err(e) => {
            return Err(e);
        },
    };
    let bos_token_id = match opt_u32(m, "tokenizer.ggml.bos_token_id") {
        Ok(v) => v,
        Err(e) => {
            return Err(e);
        },
    };
    let eos_token_id = match opt_u32(m, "tokenizer.ggml.eos_token_id") {
        Ok(v) => v,
        Err(e) => {
            return Err(e);
        },
    };
    let unknown_token_id = match opt_u32(m, "tokenizer.ggml.unknown_token_id") {
        Ok(v) => v,
        Err(e) => {
            return Err(e);
        },
    };
    let separator_token_id = match opt_u32(m, "tokenizer.ggml.separator_token_id") {
        Ok(v) => v,
        Err(e) => {
            return Err(e);
        },
    };
    let padding_token_id = match opt_u32(m, "tokenizer.ggml.padding_token_id") {
        Ok(v) => v,
        Err(e) => {
            return Err(e);
        },
    };
    let scores_bits = match opt_f32_array(m, "tokenizer.ggml.scores") {
        Ok(v) => v,
        Err(e) => {
            return Err(e);
        },
    };
    let token_type = match opt_i32_array(m, "tokenizer.ggml.token_type") {
        Ok(v) => v,
        Err(e) => {
            return Err(e);
        },
    };
    let merges = match opt_string_array(m, "tokenizer.ggml.merges") {
        Ok(v) => v,
        Err(e) => {
            return Err(e);
        },
    };
    let added_tokens = match opt_string_array(m, "tokenizer.ggml.added_tokens") {
        Ok(v) => v,
        Err(e) => {
            return Err(e);
        },
    };

    Ok(
        LoaderGgufInfoTokenizer {
            model,
            tokens,
            pre,
            bos_token_id,
            eos_token_id,
            unknown_token_id,
            separator_token_id,
            padding_token_id,
            chat_template,
            scores_bits,
            token_type,
            merges,
            added_tokens,
        },
    )
}

/// Extracts a required string-array field as text items.
fn req_string_array(m: &MetaMap, key: &str) -> (r: Result<Vec<String>, CallmError>)
    ensures
        match r {
            Ok(v) => req_str_array_field(m@, key.spec_bytes()) matches Ok(ss) && v@.len()
                == ss.len() && (forall|i: int| 0 <= i < ss.len() ==> v@[i]@ == utf8_of(ss[i])),
            Err(e) => req_str_array_field(m@, key.spec_bytes()) is Err && (e is LoaderFail
                || e is CandleError) && (spec_lookup(m@, key.spec_bytes()) is None
                ==> missing_key_err(e, key)),
        },
{
    match opt_string_array(m, key) {
        Err(e) => Err(e),
        Ok(None) => Err(
            CallmError::LoaderFail(String::from_str("Missing GGUF metadata key ").concat(key)),
        ),
        Ok(Some(v)) => Ok(v),
    }
}

/// The end-of-sequence id after the documented correction for the `llama`
/// family: a declared id of 128001 whose token text is `<|end_of_text|>` is
/// remapped to 128009; every other declaration is kept as it stands.
pub open spec fn spec_fix_llama_eos(toks: Seq<Seq<char>>, eos: Option<u32>) -> Option<u32> {
    match eos {
        None => None,
        Some(id) => if id == 128001 && 128001 < toks.len() && toks[128001]
            == "<|end_of_text|>"@ {
            Some(128009u32)
        } else {
            Some(id)
        },
    }
}

/// Applies the documented end-of-sequence correction for the `llama`
/// family. The remap fires exactly when the declared id is 128001 and the
/// vocabulary names that id `<|end_of_text|>`; the corrected id is 128009.
pub fn fix_llama_eos(tokens: &Vec<String>, eos_token_id: Option<u32>) -> (r: Option<u32>)
    ensures
        r == spec_fix_llama_eos(str_views(tokens@), eos_token_id),
{
    proof {
        assert(str_views(tokens@).len() == tokens@.len());
    }
    match eos_token_id {
        None => None,
        Some(id) => {
            if id == 128001 && 128001 < tokens.len() {
                proof {
                    assert(str_views(tokens@)[128001] == tokens@[128001]@);
                }
                let target = String::from_str("<|end_of_text|>");
                if tokens[128001] == target {
                    Some(128009)
                } else {
                    Some(id)
                }
            } else {
                Some(id)
            }
        },
    }
}

/// The decoded texts of a sequence of byte strings.
pub open spec fn utf8_views(bs: Seq<Seq<u8>>) -> Seq<Seq<char>> {
    bs.map_values(|b: Seq<u8>| utf8_of(b))
}

/// Whether the raw metadata map names special-token ids that point outside
/// the declared vocabulary, after the end-of-sequence correction.
pub open spec fn special_ids_bad(m: Seq<(Seq<u8>, MetaValueV)>) -> bool {
    match req_str_array_field(m, "tokenizer.ggml.tokens".spec_bytes()) {
        Err(_) => false,
        Ok(toks) => {
            let bos_bad = match opt_u32_field(m, "tokenizer.ggml.bos_token_id".spec_bytes()) {
                Ok(Some(id)) => id >= toks.len(),
                _ => false,
            };
            let eos_bad = match opt_u32_field(m, "tokenizer.ggml.eos_token_id".spec_bytes()) {
                Ok(o) => match spec_fix_llama_eos(utf8_views(toks), o) {
                    Some(id) => id >= toks.len(),
                    None => false,
                },
                Err(_) => false,
            };
            bos_bad || eos_bad
        },
    }
}

/// Why the interpreter rejects a metadata map: a general or tokenizer field
/// cannot be extracted, the declared architecture is not the modeled
/// family, a family hyperparameter cannot be extracted, or a special-token
/// id points outside the vocabulary.
pub open spec fn interpret_gguf_rejects(m: Seq<(Seq<u8>, MetaValueV)>) -> bool {
    ||| general_kv_err(m)
    ||| tokenizer_kv_err(m)
    ||| (match req_str_field(m, "general.architecture".spec_bytes()) {
        Ok(b) => utf8_of(b) != "llama"@,
        Err(_) => true,
    })
    ||| llama::llama_kv_err(m)
    ||| special_ids_bad(m)
}

/// Whether the special-token ids the templates use point into the
/// vocabulary.
pub open spec fn special_ids_ok(t: LoaderGgufInfoTokenizer) -> bool {
    &&& (t.bos_token_id matches Some(id) ==> id < t.tokens@.len())
    &&& (t.eos_token_id matches Some(id) ==> id < t.tokens@.len())
}

/// Whether the special-token ids the templates use point into the
/// vocabulary.
pub fn check_special_ids(t: &LoaderGgufInfoTokenizer) -> (r: bool)
    ensures
        r == special_ids_ok(*t),
{
    let bos_ok = match t.bos_token_id {
        Some(id) => (id as usize) < t.tokens.len(),
        None => true,
    };
    let eos_ok = match t.eos_token_id {
        Some(id) => (id as usize) < t.tokens.len(),
        None => true,
    };
    bos_ok && eos_ok
}

/// Interprets a parsed container's metadata into the structured model
/// description: the general section, the tokenizer section, the
/// architecture dispatch (only the `llama` family is modeled; any other
/// declared architecture is unsupported), the family's hyperparameters, and
/// the documented end-of-sequence correction. Special-token ids referenced
/// by the templates must point into the vocabulary.
pub fn interpret_gguf(m: &MetaMap) -> (r: Result<LoaderGgufInfo, CallmError>)
    ensures
        match r {
            Ok(info) => {
                &&& general_kv_ok(m@, info)
                &&& info.architecture@ == "llama"@
                &&& (info.model matches LoaderGgufInfoModel::Llama(lm) && llama::llama_kv_ok(
                    m@,
                    lm,
                ))
                &&& match opt_u32_field(m@, "tokenizer.ggml.eos_token_id".spec_bytes()) {
                    Ok(o) => tokenizer_kv_ok_with_eos(
                        m@,
                        info.tokenizer,
                        spec_fix_llama_eos(str_views(info.tokenizer.tokens@), o),
                    ),
                    Err(_) => false,
                }
                &&& special_ids_ok(info.tokenizer)
            },
            Err(e) => interpret_gguf_rejects(m@) && (e is LoaderFail || e is CandleError
                || e is UnsupportedModel) && ((!general_kv_err(m@) && !tokenizer_kv_err(m@) && (
            req_str_field(m@, "general.architecture".spec_bytes()) matches Ok(b) && utf8_of(b)
                != "llama"@)) ==> e is UnsupportedModel),
        },
{
    let mut info = match parse_general_kv(m) {
        Ok(v) => v,
        Err(e) => {
            return Err(e);
        },
    };
    info.tokenizer = match parse_tokenizer_kv(m) {
        Ok(v) => v,
        Err(e) => {
            return Err(e);
        },
    };

    let llama_tag = String::from_str("llama");
    if !(info.architecture == llama_tag) {
        return Err(CallmError::UnsupportedModel);
    }

    let model_info = match llama::parse_llama_kv(m) {
        Ok(v) => v,
        Err(e) => {
            return Err(e);
        },
    };
    info.model = LoaderGgufInfoModel::Llama(model_info);

    // Documented correction for a wrong end-of-sequence declaration in this
    // family; see `fix_llama_eos`.
    info.tokenizer.eos_token_id = fix_llama_eos(&info.tokenizer.tokens, info.tokenizer.eos_token_id);

    proof {
        if let Ok(toks) = req_str_array_field(m@, "tokenizer.ggml.tokens".spec_bytes()) {
            assert(str_views(info.tokenizer.tokens@) =~= utf8_views(toks));
        }
    }
    if !check_special_ids(&info.tokenizer) {
        return Err(
            CallmError::LoaderFail(String::from_str("Special token id outside the vocabulary")),
        );
    }

    Ok(info)
}

/// Resolves the chat template a container selects: the structured template
/// bound to the embedded template string when one is present, the
/// pass-through fallback otherwise, with the declared special tokens
/// resolved through the vocabulary and injected.
pub fn gguf_template(info: &LoaderGgufInfo) -> (r: Template)
    requires
        special_ids_ok(info.tokenizer),
    ensures
        match info.tokenizer.chat_template {
            Some(t) => r matches Template::Jinja(j) && j.spec_template() == t@
                && j.spec_add_generation_prompt(),
            None => r is Dummy,
        },
        r.spec_bos() == (match info.tokenizer.bos_token_id {
            Some(id) => Some(str_views(info.tokenizer.tokens@)[id as int]),
            None => None::<Seq<char>>,
        }),
        r.spec_eos() == (match info.tokenizer.eos_token_id {
            Some(id) => Some(str_views(info.tokenizer.tokens@)[id as int]),
            None => None::<Seq<char>>,
        }),
{
    let mut template = match &info.tokenizer.chat_template {
        Some(template_string) => Template::Jinja(TemplateJinja::new(template_string.as_str())),
        None => Template::Dummy(TemplateDummy::new()),
    };

    if let Some(tkn_id) = info.tokenizer.bos_token_id {
        proof {
            assert(str_views(info.tokenizer.tokens@)[tkn_id as int]
                == info.tokenizer.tokens@[tkn_id as int]@);
        }
        template.set_bos_token(Some(info.tokenizer.tokens[tkn_id as usize].clone()));
    }
    if let Some(tkn_id) = info.tokenizer.eos_token_id {
        proof {
            assert(str_views(info.tokenizer.tokens@)[tkn_id as int]
                == info.tokenizer.tokens@[tkn_id as int]@);
        }
        template.set_eos_token(Some(info.tokenizer.tokens[tkn_id as usize].clone()));
    }

    template
}

} // verus!
