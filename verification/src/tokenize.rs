//! Tokenizer construction and use.
//!
//! The library makes every decision that shapes a tokenizer built from a
//! container's metadata: the vocabulary pairing, the parsed merge rules, the
//! control tokens to register, and the pre-tokenization strategy the declared
//! tag selects. The encoding machinery itself belongs to the `tokenizers`
//! crate and is reached through trusted wrappers.

use crate::error::CallmError;
use crate::loaders::gguf::LoaderGgufInfoTokenizer;
use vstd::prelude::*;
use vstd::string::StringSliceAdditionalSpecFns;
use vstd::utf8::encode_utf8;

verus! {

#[verifier::external_type_specification]
#[verifier::external_body]
pub struct ExTokenizer(tokenizers::Tokenizer);

#[verifier::external_type_specification]
#[verifier::external_body]
pub struct ExModelWrapper(tokenizers::ModelWrapper);

#[verifier::external_type_specification]
#[verifier::external_body]
pub struct ExPreTokenizerWrapper(tokenizers::PreTokenizerWrapper);

#[verifier::external_type_specification]
#[verifier::external_body]
pub struct ExPostProcessorWrapper(tokenizers::PostProcessorWrapper);

#[verifier::external_type_specification]
#[verifier::external_body]
pub struct ExDecoderWrapper(tokenizers::DecoderWrapper);

#[verifier::external_type_specification]
#[verifier::external_body]
pub struct ExAddedVocabulary(tokenizers::AddedVocabulary);

#[verifier::external_type_specification]
#[verifier::external_body]
pub struct ExAddedToken(tokenizers::AddedToken);

/// The regex pattern of the `llama-bpe` pre-tokenization splitter.
pub const LLAMA_BPE_SPLIT_PATTERN: &'static str =
    "(?i:'s|'t|'re|'ve|'m|'ll|'d)|[^\\r\\n\\p{L}\\p{N}]?\\p{L}+|\\p{N}{1,3}| ?[^\\s\\p{L}\\p{N}]+[\\r\\n]*|\\s*[\\r\\n]+|\\s+(?!\\S)|\\s+";

/// Whether the regex engine accepts a pattern. The outcome is a function of
/// the pattern alone.
pub uninterp spec fn regex_accepted(pattern: Seq<char>) -> bool;

/// Whether the merge-based encoder builder accepts a vocabulary and a merge
/// list: every merge's sides and their concatenation must resolve in the
/// vocabulary. The outcome is a function of the two lists alone.
pub uninterp spec fn bpe_accepts(
    vocab: Seq<(Seq<char>, u32)>,
    merges: Seq<(Seq<char>, Seq<char>)>,
) -> bool;

/// The pair views of a vocabulary list.
pub open spec fn vocab_views(v: Seq<(String, u32)>) -> Seq<(Seq<char>, u32)> {
    v.map_values(|p: (String, u32)| (p.0@, p.1))
}

/// The pair views of a split merge list.
pub open spec fn merge_views(v: Seq<(String, String)>) -> Seq<(Seq<char>, Seq<char>)> {
    v.map_values(|p: (String, String)| (p.0@, p.1@))
}

/// Relies on `tokenizers::pre_tokenizers::split::Split::new`: builds the
/// regex splitter with isolated delimiters and no inversion; succeeds
/// exactly when the regex engine accepts the pattern.
#[verifier::external_body]
fn split_regex_pre_tokenizer(pattern: &str) -> (r: Result<
    tokenizers::PreTokenizerWrapper,
    CallmError,
>)
    ensures
        r is Ok <==> regex_accepted(pattern@),
        r matches Err(e) ==> e is TokenizerError,
{
    match tokenizers::pre_tokenizers::split::Split::new(
        tokenizers::pre_tokenizers::split::SplitPattern::Regex(pattern.to_string()),
        tokenizers::SplitDelimiterBehavior::Isolated,
        false,
    ) {
        Ok(s) => Ok(tokenizers::PreTokenizerWrapper::Split(s)),
        Err(e) => Err(CallmError::TokenizerError { msg: e.to_string() }),
    }
}

/// Relies on `tokenizers::pre_tokenizers::byte_level::ByteLevel::new`: the
/// reversible byte-to-printable-character remapping used before encoding
/// (no prefix space, trimmed offsets, no built-in regex).
#[verifier::external_body]
fn byte_level_pre_tokenizer() -> tokenizers::PreTokenizerWrapper {
    tokenizers::PreTokenizerWrapper::ByteLevel(
        tokenizers::pre_tokenizers::byte_level::ByteLevel::new(false, true, false),
    )
}

/// Relies on `tokenizers::pre_tokenizers::sequence::Sequence::new`:
/// composes pre-tokenizers in order.
#[verifier::external_body]
fn sequence_pre_tokenizer(parts: Vec<tokenizers::PreTokenizerWrapper>) -> (r:
    tokenizers::PreTokenizerWrapper)
{
    tokenizers::PreTokenizerWrapper::Sequence(
        tokenizers::pre_tokenizers::sequence::Sequence::new(parts),
    )
}

/// Relies on `tokenizers::pre_tokenizers::byte_level::ByteLevel`: the
/// post-processing step attached after encoding.
#[verifier::external_body]
fn byte_level_post_processor() -> tokenizers::PostProcessorWrapper {
    tokenizers::PostProcessorWrapper::ByteLevel(
        tokenizers::pre_tokenizers::byte_level::ByteLevel::new(true, false, true),
    )
}

/// Relies on `tokenizers::pre_tokenizers::byte_level::ByteLevel`: the
/// decoding step performing the inverse byte remapping.
#[verifier::external_body]
fn byte_level_decoder() -> tokenizers::DecoderWrapper {
    tokenizers::DecoderWrapper::ByteLevel(
        tokenizers::pre_tokenizers::byte_level::ByteLevel::new(true, true, true),
    )
}

/// The longest key of a vocabulary list, in encoded bytes.
pub open spec fn spec_max_key_len(vv: Seq<(Seq<char>, u32)>) -> int
    decreases vv.len(),
{
    if vv.len() == 0 {
        0
    } else {
        let r = spec_max_key_len(vv.drop_last());
        let l = encode_utf8(vv.last().0).len() as int;
        if l > r {
            r + (l - r)
        } else {
            r
        }
    }
}

/// Whether every merge's two sides together are no longer, in encoded
/// bytes, than the longest vocabulary key. The encoder builder writes each
/// concatenation into a buffer sized by that longest key, so a longer
/// merge would overrun it.
pub open spec fn merge_lengths_ok(
    vv: Seq<(Seq<char>, u32)>,
    mv: Seq<(Seq<char>, Seq<char>)>,
) -> bool {
    forall|i: int|
        0 <= i < mv.len() ==> encode_utf8(#[trigger] mv[i].0).len() + encode_utf8(mv[i].1).len()
            <= spec_max_key_len(vv)
}

/// Relies on `tokenizers::models::bpe::BPE`: builds the merge-based
/// encoder from the vocabulary pairs and ordered merge rules, instructed to
/// skip pre-existing exact vocabulary matches before applying merges. The
/// builder concatenates each merge's sides into a buffer sized by the
/// longest vocabulary key, so merges longer than that key are excluded
/// here; within that bound it succeeds exactly when every merge's sides
/// and concatenation resolve in the vocabulary.
#[verifier::external_body]
fn bpe_model(vocab: Vec<(String, u32)>, merges: Vec<(String, String)>) -> (r: Result<
    tokenizers::ModelWrapper,
    CallmError,
>)
    requires
        merge_lengths_ok(vocab_views(vocab@), merge_views(merges@)),
    ensures
        r is Ok <==> bpe_accepts(vocab_views(vocab@), merge_views(merges@)),
        r matches Err(e) ==> e is TokenizerError,
{
    let vocab: tokenizers::models::bpe::Vocab = vocab.into_iter().collect();
    match tokenizers::models::bpe::BPE::builder().vocab_and_merges(vocab, merges).ignore_merges(
        true,
    ).build() {
        Ok(bpe) => Ok(tokenizers::ModelWrapper::BPE(bpe)),
        Err(e) => Err(CallmError::TokenizerError { msg: e.to_string() }),
    }
}

/// Relies on `tokenizers::AddedToken::from`: an added token flagged as
/// special.
#[verifier::external_body]
fn added_token_special(content: &str) -> tokenizers::AddedToken {
    tokenizers::AddedToken::from(content, true)
}

/// Relies on `tokenizers::AddedVocabulary::{new, add_special_tokens}`:
/// builds the added vocabulary registering the control tokens, so they
/// bypass normal tokenization during encode and are preserved verbatim
/// during decode. With no normalizer handed in, the one fallible step of
/// the registration never runs, so the registration succeeds.
#[verifier::external_body]
fn special_token_vocabulary(
    toks: Vec<tokenizers::AddedToken>,
    model: &tokenizers::ModelWrapper,
) -> tokenizers::AddedVocabulary {
    let mut av = tokenizers::AddedVocabulary::new();
    let _ = av.add_special_tokens(toks, model, None::<&tokenizers::normalizers::strip::Strip>);
    av
}

/// Relies on `tokenizers::TokenizerBuilder`: assembles the tokenizer from
/// its building blocks. The builder's one failure is a missing model, and a
/// model is always handed in, so assembly succeeds.
#[verifier::external_body]
fn assemble_tokenizer(
    model: tokenizers::ModelWrapper,
    pre_tokenizer: Option<tokenizers::PreTokenizerWrapper>,
    post_processor: Option<tokenizers::PostProcessorWrapper>,
    decoder: Option<tokenizers::DecoderWrapper>,
    added_vocabulary: tokenizers::AddedVocabulary,
) -> (r: Result<tokenizers::Tokenizer, CallmError>)
    ensures
        r is Ok,
{
    match tokenizers::TokenizerBuilder::new().with_model(model).with_normalizer(
        None::<tokenizers::NormalizerWrapper>,
    ).with_pre_tokenizer(pre_tokenizer).with_post_processor(post_processor).with_decoder(
        decoder,
    ).with_truncation(None).with_padding(None).with_added_vocabulary(added_vocabulary).build() {
        Ok(t) => Ok(t.into()),
        Err(e) => Err(CallmError::TokenizerError { msg: e.to_string() }),
    }
}

/// Relies on `tokenizers::Tokenizer::encode`: turns text into token ids,
/// with or without the tokenizer's own special tokens.
#[verifier::external_body]
pub(crate) fn tokenizer_encode(t: &tokenizers::Tokenizer, text: &str, add_special_tokens: bool) -> (r:
    Result<Vec<u32>, CallmError>)
    ensures
        r matches Err(e) ==> e is TokenizerError,
{
    match t.encode(text, add_special_tokens) {
        Ok(enc) => Ok(enc.get_ids().to_vec()),
        Err(e) => Err(CallmError::TokenizerError { msg: e.to_string() }),
    }
}

/// Relies on `tokenizers::Tokenizer::decode`: turns token ids back into
/// text, optionally skipping special tokens.
#[verifier::external_body]
pub(crate) fn tokenizer_decode(t: &tokenizers::Tokenizer, ids: &[u32], skip_special_tokens: bool) -> (r:
    Result<String, CallmError>)
    ensures
        r matches Err(e) ==> e is TokenizerError,
{
    match t.decode(ids, skip_special_tokens) {
        Ok(s) => Ok(s),
        Err(e) => Err(CallmError::TokenizerError { msg: e.to_string() }),
    }
}

/// Relies on `tokenizers::Tokenizer::token_to_id`: the id of a token's
/// exact text, when the vocabulary holds it.
#[verifier::external_body]
pub(crate) fn tokenizer_token_to_id(t: &tokenizers::Tokenizer, token: &str) -> Option<u32> {
    t.token_to_id(token)
}

/// Pairs each vocabulary token with its id: index equals id, ids dense and
/// contiguous from 0. Fails only when the vocabulary cannot be indexed by
/// 32-bit ids.
pub fn vocab_pairs(tokens: &Vec<String>) -> (r: Result<Vec<(String, u32)>, CallmError>)
    ensures
        match r {
            Ok(v) => tokens@.len() <= u32::MAX && v@.len() == tokens@.len() && (forall|i: int|
                0 <= i < v@.len() ==> v@[i].0 == tokens@[i] && v@[i].1 == i as u32),
            Err(e) => tokens@.len() > u32::MAX && e is TokenizerError,
        },
{
    if tokens.len() > u32::MAX as usize {
        return Err(
            CallmError::TokenizerError {
                msg: String::from_str("vocabulary too large for 32-bit token ids"),
            },
        );
    }
    let mut v: Vec<(String, u32)> = Vec::new();
    let mut i: usize = 0;
    while i < tokens.len()
        invariant
            i <= tokens@.len(),
            tokens@.len() <= u32::MAX,
            v@.len() == i,
            forall|j: int| 0 <= j < i ==> v@[j].0 == tokens@[j] && v@[j].1 == j as u32,
        decreases tokens@.len() - i,
    {
        v.push((tokens[i].clone(), i as u32));
        i = i + 1;
    }
    Ok(v)
}

/// Whether the encoded bytes of `s` contain the merge separator (an ASCII
/// space).
pub open spec fn has_space(b: Seq<u8>) -> bool {
    exists|i: int| 0 <= i < b.len() && b[i] == 32
}

/// The index of the first ASCII space in `b`; meaningful when one exists.
pub open spec fn first_space(b: Seq<u8>) -> int {
    choose|i: int|
        0 <= i < b.len() && b[i] == 32 && (forall|j: int| 0 <= j < i ==> b[j] != 32)
}

/// Whether `pair` is merge rule `m` split at its first interior separator.
pub open spec fn merge_pair_ok(m: Seq<char>, pair: (String, String)) -> bool {
    let b = encode_utf8(m);
    &&& has_space(b)
    &&& pair.0@ == crate::utils::utf8_of(b.take(first_space(b)))
    &&& pair.1@ == crate::utils::utf8_of(b.skip(first_space(b) + 1))
}

/// Splits each merge rule at its first interior separator into the ordered
/// pair of sub-tokens, keeping rule order (earlier rules are preferred
/// during merging). A rule without a separator is a tokenizer error.
pub fn split_merges(merges: &Vec<String>) -> (r: Result<Vec<(String, String)>, CallmError>)
    ensures
        match r {
            Ok(v) => v@.len() == merges@.len() && (forall|i: int|
                0 <= i < v@.len() ==> merge_pair_ok(merges@[i]@, #[trigger] v@[i])),
            Err(e) => e is TokenizerError && (exists|i: int|
                #![trigger merges@[i]]
                0 <= i < merges@.len() && !has_space(encode_utf8(merges@[i]@))),
        },
{
    let mut v: Vec<(String, String)> = Vec::new();
    let mut i: usize = 0;
    while i < merges.len()
        invariant
            i <= merges@.len(),
            v@.len() == i,
            forall|j: int| 0 <= j < i ==> merge_pair_ok(merges@[j]@, #[trigger] v@[j]),
        decreases merges@.len() - i,
    {
        let b = merges[i].as_str().as_bytes();
        let mut k: usize = 0;
        let mut found = false;
        while k < b.len() && !found
            invariant
                k <= b@.len(),
                !found ==> forall|j: int| 0 <= j < k ==> b@[j] != 32,
                found ==> k < b@.len() && b@[k as int] == 32 && (forall|j: int|
                    0 <= j < k ==> b@[j] != 32),
            decreases b@.len() - k + (if found { 0int } else { 1int }),
        {
            if b[k] == 32 {
                found = true;
            } else {
                k = k + 1;
            }
        }
        if !found {
            proof {
                assert(!has_space(b@));
                assert(encode_utf8(merges@[i as int]@) == b@);
            }
            return Err(
                CallmError::TokenizerError {
                    msg: String::from_str("merge rule without separator"),
                },
            );
        }
        proof {
            assert(has_space(b@));
            assert(first_space(b@) == k as int) by {
                assert(0 <= (k as int) < b@.len() && b@[k as int] == 32 && (forall|j: int|
                    0 <= j < k as int ==> b@[j] != 32));
                let fs = first_space(b@);
                assert(0 <= fs < b@.len() && b@[fs] == 32 && (forall|j: int|
                    0 <= j < fs ==> b@[j] != 32));
                if fs < k as int {
                    assert(b@[fs] != 32);
                } else if fs > k as int {
                    assert(b@[k as int] != 32);
                }
            }
        }
        let left = vstd::slice::slice_subrange(b, 0, k);
        let right = vstd::slice::slice_subrange(b, k + 1, b.len());
        let ls = crate::utils::utf8_lossy(left);
        let rs = crate::utils::utf8_lossy(right);
        proof {
            assert(encode_utf8(merges@[i as int]@) == b@);
            assert(b@.subrange(0, k as int) =~= b@.take(first_space(b@)));
            assert(b@.subrange(k as int + 1, b@.len() as int) =~= b@.skip(first_space(b@) + 1));
        }
        v.push((ls, rs));
        proof {
            assert(encode_utf8(merges@[i as int]@) == b@);
            assert(merge_pair_ok(merges@[i as int]@, v@[i as int]));
        }
        i = i + 1;
    }
    Ok(v)
}

/// The control tokens named by the per-token type classification: the
/// tokens at each index whose type code is 3, in vocabulary order; the
/// suffix from `i` on.
pub open spec fn spec_controls(toks: Seq<String>, tt: Seq<i32>, i: int) -> Seq<String>
    decreases tt.len() - i,
{
    if i < 0 || i >= tt.len() {
        Seq::<String>::empty()
    } else if tt[i] == 3 && i < toks.len() {
        seq![toks[i]] + spec_controls(toks, tt, i + 1)
    } else {
        spec_controls(toks, tt, i + 1)
    }
}

/// Collects the tokens flagged as control tokens (type code 3) in the
/// per-token type classification. A control flag at an index outside the
/// vocabulary is a tokenizer error.
pub fn control_tokens(tokens: &Vec<String>, token_type: &Vec<i32>) -> (r: Result<
    Vec<String>,
    CallmError,
>)
    ensures
        match r {
            Ok(v) => v@ == spec_controls(tokens@, token_type@, 0) && (forall|i: int|
                0 <= i < token_type@.len() && token_type@[i] == 3 ==> i < tokens@.len()),
            Err(e) => e is TokenizerError && (exists|i: int|
                0 <= i < token_type@.len() && token_type@[i] == 3 && i >= tokens@.len()),
        },
{
    let mut v: Vec<String> = Vec::new();
    let mut i: usize = 0;
    while i < token_type.len()
        invariant
            i <= token_type@.len(),
            v@ + spec_controls(tokens@, token_type@, i as int) == spec_controls(
                tokens@,
                token_type@,
                0,
            ),
            forall|j: int| 0 <= j < i && token_type@[j] == 3 ==> j < tokens@.len(),
        decreases token_type@.len() - i,
    {
        if token_type[i] == 3 {
            if i < tokens.len() {
                proof {
                    assert((v@ + seq![tokens@[i as int]]) + spec_controls(
                        tokens@,
                        token_type@,
                        i as int + 1,
                    ) =~= v@ + (seq![tokens@[i as int]] + spec_controls(
                        tokens@,
                        token_type@,
                        i as int + 1,
                    )));
                    assert(v@.push(tokens@[i as int]) =~= v@ + seq![tokens@[i as int]]);
                }
                v.push(tokens[i].clone());
            } else {
                return Err(
                    CallmError::TokenizerError {
                        msg: String::from_str("control token outside the vocabulary"),
                    },
                );
            }
        }
        i = i + 1;
    }
    proof {
        assert(v@ + Seq::<String>::empty() =~= v@);
    }
    Ok(v)
}

/// The vocabulary pairing a description's tokens induce: index equals id.
pub open spec fn spec_vocab_views(tokens: Seq<String>) -> Seq<(Seq<char>, u32)> {
    Seq::new(tokens.len(), |i: int| (tokens[i]@, i as u32))
}

/// The split views of a description's merge rules: each rule divided at
/// its first interior separator.
pub open spec fn spec_merge_splits(merges: Seq<String>) -> Seq<(Seq<char>, Seq<char>)> {
    Seq::new(
        merges.len(),
        |i: int|
            {
                let b = encode_utf8(merges[i]@);
                (
                    crate::utils::utf8_of(b.take(first_space(b))),
                    crate::utils::utf8_of(b.skip(first_space(b) + 1)),
                )
            },
    )
}

/// When [`build_gguf_tokenizer`] succeeds: the vocabulary model is the
/// byte-pair-encoding family; the pre-tokenization tag, when present, is
/// the implemented one and its pattern compiles; the vocabulary fits
/// 32-bit ids; merge rules exist, each with an interior separator, none
/// outgrowing the longest token once split; every control flag points into
/// the vocabulary; and the encoder builder accepts the vocabulary pairing
/// and the split merges.
pub open spec fn spec_build_accepted(tok: LoaderGgufInfoTokenizer) -> bool {
    &&& tok.model@ == "gpt2"@
    &&& (match tok.pre {
        Some(p) => p@ == "llama-bpe"@ && regex_accepted(LLAMA_BPE_SPLIT_PATTERN@),
        None => true,
    })
    &&& tok.tokens@.len() <= u32::MAX
    &&& (match tok.token_type {
        Some(tt) => forall|i: int| 0 <= i < tt@.len() && tt@[i] == 3 ==> i < tok.tokens@.len(),
        None => true,
    })
    &&& (match tok.merges {
        Some(ms) => {
            &&& (forall|i: int|
                0 <= i < ms@.len() ==> has_space(encode_utf8(#[trigger] ms@[i]@)))
            &&& merge_lengths_ok(spec_vocab_views(tok.tokens@), spec_merge_splits(ms@))
            &&& bpe_accepts(spec_vocab_views(tok.tokens@), spec_merge_splits(ms@))
        },
        None => false,
    })
}

/// Whether every split merge is, in encoded bytes, no longer than the
/// longest vocabulary key - the bound the encoder builder's buffer needs.
fn check_merge_lengths(vocab: &Vec<(String, u32)>, merges: &Vec<(String, String)>) -> (r: bool)
    ensures
        r == merge_lengths_ok(vocab_views(vocab@), merge_views(merges@)),
{
    let mut max_len: usize = 0;
    let mut i: usize = 0;
    proof {
        assert(vocab_views(vocab@).take(0) =~= Seq::<(Seq<char>, u32)>::empty());
    }
    while i < vocab.len()
        invariant
            i <= vocab@.len(),
            max_len as int == spec_max_key_len(vocab_views(vocab@).take(i as int)),
        decreases vocab@.len() - i,
    {
        let l = vocab[i].0.as_str().as_bytes().len();
        proof {
            assert(vocab_views(vocab@).take(i as int + 1).drop_last() =~= vocab_views(
                vocab@,
            ).take(i as int));
            assert(vocab_views(vocab@).take(i as int + 1).last() == vocab_views(vocab@)[i as int]);
            assert(vocab_views(vocab@)[i as int].0 == vocab@[i as int].0@);
        }
        if l > max_len {
            max_len = l;
        }
        proof {
            let vv = vocab_views(vocab@);
            assert(l as int == encode_utf8(vv[i as int].0).len() as int);
            assert(spec_max_key_len(vv.take(i as int + 1)) == (if encode_utf8(
                vv[i as int].0,
            ).len() as int > spec_max_key_len(vv.take(i as int)) {
                encode_utf8(vv[i as int].0).len() as int
            } else {
                spec_max_key_len(vv.take(i as int))
            }));
        }
        i = i + 1;
    }
    proof {
        assert(vocab_views(vocab@).take(vocab@.len() as int) =~= vocab_views(vocab@));
    }
    let mut j: usize = 0;
    while j < merges.len()
        invariant
            j <= merges@.len(),
            max_len as int == spec_max_key_len(vocab_views(vocab@)),
            forall|k: int|
                0 <= k < j ==> encode_utf8(#[trigger] merge_views(merges@)[k].0).len()
                    + encode_utf8(merge_views(merges@)[k].1).len() <= max_len as int,
        decreases merges@.len() - j,
    {
        let a = merges[j].0.as_str().as_bytes().len();
        let b = merges[j].1.as_str().as_bytes().len();
        proof {
            assert(merge_views(merges@)[j as int] == (merges@[j as int].0@, merges@[j as int].1@));
        }
        if a > max_len || b > max_len - a {
            proof {
                assert(encode_utf8(merge_views(merges@)[j as int].0).len() + encode_utf8(
                    merge_views(merges@)[j as int].1,
                ).len() > spec_max_key_len(vocab_views(vocab@)));
            }
            return false;
        }
        proof {
            assert(encode_utf8(merge_views(merges@)[j as int].0).len() + encode_utf8(
                merge_views(merges@)[j as int].1,
            ).len() <= max_len as int);
        }
        j = j + 1;
    }
    true
}

/// Builds the working encoder/decoder a container's tokenizer description
/// selects.
///
/// Three axes are decided here, each from a tag of the description: the
/// pre-tokenization strategy (the `llama-bpe` tag selects the regex
/// splitter composed with the byte-level remapping; recognized tags that
/// are not yet implemented fail explicitly, and so does an unknown tag);
/// the vocabulary model (only the `gpt2` byte-pair-encoding family is
/// implemented; the `llama` family is recognized but not yet implemented,
/// and both it and unknown families fail); and the registration of control
/// tokens as special tokens. Construction succeeds exactly on the
/// descriptions [`spec_build_accepted`] admits; every failure is a
/// tokenizer error, and no partial tokenizer is usable.
pub fn build_gguf_tokenizer(tok: &LoaderGgufInfoTokenizer) -> (r: Result<
    tokenizers::Tokenizer,
    CallmError,
>)
    ensures
        r matches Err(e) ==> e is TokenizerError,
        r is Ok <==> spec_build_accepted(*tok),
{
    // Pre-tokenization strategy.
    let pre_tokenizer: Option<tokenizers::PreTokenizerWrapper> = match &tok.pre {
        None => None,
        Some(pre) => {
            if *pre == String::from_str("llama-bpe") {
                let split = match split_regex_pre_tokenizer(LLAMA_BPE_SPLIT_PATTERN) {
                    Ok(s) => s,
                    Err(e) => {
                        return Err(e);
                    },
                };
                let mut parts: Vec<tokenizers::PreTokenizerWrapper> = Vec::new();
                parts.push(split);
                parts.push(byte_level_pre_tokenizer());
                Some(sequence_pre_tokenizer(parts))
            } else if *pre == String::from_str("deepseek-llm") || *pre == String::from_str(
                "deepseek-coder",
            ) || *pre == String::from_str("falcon") {
                return Err(
                    CallmError::TokenizerError {
                        msg: String::from_str("pre-tokenizer not supported yet"),
                    },
                );
            } else {
                return Err(
                    CallmError::TokenizerError { msg: String::from_str("unknown pre-tokenizer") },
                );
            }
        },
    };

    // Vocabulary model family.
    if !(tok.model == String::from_str("gpt2")) {
        if tok.model == String::from_str("llama") {
            return Err(
                CallmError::TokenizerError {
                    msg: String::from_str("tokenizer model not supported yet"),
                },
            );
        }
        return Err(
            CallmError::TokenizerError { msg: String::from_str("unknown tokenizer model") },
        );
    }

    let pairs = match vocab_pairs(&tok.tokens) {
        Ok(v) => v,
        Err(e) => {
            return Err(e);
        },
    };
    proof {
        assert(vocab_views(pairs@) =~= spec_vocab_views(tok.tokens@));
    }
    let merges_list = match &tok.merges {
        Some(ms) => ms,
        None => {
            return Err(
                CallmError::TokenizerError { msg: String::from_str("missing merge rules") },
            );
        },
    };
    let merges_split = match split_merges(merges_list) {
        Ok(v) => v,
        Err(e) => {
            return Err(e);
        },
    };
    proof {
        assert(merge_views(merges_split@) =~= spec_merge_splits(merges_list@));
        assert forall|i: int| 0 <= i < merges_list@.len() implies has_space(
            encode_utf8(#[trigger] merges_list@[i]@),
        ) by {
            assert(merge_pair_ok(merges_list@[i]@, merges_split@[i]));
        }
    }
    // The encoder builder writes each split merge into a buffer sized by
    // the longest vocabulary key; a longer merge must be rejected here.
    if !check_merge_lengths(&pairs, &merges_split) {
        return Err(
            CallmError::TokenizerError {
                msg: String::from_str("merge rule longer than any vocabulary entry"),
            },
        );
    }
    let model = match bpe_model(pairs, merges_split) {
        Ok(m) => m,
        Err(e) => {
            return Err(e);
        },
    };

    // Special-token registration from the control-token classification.
    let mut added: Vec<tokenizers::AddedToken> = Vec::new();
    if let Some(tt) = &tok.token_type {
        let specials = match control_tokens(&tok.tokens, tt) {
            Ok(v) => v,
            Err(e) => {
                return Err(e);
            },
        };
        let mut i: usize = 0;
        while i < specials.len()
            invariant
                i <= specials@.len(),
            decreases specials@.len() - i,
        {
            added.push(added_token_special(specials[i].as_str()));
            i = i + 1;
        }
    }
    let added_vocabulary = special_token_vocabulary(added, &model);

    match assemble_tokenizer(
        model,
        pre_tokenizer,
        Some(byte_level_post_processor()),
        Some(byte_level_decoder()),
        added_vocabulary,
    ) {
        Ok(t) => Ok(t),
        Err(e) => Err(e),
    }
}

} // verus!
