//! Interpreter for the directory/shard format's side-car configuration.
//!
//! The shard loader reads a JSON configuration, a tokenizer definition and
//! an optional weight-file index from the resolved base directory. The
//! documents are abstracted into a shallow JSON model of the library's own
//! (the root object's entries with their values; anything nested below two
//! levels is collapsed, since nothing this loader reads lies deeper), named
//! by [`json_of`]; every decision - the required special-token ids, the
//! architecture dispatch with its documented end-of-sequence correction,
//! the optional chat template, and the ordered deduplicated weight-file
//! list - is verified against that model.

use crate::error::CallmError;
use crate::models::ModelArchitecture;
use crate::templates::{Template, TemplateDummy, TemplateJinja};
use crate::loaders::opt_view;
use vstd::prelude::*;

verus! {

#[verifier::external_type_specification]
#[verifier::external_body]
pub struct ExJsonValue(serde_json::Value);

/// A scalar of the shallow JSON model; a nested array or object below the
/// examined depth is collapsed to [`JsonLeaf::Composite`]. Numbers keep the
/// reader's classification: a signed integer, an unsigned integer above the
/// signed range, or a non-integer number, whose value nothing here reads.
#[derive(Clone, Debug, PartialEq)]
pub enum JsonLeaf {
    Null,
    Bool(bool),
    Int(i64),
    UInt(u64),
    Fractional,
    Text(String),
    Composite,
}

/// The mathematical value of a [`JsonLeaf`].
pub enum JsonLeafV {
    Null,
    Bool(bool),
    Int(i64),
    UInt(u64),
    Fractional,
    Text(Seq<char>),
    Composite,
}

impl View for JsonLeaf {
    type V = JsonLeafV;

    open spec fn view(&self) -> JsonLeafV {
        match self {
            JsonLeaf::Null => JsonLeafV::Null,
            JsonLeaf::Bool(b) => JsonLeafV::Bool(*b),
            JsonLeaf::Int(v) => JsonLeafV::Int(*v),
            JsonLeaf::UInt(v) => JsonLeafV::UInt(*v),
            JsonLeaf::Fractional => JsonLeafV::Fractional,
            JsonLeaf::Text(s) => JsonLeafV::Text(s@),
            JsonLeaf::Composite => JsonLeafV::Composite,
        }
    }
}

/// A value directly under the document's root object.
#[derive(Clone, Debug, PartialEq)]
pub enum JsonNode {
    Leaf(JsonLeaf),
    Array(Vec<JsonLeaf>),
    Object(Vec<(String, JsonLeaf)>),
}

/// The mathematical value of a [`JsonNode`].
pub enum JsonNodeV {
    Leaf(JsonLeafV),
    Array(Seq<JsonLeafV>),
    Object(Seq<(Seq<char>, JsonLeafV)>),
}

impl View for JsonNode {
    type V = JsonNodeV;

    open spec fn view(&self) -> JsonNodeV {
        match self {
            JsonNode::Leaf(l) => JsonNodeV::Leaf(l@),
            JsonNode::Array(items) => JsonNodeV::Array(
                items@.map_values(|l: JsonLeaf| l@),
            ),
            JsonNode::Object(entries) => JsonNodeV::Object(
                entries@.map_values(|e: (String, JsonLeaf)| (e.0@, e.1@)),
            ),
        }
    }
}

/// A parsed document: the root object's entries in the reader's order, or
/// any other root collapsed to [`JsonDoc::Other`].
#[derive(Clone, Debug, PartialEq)]
pub enum JsonDoc {
    Object(Vec<(String, JsonNode)>),
    Other,
}

/// The mathematical value of a [`JsonDoc`].
pub enum JsonDocV {
    Object(Seq<(Seq<char>, JsonNodeV)>),
    Other,
}

impl View for JsonDoc {
    type V = JsonDocV;

    open spec fn view(&self) -> JsonDocV {
        match self {
            JsonDoc::Object(entries) => JsonDocV::Object(
                entries@.map_values(|e: (String, JsonNode)| (e.0@, e.1@)),
            ),
            JsonDoc::Other => JsonDocV::Other,
        }
    }
}

/// The shallow model of the document a text parses to, or nothing when the
/// text is not valid JSON. The result is a function of the text alone.
pub uninterp spec fn json_of(text: Seq<char>) -> Option<JsonDocV>;

/// Relies on `serde_json::Value`'s accessors: abstracts one parsed value to
/// the model's scalar, one arm per facet, collapsing arrays and objects.
#[verifier::external_body]
fn leaf_of_value(v: &serde_json::Value) -> JsonLeaf {
    match v {
        serde_json::Value::Null => JsonLeaf::Null,
        serde_json::Value::Bool(b) => JsonLeaf::Bool(*b),
        serde_json::Value::Number(n) => {
            if let Some(i) = n.as_i64() {
                JsonLeaf::Int(i)
            } else if let Some(u) = n.as_u64() {
                JsonLeaf::UInt(u)
            } else {
                JsonLeaf::Fractional
            }
        },
        serde_json::Value::String(s) => JsonLeaf::Text(s.clone()),
        _ => JsonLeaf::Composite,
    }
}

/// Relies on `serde_json::Value`'s accessors: abstracts one value under the
/// root, one arm per facet, with its children as scalars.
#[verifier::external_body]
fn node_of_value(v: &serde_json::Value) -> JsonNode {
    match v {
        serde_json::Value::Array(items) => JsonNode::Array(
            items.iter().map(leaf_of_value).collect(),
        ),
        serde_json::Value::Object(map) => JsonNode::Object(
            map.iter().map(|(k, x)| (k.clone(), leaf_of_value(x))).collect(),
        ),
        other => JsonNode::Leaf(leaf_of_value(other)),
    }
}

/// Relies on `serde_json::from_str`: parses a JSON document and abstracts
/// it, one arm per root facet, to the library's shallow model, whose value
/// the name [`json_of`] stands for.
#[verifier::external_body]
fn json_parse_doc(text: &str) -> (r: Result<JsonDoc, CallmError>)
    ensures
        match r {
            Ok(d) => json_of(text@) == Some(d@),
            Err(e) => json_of(text@) is None && e is SerdeError,
        },
{
    match serde_json::from_str::<serde_json::Value>(text) {
        Ok(serde_json::Value::Object(map)) => Ok(
            JsonDoc::Object(map.iter().map(|(k, x)| (k.clone(), node_of_value(x))).collect()),
        ),
        Ok(_) => Ok(JsonDoc::Other),
        Err(e) => Err(CallmError::SerdeError(e.to_string())),
    }
}

/// First-match lookup over a root object's entries. The reader keeps one
/// entry per key, so the first match is the only one.
pub open spec fn json_lookup(
    entries: Seq<(Seq<char>, JsonNodeV)>,
    key: Seq<char>,
) -> Option<JsonNodeV>
    decreases entries.len(),
{
    if entries.len() == 0 {
        None
    } else if entries[0].0 == key {
        Some(entries[0].1)
    } else {
        json_lookup(entries.skip(1), key)
    }
}

/// Looks a key up among a root object's entries.
fn doc_get<'a>(entries: &'a Vec<(String, JsonNode)>, key: &str) -> (r: Option<&'a JsonNode>)
    ensures
        ({
            let view = entries@.map_values(|e: (String, JsonNode)| (e.0@, e.1@));
            match r {
                Some(n) => json_lookup(view, key@) == Some(n@),
                None => json_lookup(view, key@) is None,
            }
        }),
{
    let ghost view = entries@.map_values(|e: (String, JsonNode)| (e.0@, e.1@));
    let target = String::from_str(key);
    let n = entries.len();
    let mut i: usize = 0;
    proof {
        assert(view.skip(0) =~= view);
    }
    while i < n
        invariant
            n == entries@.len(),
            i <= n,
            view == entries@.map_values(|e: (String, JsonNode)| (e.0@, e.1@)),
            target@ == key@,
            json_lookup(view.skip(i as int), key@) == json_lookup(view, key@),
        decreases n - i,
    {
        proof {
            assert(view.skip(i as int)[0] == view[i as int]);
        }
        if entries[i].0 == target {
            return Some(&entries[i].1);
        }
        proof {
            assert(view.skip(i as int).skip(1) =~= view.skip(i as int + 1));
        }
        i = i + 1;
    }
    proof {
        assert(view.skip(n as int) =~= Seq::<(Seq<char>, JsonNodeV)>::empty());
    }
    None
}

/// The signed value a node yields when read as an integer: a signed
/// integer as it stands, an unsigned one when it fits.
pub open spec fn node_as_i64(n: JsonNodeV) -> Option<i64> {
    match n {
        JsonNodeV::Leaf(JsonLeafV::Int(i)) => Some(i),
        JsonNodeV::Leaf(JsonLeafV::UInt(u)) => if u <= i64::MAX {
            Some(u as i64)
        } else {
            None
        },
        _ => None,
    }
}

/// Reads a node as an integer.
fn read_i64(n: &JsonNode) -> (r: Option<i64>)
    ensures
        r == node_as_i64(n@),
{
    match n {
        JsonNode::Leaf(JsonLeaf::Int(i)) => Some(*i),
        JsonNode::Leaf(JsonLeaf::UInt(u)) => {
            if *u <= i64::MAX as u64 {
                Some(*u as i64)
            } else {
                None
            }
        },
        _ => None,
    }
}

/// The structured record read from a shard directory's configuration file.
#[derive(Clone, Debug, PartialEq)]
pub struct ShardConfig {
    /// The first entry of the configuration's architecture list.
    pub architecture_name: String,
    /// The architecture the name selects.
    pub architecture: ModelArchitecture,
    /// The declared beginning-of-sequence token id.
    pub bos_token_id: i64,
    /// The end-of-sequence token id, after the documented correction.
    pub eos_token_id: i64,
}

/// The architecture a configuration's name selects.
pub open spec fn spec_architecture_from_name(name: Seq<char>) -> ModelArchitecture {
    if name == "Gemma2ForCausalLM"@ {
        ModelArchitecture::Gemma
    } else if name == "LlamaForCausalLM"@ {
        ModelArchitecture::Llama
    } else if name == "MistralForCausalLM"@ {
        ModelArchitecture::Mistral
    } else if name == "Phi3ForCausalLM"@ {
        ModelArchitecture::Phi3
    } else if name == "Qwen2ForCausalLM"@ {
        ModelArchitecture::Qwen2
    } else {
        ModelArchitecture::Unsupported
    }
}

/// Maps a configuration's architecture name to the architecture it
/// selects; an unrecognized name is unsupported.
pub fn architecture_from_name(name: &String) -> (r: ModelArchitecture)
    ensures
        r == spec_architecture_from_name(name@),
{
    if *name == String::from_str("Gemma2ForCausalLM") {
        ModelArchitecture::Gemma
    } else if *name == String::from_str("LlamaForCausalLM") {
        ModelArchitecture::Llama
    } else if *name == String::from_str("MistralForCausalLM") {
        ModelArchitecture::Mistral
    } else if *name == String::from_str("Phi3ForCausalLM") {
        ModelArchitecture::Phi3
    } else if *name == String::from_str("Qwen2ForCausalLM") {
        ModelArchitecture::Qwen2
    } else {
        ModelArchitecture::Unsupported
    }
}

/// The end-of-sequence id after the documented correction for the `llama`
/// architecture in shard form: a declared id of 128001 under the
/// `LlamaForCausalLM` architecture is remapped to 128009; every other
/// declaration is kept as it stands.
pub open spec fn spec_fix_shard_eos(name: Seq<char>, eos: i64) -> i64 {
    if name == "LlamaForCausalLM"@ && eos == 128001 {
        128009
    } else {
        eos
    }
}

/// Applies the documented end-of-sequence correction for the shard form of
/// the `llama` architecture.
pub fn fix_shard_eos(name: &String, eos: i64) -> (r: i64)
    ensures
        r == spec_fix_shard_eos(name@, eos),
{
    if *name == String::from_str("LlamaForCausalLM") && eos == 128001 {
        128009
    } else {
        eos
    }
}

/// The first entry of a configuration's architecture list, when the list
/// is a non-empty array headed by a string.
pub open spec fn spec_arch_head(n: JsonNodeV) -> Option<Seq<char>> {
    match n {
        JsonNodeV::Array(items) => if items.len() > 0 {
            match items[0] {
                JsonLeafV::Text(s) => Some(s),
                _ => None,
            }
        } else {
            None
        },
        _ => None,
    }
}

/// Whether a parsed document carries everything a shard configuration
/// requires: a root object with integer beginning/end-of-sequence ids and
/// a non-empty architecture list headed by a string.
pub open spec fn spec_shard_config_ok(doc: JsonDocV) -> bool {
    match doc {
        JsonDocV::Object(fs) => {
            &&& (match json_lookup(fs, "bos_token_id"@) {
                Some(n) => node_as_i64(n) is Some,
                None => false,
            })
            &&& (match json_lookup(fs, "eos_token_id"@) {
                Some(n) => node_as_i64(n) is Some,
                None => false,
            })
            &&& (match json_lookup(fs, "architectures"@) {
                Some(n) => spec_arch_head(n) is Some,
                None => false,
            })
        },
        JsonDocV::Other => false,
    }
}

/// Interprets a shard directory's configuration document: the required
/// beginning/end-of-sequence ids and the architecture selected by the
/// first entry of the architecture list, with the documented
/// end-of-sequence correction applied. Succeeds exactly on the documents
/// [`spec_shard_config_ok`] admits; each missing or ill-typed piece is a
/// loader failure naming it, an unparsable document a serialization error.
pub fn parse_shard_config(config_text: &str) -> (r: Result<ShardConfig, CallmError>)
    ensures
        r is Ok <==> (json_of(config_text@) matches Some(d) && spec_shard_config_ok(d)),
        r matches Ok(c) ==> (json_of(config_text@) matches Some(JsonDocV::Object(fs)) && {
            &&& (json_lookup(fs, "bos_token_id"@) matches Some(n) && node_as_i64(n) == Some(
                c.bos_token_id,
            ))
            &&& (json_lookup(fs, "architectures"@) matches Some(an) && spec_arch_head(an)
                == Some(c.architecture_name@))
            &&& c.architecture == spec_architecture_from_name(c.architecture_name@)
            &&& (json_lookup(fs, "eos_token_id"@) matches Some(en) && node_as_i64(en) matches Some(
                e0,
            ) && c.eos_token_id == spec_fix_shard_eos(c.architecture_name@, e0))
        }),
        r matches Err(e) ==> {
            let doc = json_of(config_text@);
            &&& (doc is None ==> e is SerdeError)
            &&& (doc matches Some(JsonDocV::Other) ==> (e matches CallmError::LoaderFail(m) && m@
                == "Unknown model config format"@))
            &&& (doc matches Some(JsonDocV::Object(fs)) ==> {
                &&& (json_lookup(fs, "bos_token_id"@) is None ==> (e matches
                    CallmError::LoaderFail(m) && m@ == "Missing BOS token ID in model config"@))
                &&& ((json_lookup(fs, "bos_token_id"@) matches Some(n) && node_as_i64(n) is None)
                    ==> (e matches CallmError::LoaderFail(m) && m@
                    == "Model config BOS token ID is not an integer"@))
                &&& ((json_lookup(fs, "bos_token_id"@) matches Some(n) && node_as_i64(n) is Some
                    && json_lookup(fs, "eos_token_id"@) is None) ==> (e matches
                    CallmError::LoaderFail(m) && m@ == "Missing EOS token ID in model config"@))
                &&& ((json_lookup(fs, "bos_token_id"@) matches Some(n) && node_as_i64(n) is Some
                    && (json_lookup(fs, "eos_token_id"@) matches Some(en) && node_as_i64(en)
                    is None)) ==> (e matches CallmError::LoaderFail(m) && m@
                    == "Model config EOS token ID is not an integer"@))
            })
        },
{
    let doc = match json_parse_doc(config_text) {
        Ok(d) => d,
        Err(e) => {
            return Err(e);
        },
    };
    let fields = match &doc {
        JsonDoc::Object(fields) => fields,
        JsonDoc::Other => {
            return Err(CallmError::LoaderFail(String::from_str("Unknown model config format")));
        },
    };

    // Determine BOS token.
    let bos_token_id = match doc_get(fields, "bos_token_id") {
        None => {
            return Err(
                CallmError::LoaderFail(String::from_str("Missing BOS token ID in model config")),
            );
        },
        Some(n) => match read_i64(n) {
            None => {
                return Err(
                    CallmError::LoaderFail(
                        String::from_str("Model config BOS token ID is not an integer"),
                    ),
                );
            },
            Some(x) => x,
        },
    };

    // Determine EOS token.
    let eos_declared = match doc_get(fields, "eos_token_id") {
        None => {
            return Err(
                CallmError::LoaderFail(String::from_str("Missing EOS token ID in model config")),
            );
        },
        Some(n) => match read_i64(n) {
            None => {
                return Err(
                    CallmError::LoaderFail(
                        String::from_str("Model config EOS token ID is not an integer"),
                    ),
                );
            },
            Some(x) => x,
        },
    };

    // Determine model architecture from the first list entry.
    let architecture_name = match doc_get(fields, "architectures") {
        None => {
            return Err(
                CallmError::LoaderFail(String::from_str("Missing architecture in model config")),
            );
        },
        Some(n) => match n {
            JsonNode::Array(items) => {
                if items.len() == 0 {
                    return Err(
                        CallmError::LoaderFail(
                            String::from_str("Empty architectures array in model config"),
                        ),
                    );
                }
                match &items[0] {
                    JsonLeaf::Text(s) => s.clone(),
                    _ => {
                        return Err(
                            CallmError::LoaderFail(
                                String::from_str(
                                    "Model architecture in model config is not a string",
                                ),
                            ),
                        );
                    },
                }
            },
            _ => {
                return Err(
                    CallmError::LoaderFail(
                        String::from_str("Model config architectures is not an array"),
                    ),
                );
            },
        },
    };

    let architecture = architecture_from_name(&architecture_name);
    // Documented correction for a wrong end-of-sequence declaration; see
    // `fix_shard_eos`.
    let eos_token_id = fix_shard_eos(&architecture_name, eos_declared);

    Ok(ShardConfig { architecture_name, architecture, bos_token_id, eos_token_id })
}

/// The chat template a tokenizer-configuration document names, when the
/// document is an object whose `chat_template` is a string.
pub open spec fn spec_chat_template_of(doc: Option<JsonDocV>) -> Option<Seq<char>> {
    match doc {
        Some(JsonDocV::Object(fs)) => match json_lookup(fs, "chat_template"@) {
            Some(JsonNodeV::Leaf(JsonLeafV::Text(s))) => Some(s),
            _ => None,
        },
        _ => None,
    }
}

/// The chat template named by a tokenizer-configuration document. Reading
/// is lenient: any shape that does not match simply yields no template.
pub fn parse_chat_template(text: &str) -> (r: Option<String>)
    ensures
        match r {
            Some(s) => spec_chat_template_of(json_of(text@)) == Some(s@),
            None => spec_chat_template_of(json_of(text@)) is None,
        },
{
    let doc = match json_parse_doc(text) {
        Ok(d) => d,
        Err(_) => {
            return None;
        },
    };
    let fields = match &doc {
        JsonDoc::Object(fields) => fields,
        JsonDoc::Other => {
            return None;
        },
    };
    match doc_get(fields, "chat_template") {
        Some(n) => match n {
            JsonNode::Leaf(JsonLeaf::Text(s)) => Some(s.clone()),
            _ => None,
        },
        None => None,
    }
}

/// Whether some entry of `ss` has the text `s`.
pub open spec fn seq_contains_str(ss: Seq<Seq<char>>, s: Seq<char>) -> bool {
    exists|i: int| 0 <= i < ss.len() && ss[i] == s
}

/// The filenames in `entries`, kept in first-occurrence order with later
/// repetitions and non-string entries dropped; the prefix of length `n`.
pub open spec fn spec_collect_files(entries: Seq<Option<Seq<char>>>, n: int) -> Seq<Seq<char>>
    decreases n,
{
    if n <= 0 || n > entries.len() {
        Seq::<Seq<char>>::empty()
    } else {
        let rest = spec_collect_files(entries, n - 1);
        match entries[n - 1] {
            Some(s) => if seq_contains_str(rest, s) {
                rest
            } else {
                rest.push(s)
            },
            None => rest,
        }
    }
}

/// No two files of a deduplicated list share their text.
pub proof fn lemma_collect_files_unique(entries: Seq<Option<Seq<char>>>, n: int)
    ensures
        forall|i: int, j: int|
            0 <= i < j < spec_collect_files(entries, n).len() ==> spec_collect_files(
                entries,
                n,
            )[i] != spec_collect_files(entries, n)[j],
    decreases n,
{
    if n <= 0 || n > entries.len() {
    } else {
        lemma_collect_files_unique(entries, n - 1);
        let rest = spec_collect_files(entries, n - 1);
        match entries[n - 1] {
            Some(s) => {
                if !seq_contains_str(rest, s) {
                    assert forall|i: int, j: int|
                        0 <= i < j < rest.push(s).len() implies rest.push(s)[i] != rest.push(
                        s,
                    )[j] by {
                        if j < rest.len() {
                        } else {
                            assert(rest.push(s)[j] == s);
                            assert(rest.push(s)[i] == rest[i]);
                            assert(!seq_contains_str(rest, s));
                        }
                    }
                }
            },
            None => {},
        }
    }
}

/// Whether `v` holds an entry with the text of `s`.
fn vec_contains_string(v: &Vec<String>, s: &String) -> (r: bool)
    ensures
        r == seq_contains_str(crate::loaders::str_views(v@), s@),
{
    let ghost views = crate::loaders::str_views(v@);
    let mut i: usize = 0;
    while i < v.len()
        invariant
            views == crate::loaders::str_views(v@),
            views.len() == v@.len(),
            i <= v@.len(),
            forall|j: int| 0 <= j < i ==> views[j] != s@,
        decreases v@.len() - i,
    {
        proof {
            assert(views[i as int] == v@[i as int]@);
        }
        if v[i] == *s {
            return true;
        }
        i = i + 1;
    }
    false
}

/// The text of each entry's value, when the value is a string.
pub open spec fn leaf_text_options(ws: Seq<(Seq<char>, JsonLeafV)>) -> Seq<Option<Seq<char>>> {
    ws.map_values(
        |e: (Seq<char>, JsonLeafV)|
            match e.1 {
                JsonLeafV::Text(s) => Some(s),
                _ => None,
            },
    )
}

/// Deduplicates the weight filenames named by an index's weight map,
/// keeping first-occurrence order and dropping entries whose values are
/// not strings.
pub fn collect_index_files(entries: &Vec<(String, JsonLeaf)>) -> (r: Vec<String>)
    ensures
        ({
            let opts = leaf_text_options(
                entries@.map_values(|e: (String, JsonLeaf)| (e.0@, e.1@)),
            );
            crate::loaders::str_views(r@) == spec_collect_files(opts, opts.len() as int)
        }),
        forall|i: int, j: int| 0 <= i < j < r@.len() ==> r@[i]@ != r@[j]@,
{
    let ghost opts = leaf_text_options(entries@.map_values(|e: (String, JsonLeaf)| (e.0@, e.1@)));
    let mut files: Vec<String> = Vec::new();
    let mut i: usize = 0;
    while i < entries.len()
        invariant
            opts == leaf_text_options(entries@.map_values(|e: (String, JsonLeaf)| (e.0@, e.1@))),
            opts.len() == entries@.len(),
            i <= entries@.len(),
            crate::loaders::str_views(files@) == spec_collect_files(opts, i as int),
        decreases entries@.len() - i,
    {
        proof {
            assert(entries@.map_values(|e: (String, JsonLeaf)| (e.0@, e.1@))[i as int]
                == (entries@[i as int].0@, entries@[i as int].1@));
        }
        match &entries[i].1 {
            JsonLeaf::Text(name) => {
                proof {
                    assert(opts[i as int] == Some(name@));
                }
                if !vec_contains_string(&files, name) {
                    proof {
                        assert(crate::loaders::str_views(files@.push(*name))
                            =~= crate::loaders::str_views(files@).push(name@));
                    }
                    files.push(name.clone());
                } else {
                }
            },
            _ => {
                proof {
                    assert(opts[i as int] is None);
                }
            },
        }
        i = i + 1;
    }
    proof {
        lemma_collect_files_unique(opts, opts.len() as int);
        assert forall|i2: int, j2: int| 0 <= i2 < j2 < files@.len() implies files@[i2]@
            != files@[j2]@ by {
            assert(crate::loaders::str_views(files@)[i2] == files@[i2]@);
            assert(crate::loaders::str_views(files@)[j2] == files@[j2]@);
        }
    }
    files
}

/// The weight map a model-index document carries, when the document is an
/// object whose `weight_map` is itself an object.
pub open spec fn spec_weight_map_of(doc: JsonDocV) -> Option<Seq<(Seq<char>, JsonLeafV)>> {
    match doc {
        JsonDocV::Object(fs) => match json_lookup(fs, "weight_map"@) {
            Some(JsonNodeV::Object(ws)) => Some(ws),
            _ => None,
        },
        JsonDocV::Other => None,
    }
}

/// Reads a model-index document and returns the ordered, deduplicated list
/// of weight filenames its weight map names. Succeeds exactly when the
/// document is an object carrying an object weight map; anything else is
/// the index deserialization failing, an unparsable document a
/// serialization error.
pub fn read_model_index_json(text: &str) -> (r: Result<Vec<String>, CallmError>)
    ensures
        r is Ok <==> (json_of(text@) matches Some(d) && spec_weight_map_of(d) is Some),
        r matches Ok(v) ==> (json_of(text@) matches Some(d) && spec_weight_map_of(d) matches Some(
            ws,
        ) && crate::loaders::str_views(v@) == spec_collect_files(
            leaf_text_options(ws),
            ws.len() as int,
        ) && (forall|i: int, j: int| 0 <= i < j < v@.len() ==> v@[i]@ != v@[j]@)),
        r matches Err(e) ==> {
            &&& (json_of(text@) is None ==> e is SerdeError)
            &&& (json_of(text@) is Some ==> (e matches CallmError::LoaderFail(m) && m@
                == "Model index deserialization failure"@))
        },
{
    let doc = match json_parse_doc(text) {
        Ok(d) => d,
        Err(e) => {
            return Err(e);
        },
    };
    if let JsonDoc::Object(fields) = &doc {
        if let Some(n) = doc_get(fields, "weight_map") {
            if let JsonNode::Object(ws) = n {
                let files = collect_index_files(ws);
                return Ok(files);
            }
        }
    }
    Err(CallmError::LoaderFail(String::from_str("Model index deserialization failure")))
}

/// Resolves the chat template a shard directory selects: the structured
/// template bound to the side-car template string when one exists, the
/// pass-through fallback otherwise, with the special tokens the caller
/// resolved through the tokenizer injected.
pub fn shard_template(
    chat_template: Option<&String>,
    bos_text: Option<String>,
    eos_text: Option<String>,
) -> (r: Template)
    ensures
        match chat_template {
            Some(t) => r matches Template::Jinja(j) && j.spec_template() == t@
                && j.spec_add_generation_prompt(),
            None => r is Dummy,
        },
        r.spec_bos() == opt_view(bos_text),
        r.spec_eos() == opt_view(eos_text),
{
    let mut template = match chat_template {
        Some(template_string) => Template::Jinja(TemplateJinja::new(template_string.as_str())),
        None => Template::Dummy(TemplateDummy::new()),
    };
    template.set_bos_token(bos_text);
    template.set_eos_token(eos_text);
    template
}

} // verus!
