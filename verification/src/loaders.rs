//! Loaders for the two on-disk model formats.
//!
//! Each loader turns what was read from disk into the library's records: the
//! quantized-container loader interprets the container's metadata map, the
//! directory/shard loader interprets the JSON side-car configuration. The
//! reading itself (files, directories) happens outside the library; the
//! interpretation here is where every decision is made.

pub mod gguf;
pub mod safetensors;

use vstd::prelude::*;

verus! {

/// The character views of a sequence of strings.
pub open spec fn str_views(ss: Seq<String>) -> Seq<Seq<char>> {
    ss.map_values(|s: String| s@)
}

/// The character view of an optional string.
pub open spec fn opt_view(o: Option<String>) -> Option<Seq<char>> {
    match o {
        Some(s) => Some(s@),
        None => None,
    }
}

} // verus!
