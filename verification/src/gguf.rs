//! The self-describing quantized container format.
//!
//! [`meta`] models the typed metadata values and the key/value map read from
//! a container file; [`parse`] holds the binary parser for the container's
//! signature, metadata section and tensor directory.

pub mod encode;
pub mod meta;
pub mod parse;

