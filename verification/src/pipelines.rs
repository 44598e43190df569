//! Generation pipelines.

pub mod text;
