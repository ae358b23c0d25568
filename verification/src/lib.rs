//! Consolidates a multi-module, multi-crate source project into a single
//! self-contained tree of declarations: file-backed module declarations are
//! resolved to files and spliced inline, self-relative paths are rewritten so
//! they stay valid inside the merged tree, external-dependency declarations
//! are elided, and every dependency crate is wrapped in a namespace module of
//! its own.

pub mod error;
pub mod expand;
pub mod merge;
pub mod resolve;
pub mod rewrite;
pub mod tree;
