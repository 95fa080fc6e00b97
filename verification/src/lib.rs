//! Resolution of user- and configuration-supplied logging destinations.
//!
//! Raw destination strings (possibly carrying a `{datetime}` token) are
//! turned into canonical absolute paths, deduplicated across their sources,
//! and used to plan a multi-sink logging pipeline: one console sink plus one
//! file sink per resolved destination, with a console-only fallback when
//! assembly fails.
//!
//! All decisions are made here; the filesystem probes, directory creation,
//! canonicalization and sink installation that the decisions call for are
//! carried out by the embedding binary, which feeds the answers back in.

pub mod aggregate;
pub mod error;
pub mod normalize;
pub mod pathstr;
pub mod sink;
pub mod timestamp;
pub mod validate;
