//! A line-oriented text search engine.
//!
//! Given a pattern and a body of text, the library returns every line of the
//! text that contains a match, optionally wrapping each matched span with
//! visual highlight markers. The pattern is interpreted as a regular
//! expression when it compiles as one; otherwise matching falls back to
//! literal substring containment. A case-sensitivity flag controls whether
//! letters are folded before comparison.

pub mod config;
pub mod fold;
pub mod highlight;
pub mod laws;
pub mod lines;
pub mod literal;
pub mod rx;
pub mod search;

pub use crate::config::Config;
pub use crate::lines::split_lines;
pub use crate::search::Matcher;
pub use crate::search::search_regex;
