//! Glob patterns, the matchers compiled from them, JSON documents and
//! lists of strings.

pub mod glob_to_regex;
pub mod json;
pub mod matcher;
pub mod text;
