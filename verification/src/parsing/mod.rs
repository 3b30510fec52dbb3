//! Parsers for the bodies Kagi answers with.

pub mod failure;
pub mod html_search;
pub mod summarize;
pub mod summary_stream;
