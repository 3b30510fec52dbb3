//! The decisions of the MCP server that exposes Kagi as two tools,
//! `kagi_search` and `kagi_summarize`: which backend runs, what its input may
//! be, how answers are normalized and how failures are told to the caller.

pub mod backend;
pub mod error;
pub mod normalize;
pub mod schema;
