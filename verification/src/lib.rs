//! Typed access to Kagi's official API and session-web surfaces, and the
//! decision logic of an MCP server built on them.

pub mod auth;
pub mod boundary;
pub mod client;
pub mod config;
pub mod error;
pub mod html;
pub mod json;
pub mod mcp;
pub mod official_api;
pub mod parsing;
pub mod routing;
pub mod session_web;
pub mod text;
pub mod transport;
pub mod weburl;
