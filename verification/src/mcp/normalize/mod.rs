//! Normalization of backend answers into the tools' output shapes.

pub mod official;
pub mod session;
