//! Resolves a short query into the URL of a search provider and chooses the
//! browser that opens it.

pub mod cli;
pub mod config;
pub mod escape;
pub mod exec;
pub mod template;
pub mod text;
