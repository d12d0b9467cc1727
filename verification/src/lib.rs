//! Lossless YAML inspection and editing, as the tools a Model Context
//! Protocol server exposes: reading and rewriting a value at a
//! dotted/indexed path, parsing, editing and validating YAML text, the
//! prompt that teaches the workflow, and the resources that describe it.

pub mod text;
pub mod json;
pub mod prompts;
pub mod tools;
pub mod server;
pub mod resources;
pub mod cst;
