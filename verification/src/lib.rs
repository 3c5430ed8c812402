//! Declarative OpenAPI code-generation core: type mapping, template-pack
//! manifests and the data that templates are rendered from.

pub mod cli;
pub mod config;
pub mod context;
pub mod dedup;
pub mod engine;
pub mod ir;
pub mod json;
pub mod laws;
pub mod generate;
pub mod github;
pub mod named_map;
pub mod pack;
pub mod render;
pub mod resolve;
pub mod seqs;
pub mod sse_detector;
pub mod text;
pub mod type_map;
