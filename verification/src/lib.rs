//! A JSON-RPC tool server that exposes Google Gemini's image generation as a
//! single callable tool, with the request validation, model allow-list rules,
//! protocol dispatch and response extraction verified.

use vstd::prelude::*;

pub mod config;
pub mod gemini;
pub mod handlers;
pub mod generate_image;
pub mod image_generation;
pub mod json;
pub mod mcp_server;
pub mod mcp_types;
pub mod models;
pub mod text;

verus! {

/// Hard default for the Gemini model name, used when no configured default is
/// supplied.
pub const DEFAULT_MODEL_NAME: &'static str = "gemini-2.5-flash-image";

} // verus!
