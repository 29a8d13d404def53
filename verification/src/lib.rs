//! Provider-neutral core of a coding agent: request translation, stream
//! assembly and progress tracking, each with a proved contract.

pub mod text;
pub mod json;
pub mod codec;
pub mod models;
pub mod tool_name;
pub mod progress;
pub mod events;
pub mod sse;
pub mod wire;
pub mod unified;
pub mod headers;
pub mod adapters;
pub mod endpoint;
pub mod retry;
pub mod model_provider_resolver;
pub mod models_manager;
pub mod model_instructions;
pub mod rollout_budget;
pub mod connectors;
pub mod tool_spec;
pub mod tool_catalog;
pub mod tool_laws;
pub mod turn;
