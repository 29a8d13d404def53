//! Between the neutral form of requests and the form of each protocol.

pub mod anthropic;
pub mod anthropic_laws;
pub mod chat;
pub mod chat_laws;
pub mod common;
pub mod gemini;
pub mod gemini_laws;
pub mod gemini_schema;
pub mod gemini_schema_laws;
pub mod responses;
