//! Requests in the form that each protocol sends.

pub mod anthropic;
pub mod body;
pub mod chat;
pub mod gemini;
pub mod laws;
pub mod responses;
