//! What is sent beside a request and read beside an answer: credentials,
//! addresses and headers.

pub mod anthropic;
pub mod auth;
pub mod client;
pub mod gemini;
pub mod laws;
pub mod preamble;
pub mod request;
