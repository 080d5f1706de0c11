//! Link-shared webhook handling: identifier extraction, event classification
//! and unfurl message construction.

pub mod classify;
pub mod decimal;
pub mod http;
pub mod ids;
pub mod json;
pub mod orchestrator;
pub mod slack;
pub mod text;
pub mod unfurl;
