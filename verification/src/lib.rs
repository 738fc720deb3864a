//! Multi-dialect function-call extraction and dispatch.
//!
//! Raw model output is scanned for a function-call intent in one of several
//! textual dialects, the intent is validated against a registry of named
//! capabilities, the matching capability is invoked, and the outcome (success
//! or any failure) is turned back into a conversational message.

pub mod advert;
pub mod chat;
pub mod error;
pub mod intent;
pub mod pipelines;
pub mod text;
pub mod tools;
