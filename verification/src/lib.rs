//! The decision core of a support chatbot: event ingestion with a cursor,
//! conversation identity, bounded context, tiered model invocation and
//! structured actions. Everything here computes over plain values; talking
//! to platforms, providers and disks is the caller's business.

pub mod actions;
pub mod database;
pub mod email;
pub mod json;
pub mod learn;
pub mod openai;
pub mod queue;
pub mod responder;
pub mod telegram;
pub mod text;
