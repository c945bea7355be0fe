//! Verified core of a document-analysis pipeline.
//!
//! The pipeline takes a document's extracted text, combines it with a
//! document-type-specific instruction template, sends the combined prompt to a
//! remote completion API, and returns the structured reply. All decisions —
//! credential checking, template selection, prompt and request-body assembly,
//! status handling, envelope unwrapping and result validation — live here as
//! verified functions; the surrounding program performs the subprocess and
//! network work and feeds the outcomes back in as events.

pub mod bindings;
pub mod decimal;
pub mod errors;
pub mod pipeline;
pub mod prompt;
pub mod reply;
