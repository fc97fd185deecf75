//! An automated email-triage library: it extracts the plain-text body from
//! a MIME part tree, resolves reply recipients, composes transport-ready
//! draft replies, classifies model verdicts, and drives the whole triage
//! pipeline as a verified state machine.  The outside calls (mailbox, file
//! storage, language model) are performed by a thin host layer that feeds
//! their results back to the state machine as events.

pub mod b64;
pub mod classify;
pub mod drive_query;
pub mod extract;
pub mod gemini;
pub mod mime;
pub mod models;
pub mod orchestrate;
pub mod prompts;
pub mod recipients;
pub mod strutil;
