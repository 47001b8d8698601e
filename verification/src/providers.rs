//! Typed shapes of the provider back-ends' chat-completion responses,
//! and the extraction of the generated text from each.  Building the
//! provider-specific request payloads and carrying them over HTTP
//! happen outside the crate.

pub mod cohere;
pub mod openai;
