//! A small client library for a hosted text-completion service.
//!
//! The library builds the prompt and the JSON request body for a single
//! completion call, and decides the outcome of the call from the transport
//! and parse results. Everything here is pure: the HTTP exchange itself is
//! left to the surrounding application, which hands back plain values.

pub mod encode;
pub mod errors;
pub mod outcome;
pub mod prompt;
pub mod request;
pub mod response;

pub use errors::DavinciError;
pub use outcome::{settle, FetchOutcome};
pub use prompt::{bearer_header, build_prompt};
pub use request::CompletionRequest;
pub use response::{first_choice_text, Choice, CompletionResponse, Usage};
