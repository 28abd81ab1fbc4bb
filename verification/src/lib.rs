//! The conversation core of a single-user wellbeing assistant.
//!
//! The crate keeps one user's conversation with a text-based assistant,
//! derives a sticky crisis flag from what the user writes, builds the bounded
//! prompt that is sent to an inference endpoint, and decides what is made of
//! the endpoint's answer. It reads no file and opens no connection: a caller
//! loads and stores the profile, sends the request, and hands the library
//! plain values.
//!
//! - [`profile`]: the stored conversation and the operations on it.
//! - [`risk`]: the search for crisis terms in what the user wrote.
//! - [`context`]: the prompt, cut to the last messages of the history.
//! - [`gateway`]: the request to the endpoint and the steps of one exchange.
//! - [`mood`]: the mood tag at the head of a reply.
//! - [`clock`]: the time that messages are stamped with.
//! - [`text`]: comparisons of texts, character by character.

pub mod clock;
pub mod context;
pub mod gateway;
pub mod mood;
pub mod profile;
pub mod risk;
pub mod text;
