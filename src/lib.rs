//! Composes a creature's description from a lookup service with a stylised
//! rewrite of it from a translation service.
//!
//! The network calls are made by the caller; this crate decides what each
//! upstream reply means, what to send next, and what the final answer is.

pub mod poke;
pub mod upstream;
pub mod shakespeare;
pub mod settings;
pub mod translation_service;
pub mod laws;
