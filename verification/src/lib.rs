//! A language-identification service library.
//!
//! The service receives a request carrying a UTF-8 text, validates it, asks a
//! detector configured with a fixed candidate set of languages for the best
//! match, and builds a reply holding the detected language's canonical name or
//! the sentinel `"Unknown"`. An empty text is rejected with an
//! `InvalidArgument` status before the detector is ever consulted. The client
//! side contributes a pre-check of its own: empty caller input means no
//! request is issued at all.

pub mod client;
pub mod detector;
pub mod lang;
pub mod protocol;
pub mod service;
