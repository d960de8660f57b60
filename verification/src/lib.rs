//! Core logic of a small HTTP-to-SMTP mail relay.
//!
//! The library validates an inbound send request, decodes its text, builds an
//! outbound message, selects an SMTP transport from configuration, and maps
//! every outcome to a uniform JSON-style response envelope.

pub mod address;
pub mod codec;
pub mod dto;
pub mod errors;
pub mod message;
pub mod parse;
pub mod respond;
pub mod settings;
pub mod transport;
