//! Error taxonomy: validation, transport selection, and delivery failures.
//!
//! Every variant carries the human-readable detail that the response mapper
//! surfaces to the caller.

use vstd::prelude::*;

verus! {

/// Why building the outbound message failed.
#[derive(Debug)]
pub enum ValidationError {
    /// An address in `from` or `to` did not parse as a mailbox.
    Address(String),
    /// The text could not be decoded per its declared encoding.
    Encoding(String),
    /// The message library refused the assembled message.
    MessageBuild(String),
}

/// Why constructing the delivery channel failed.
#[derive(Debug)]
pub enum TransportError {
    /// The host could not be used as a TLS relay target.
    InvalidHost(String),
}

/// Why dispatching the built message failed.
#[derive(Debug)]
pub enum DeliveryError {
    /// The SMTP server or the network rejected the send.
    Smtp(String),
}

impl ValidationError {
    /// The detail text this error carries.
    pub open spec fn detail(self) -> Seq<char> {
        match self {
            ValidationError::Address(d) => d@,
            ValidationError::Encoding(d) => d@,
            ValidationError::MessageBuild(d) => d@,
        }
    }

    /// Hand out the detail text for the response envelope.
    pub fn message(self) -> (r: String)
        ensures
            r@ == self.detail(),
    {
        match self {
            ValidationError::Address(d) => d,
            ValidationError::Encoding(d) => d,
            ValidationError::MessageBuild(d) => d,
        }
    }
}

impl TransportError {
    /// The detail text this error carries.
    pub open spec fn detail(self) -> Seq<char> {
        match self {
            TransportError::InvalidHost(d) => d@,
        }
    }

    /// Hand out the detail text for the response envelope.
    pub fn message(self) -> (r: String)
        ensures
            r@ == self.detail(),
    {
        match self {
            TransportError::InvalidHost(d) => d,
        }
    }
}

impl DeliveryError {
    /// The detail text this error carries.
    pub open spec fn detail(self) -> Seq<char> {
        match self {
            DeliveryError::Smtp(d) => d@,
        }
    }

    /// Hand out the detail text for the response envelope.
    pub fn message(self) -> (r: String)
        ensures
            r@ == self.detail(),
    {
        match self {
            DeliveryError::Smtp(d) => d,
        }
    }
}

} // verus!
