//! Data shape of an inbound send request.

use vstd::prelude::*;

verus! {

/// Email payload: the content and metadata of one message to send.
pub struct SendMailPayload {
    /// Sender address, e.g. `sender@example.com`.
    pub from: String,
    /// Recipient addresses.
    pub to: Vec<String>,
    /// Subject line.
    pub subject: String,
    /// Body text, either plain or base64-encoded.
    pub text: String,
    /// Encoding of `text`: `base64` is decoded, anything else is taken verbatim.
    pub encoding: String,
}

/// Top-level send request: wraps the payload under a `mail` key.
pub struct SendMailReq {
    /// The email payload.
    pub mail: SendMailPayload,
}

} // verus!
