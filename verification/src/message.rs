//! The message builder: validates a payload, decodes its text, and assembles
//! the outbound message through the mail library.

use vstd::prelude::*;
use vstd::utf8::{decode_utf8, valid_utf8};
use crate::dto::SendMailPayload;
use crate::errors::ValidationError;
use crate::address::{is_mailbox, parse_mailbox};
use crate::codec::{b64_decode, b64_decoded, b64_encode, utf8_decode};
use crate::parse::str_eq;

verus! {

broadcast use vstd::utf8::encode_utf8_valid_utf8, vstd::utf8::encode_utf8_decode_utf8;

#[verifier::external_type_specification]
#[verifier::external_body]
pub struct ExMessage(lettre::Message);

#[verifier::external_type_specification]
#[verifier::external_body]
pub struct ExMessageBuilder(lettre::message::MessageBuilder);

/// Relies on `lettre::Message::builder`: starts an empty message builder.
#[verifier::external_body]
fn new_builder() -> (r: lettre::message::MessageBuilder) {
    lettre::Message::builder()
}

/// Relies on `MessageBuilder::from`: records the sender mailbox.
#[verifier::external_body]
fn builder_from(
    b: lettre::message::MessageBuilder,
    m: lettre::message::Mailbox,
) -> (r: lettre::message::MessageBuilder) {
    b.from(m)
}

/// Relies on `MessageBuilder::subject`: records the subject line.
#[verifier::external_body]
fn builder_subject(
    b: lettre::message::MessageBuilder,
    subject: String,
) -> (r: lettre::message::MessageBuilder) {
    b.subject(subject)
}

/// Relies on `MessageBuilder::to`: appends one recipient mailbox.
#[verifier::external_body]
fn builder_to(
    b: lettre::message::MessageBuilder,
    m: lettre::message::Mailbox,
) -> (r: lettre::message::MessageBuilder) {
    b.to(m)
}

/// Relies on `MessageBuilder::body`: assembles the message around the given
/// text body, or reports why the message cannot be formed.
#[verifier::external_body]
fn builder_body(
    b: lettre::message::MessageBuilder,
    text: String,
) -> (r: Result<lettre::Message, String>) {
    b.body(text).map_err(|e| e.to_string())
}

/// The canonical outbound form: the assembled message of the mail library
/// together with the plain values it was built from.
pub struct OutboundMessage {
    /// The assembled message, handed to the transport as-is.
    pub message: lettre::Message,
    /// Validated sender address.
    pub from: String,
    /// Validated recipient addresses, order preserved.
    pub to: Vec<String>,
    /// Subject line.
    pub subject: String,
    /// Resolved body text.
    pub body: String,
}

/// Every recipient in the list is a syntactically valid mailbox.
pub open spec fn all_recipients_valid(to: Seq<Seq<char>>) -> bool {
    forall|i: int| 0 <= i < to.len() ==> is_mailbox(to[i])
}

impl OutboundMessage {
    /// Well-formedness: sender and every recipient were validated.
    pub open spec fn wf(self) -> bool {
        is_mailbox(self.from@) && all_recipients_valid(self.to.deep_view())
    }
}

/// The body text a payload resolves to: base64 is decoded and read as UTF-8;
/// any other encoding value takes the text verbatim, without rejection.
pub open spec fn resolved_text(p: SendMailPayload) -> Option<Seq<char>> {
    if p.encoding@ == "base64"@ {
        match b64_decoded(p.text@) {
            Some(bytes) => if valid_utf8(bytes) {
                Some(decode_utf8(bytes))
            } else {
                None
            },
            None => None,
        }
    } else {
        Some(p.text@)
    }
}

/// Validate a payload and assemble the outbound message: decode the text per
/// its declared encoding, parse the sender, then every recipient in order,
/// and hand the parts to the mail library's builder. Failure at any step
/// discards all work; nothing is sent here.
#[verifier::loop_isolation(false)]
pub fn build(payload: SendMailPayload) -> (r: Result<OutboundMessage, ValidationError>)
    ensures
        r is Ok ==> ({
            &&& resolved_text(payload) == Some(r->Ok_0.body@)
            &&& r->Ok_0.from@ == payload.from@
            &&& r->Ok_0.to.deep_view() == payload.to.deep_view()
            &&& r->Ok_0.subject@ == payload.subject@
            &&& r->Ok_0.wf()
        }),
        (r is Err && r->Err_0 is Encoding) <==> resolved_text(payload) is None,
        (r is Err && r->Err_0 is Address) <==> (resolved_text(payload) is Some && !(is_mailbox(
            payload.from@,
        ) && all_recipients_valid(payload.to.deep_view()))),
        r is Err && r->Err_0 is MessageBuild ==> resolved_text(payload) is Some && is_mailbox(
            payload.from@,
        ) && all_recipients_valid(payload.to.deep_view()),
{
    let SendMailPayload { from, to, subject, text: raw, encoding } = payload;
    let text: String;
    if str_eq(encoding.as_str(), "base64") {
        let bytes = match b64_decode(raw.as_str()) {
            Ok(b) => b,
            Err(d) => {
                return Err(ValidationError::Encoding(d));
            },
        };
        text = match utf8_decode(bytes) {
            Ok(t) => t,
            Err(d) => {
                return Err(ValidationError::Encoding(d));
            },
        };
    } else {
        text = raw;
    }
    let from_mb = match parse_mailbox(from.as_str()) {
        Ok(m) => m,
        Err(d) => {
            return Err(ValidationError::Address(d));
        },
    };
    let mut to_mbs: Vec<lettre::message::Mailbox> = Vec::new();
    let mut i: usize = 0;
    while i < to.len()
        invariant
            i <= to.len(),
            forall|j: int| 0 <= j < i ==> is_mailbox(to.deep_view()[j]),
        decreases to.len() - i,
    {
        let mb = match parse_mailbox(to[i].as_str()) {
            Ok(m) => m,
            Err(d) => {
                proof {
                    assert(to.deep_view()[i as int] == to@[i as int]@);
                    assert(!is_mailbox(to.deep_view()[i as int]));
                }
                return Err(ValidationError::Address(d));
            },
        };
        to_mbs.push(mb);
        i = i + 1;
    }
    let mut b = new_builder();
    b = builder_from(b, from_mb);
    b = builder_subject(b, subject.clone());
    while to_mbs.len() > 0
        decreases to_mbs.len(),
    {
        let mb = to_mbs.remove(0);
        b = builder_to(b, mb);
    }
    let email = match builder_body(b, text.clone()) {
        Ok(m) => m,
        Err(d) => {
            return Err(ValidationError::MessageBuild(d));
        },
    };
    Ok(OutboundMessage { message: email, from, to, subject, body: text })
}

/// Round-trip law: a payload that carries `text` base64-encoded and declares
/// `base64` encoding builds to that very text as its body; in particular the
/// encoding step can never be the reason such a build fails.
pub fn build_with_base64_text(
    from: String,
    to: Vec<String>,
    subject: String,
    text: String,
) -> (r: Result<OutboundMessage, ValidationError>)
    ensures
        r is Ok ==> r->Ok_0.body@ == text@ && r->Ok_0.wf(),
        !(r is Err && r->Err_0 is Encoding),
        (r is Err && r->Err_0 is Address) <==> !(is_mailbox(from@) && all_recipients_valid(
            to.deep_view(),
        )),
{
    let encoded = b64_encode(text.as_str().as_bytes());
    let payload = SendMailPayload {
        from,
        to,
        subject,
        text: encoded,
        encoding: "base64".to_owned(),
    };
    build(payload)
}

} // verus!
