use base64::Engine;
use rustmail::dto::SendMailPayload;
use rustmail::errors::ValidationError;
use rustmail::message::{build, build_with_base64_text};

fn payload(from: &str, to: Vec<&str>, subject: &str, text: &str, encoding: &str) -> SendMailPayload {
    SendMailPayload {
        from: from.to_owned(),
        to: to.into_iter().map(|s| s.to_owned()).collect(),
        subject: subject.to_owned(),
        text: text.to_owned(),
        encoding: encoding.to_owned(),
    }
}

#[test]
fn build_plain_text_is_verbatim() {
    let r = build(payload("a@x.com", vec!["b@y.com"], "Hi", "hello there", "plain"));
    let m = r.unwrap();
    assert_eq!(m.body, "hello there");
    assert_eq!(m.from, "a@x.com");
    assert_eq!(m.to, vec!["b@y.com".to_owned()]);
    assert_eq!(m.subject, "Hi");
}

#[test]
fn build_base64_decodes_body() {
    let r = build(payload("a@x.com", vec!["b@y.com", "c@z.com"], "Hi", "aGVsbG8=", "base64"));
    let m = r.unwrap();
    assert_eq!(m.body, "hello");
    assert_eq!(m.to, vec!["b@y.com".to_owned(), "c@z.com".to_owned()]);
}

#[test]
fn build_unrecognized_encoding_is_verbatim() {
    let r = build(payload("a@x.com", vec!["b@y.com"], "Hi", "aGVsbG8=", "weird"));
    let m = r.unwrap();
    assert_eq!(m.body, "aGVsbG8=");
}

#[test]
fn build_rejects_non_base64_text() {
    let r = build(payload("a@x.com", vec!["b@y.com"], "Hi", "not base64 !!!", "base64"));
    assert!(matches!(r, Err(ValidationError::Encoding(_))));
}

#[test]
fn build_rejects_non_utf8_decoded_bytes() {
    let text = base64::prelude::BASE64_STANDARD.encode([0xffu8, 0xfe, 0xfd]);
    let r = build(payload("a@x.com", vec!["b@y.com"], "Hi", &text, "base64"));
    assert!(matches!(r, Err(ValidationError::Encoding(_))));
}

#[test]
fn build_rejects_bad_sender() {
    let r = build(payload("not-an-email", vec!["b@y.com"], "Hi", "x", "plain"));
    match r {
        Err(ValidationError::Address(detail)) => {
            let expected = "not-an-email"
                .parse::<lettre::message::Mailbox>()
                .unwrap_err()
                .to_string();
            assert_eq!(detail, expected);
        },
        _ => panic!("expected an address error"),
    }
}

#[test]
fn build_rejects_bad_recipient() {
    let r = build(payload("a@x.com", vec!["b@y.com", "nope"], "Hi", "x", "plain"));
    assert!(matches!(r, Err(ValidationError::Address(_))));
}

#[test]
fn build_checks_encoding_before_addresses() {
    let r = build(payload("not-an-email", vec!["nope"], "Hi", "!!!", "base64"));
    assert!(matches!(r, Err(ValidationError::Encoding(_))));
}

#[test]
fn build_with_no_recipients_is_message_build_error() {
    let r = build(payload("a@x.com", vec![], "Hi", "x", "plain"));
    match r {
        Err(ValidationError::MessageBuild(detail)) => {
            assert_eq!(detail, "missing destination address, invalid envelope");
        },
        _ => panic!("expected a message-build error"),
    }
}

#[test]
fn built_message_carries_decoded_body() {
    let r = build(payload("a@x.com", vec!["b@y.com"], "Hi", "aGVsbG8=", "base64"));
    let m = r.unwrap();
    let formatted = String::from_utf8(m.message.formatted()).unwrap();
    assert!(formatted.contains("hello"));
    assert!(formatted.contains("To: b@y.com"));
}

#[test]
fn base64_round_trip_restores_text() {
    let r = build_with_base64_text(
        "a@x.com".to_owned(),
        vec!["b@y.com".to_owned()],
        "Hi".to_owned(),
        "some plain text, with punctuation & unicode: Grüße".to_owned(),
    );
    let m = r.unwrap();
    assert_eq!(m.body, "some plain text, with punctuation & unicode: Grüße");
}

#[test]
fn base64_round_trip_never_fails_encoding() {
    let r = build_with_base64_text(
        "not-an-email".to_owned(),
        vec!["b@y.com".to_owned()],
        "Hi".to_owned(),
        "anything".to_owned(),
    );
    assert!(matches!(r, Err(ValidationError::Address(_))));
}
