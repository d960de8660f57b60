//! The transport selector: builds a delivery channel from SMTP
//! configuration, without touching the network.

use vstd::prelude::*;
use crate::errors::TransportError;
use crate::settings::SmtpConfig;

verus! {

#[verifier::external_type_specification]
#[verifier::external_body]
pub struct ExSmtpTransport(lettre::SmtpTransport);

#[verifier::external_type_specification]
#[verifier::external_body]
pub struct ExSmtpTransportBuilder(lettre::transport::smtp::SmtpTransportBuilder);

#[verifier::external_type_specification]
#[verifier::external_body]
pub struct ExCredentials(lettre::transport::smtp::authentication::Credentials);

/// Whether a host string is usable as a TLS relay target: names the success
/// of the mail library's relay constructor.
pub uninterp spec fn is_relay_host(s: Seq<char>) -> bool;

/// Relies on `lettre::SmtpTransport::relay`: it only builds TLS parameters
/// around the host string and touches no network, so whether it succeeds
/// depends on the host string alone.
#[verifier::external_body]
fn relay_builder(host: &str) -> (r: Result<lettre::transport::smtp::SmtpTransportBuilder, String>)
    ensures
        r is Ok <==> is_relay_host(host@),
{
    lettre::SmtpTransport::relay(host).map_err(|e| e.to_string())
}

/// Relies on `lettre::SmtpTransport::builder_dangerous`: direct unencrypted
/// construction, which cannot fail.
#[verifier::external_body]
fn direct_builder(host: &str) -> (r: lettre::transport::smtp::SmtpTransportBuilder) {
    lettre::SmtpTransport::builder_dangerous(host)
}

/// Relies on `SmtpTransportBuilder::port`: overrides the port to connect to.
#[verifier::external_body]
fn builder_port(
    b: lettre::transport::smtp::SmtpTransportBuilder,
    port: u16,
) -> (r: lettre::transport::smtp::SmtpTransportBuilder) {
    b.port(port)
}

/// Relies on `Credentials::new`: packs a username and password pair.
#[verifier::external_body]
fn credentials_new(
    username: String,
    password: String,
) -> (r: lettre::transport::smtp::authentication::Credentials) {
    lettre::transport::smtp::authentication::Credentials::new(username, password)
}

/// Relies on `SmtpTransportBuilder::credentials`: attaches authentication.
#[verifier::external_body]
fn builder_credentials(
    b: lettre::transport::smtp::SmtpTransportBuilder,
    c: lettre::transport::smtp::authentication::Credentials,
) -> (r: lettre::transport::smtp::SmtpTransportBuilder) {
    b.credentials(c)
}

/// Relies on `SmtpTransportBuilder::build`: finishes the transport; the
/// connection itself is opened lazily, on send.
#[verifier::external_body]
fn transport_build(b: lettre::transport::smtp::SmtpTransportBuilder) -> (r: lettre::SmtpTransport) {
    b.build()
}

/// Construct the delivery channel for a configuration: relay mode when TLS
/// is on, direct unencrypted mode otherwise, with credentials attached only
/// when both username and password are present. Pure construction: nothing
/// connects until the send. Construction fails only in relay mode, on a host
/// that cannot be a relay target.
pub fn select_transport(config: &SmtpConfig) -> (r: Result<lettre::SmtpTransport, TransportError>)
    ensures
        r is Ok <==> (config.use_tls ==> is_relay_host(config.host@)),
        r is Err ==> r->Err_0 is InvalidHost,
{
    if config.use_tls {
        let b = match relay_builder(config.host.as_str()) {
            Ok(b) => b,
            Err(d) => {
                return Err(TransportError::InvalidHost(d));
            },
        };
        let b = builder_port(b, config.port);
        let b = match (&config.username, &config.password) {
            (Some(u), Some(p)) => builder_credentials(b, credentials_new(u.clone(), p.clone())),
            _ => b,
        };
        Ok(transport_build(b))
    } else {
        let b = direct_builder(config.host.as_str());
        let b = builder_port(b, config.port);
        let b = match (&config.username, &config.password) {
            (Some(u), Some(p)) => builder_credentials(b, credentials_new(u.clone(), p.clone())),
            _ => b,
        };
        Ok(transport_build(b))
    }
}

} // verus!
