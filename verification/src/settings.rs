//! Configuration value objects and their resolution from environment-sourced
//! strings, plus the common response structures.
//!
//! The caller reads the process environment and hands each variable in as an
//! `Option<String>`; resolution itself — defaults, numeric parsing, and the
//! TLS inference rule — is all here and fully specified.

use vstd::prelude::*;
use crate::parse::{parse_bool, parse_bool_spec, parse_u16, parse_u16_spec, parse_usize,
    parse_usize_spec};

verus! {

/// Server binding configuration: where the HTTP server listens and with how
/// many workers.
pub struct ServerBind {
    /// Bind address, e.g. `0.0.0.0`.
    pub addr: String,
    /// Listening port.
    pub port: u16,
    /// Number of worker threads.
    pub workers: usize,
}

/// SMTP server configuration: everything needed to connect and authenticate.
#[derive(Clone)]
pub struct SmtpConfig {
    /// SMTP server hostname or IP address.
    pub host: String,
    /// SMTP server port (typically 25, 587, or 465).
    pub port: u16,
    /// Optional authentication username.
    pub username: Option<String>,
    /// Optional authentication password.
    pub password: Option<String>,
    /// Whether to use TLS for a secure connection.
    pub use_tls: bool,
}

/// Response status, JSend style.
pub enum Status {
    /// Successful operation.
    Okay,
    /// Failed operation (client error).
    Fail,
    /// Error operation (server error).
    Error,
}

/// Uniform JSON-style response envelope.
pub struct RustMailRes {
    /// Outcome of the operation.
    pub status: Status,
    /// Human-readable description of the result.
    pub message: String,
}

/// The port a port variable resolves to: a parseable value wins, anything
/// else falls back to the default.
pub open spec fn resolved_port(port_env: Option<Seq<char>>, default: u16) -> u16 {
    match port_env {
        Some(s) => match parse_u16_spec(s) {
            Some(p) => p,
            None => default,
        },
        None => default,
    }
}

/// The worker count a workers variable resolves to.
pub open spec fn resolved_workers(workers_env: Option<Seq<char>>, default: usize) -> usize {
    match workers_env {
        Some(s) => match parse_usize_spec(s) {
            Some(w) => w,
            None => default,
        },
        None => default,
    }
}

/// The TLS inference rule: an explicit, well-formed boolean override wins;
/// otherwise TLS is on for every port except 25.
pub open spec fn resolved_use_tls(port: u16, tls_env: Option<Seq<char>>) -> bool {
    match tls_env {
        Some(s) => match parse_bool_spec(s) {
            Some(b) => b,
            None => port != 25,
        },
        None => port != 25,
    }
}

/// Resolve the server bind configuration from the environment values
/// `BIND_ADDR`, `BIND_PORT` and `BIND_WORKERS`; `default_workers` is the
/// detected hardware concurrency.
pub fn build_server_bind(
    addr: Option<String>,
    port: Option<String>,
    workers: Option<String>,
    default_workers: usize,
) -> (r: ServerBind)
    ensures
        r.addr@ == (match addr {
            Some(a) => a@,
            None => "0.0.0.0"@,
        }),
        r.port == resolved_port(port.deep_view(), 3333),
        r.workers == resolved_workers(workers.deep_view(), default_workers),
{
    let addr_v: String = match addr {
        Some(a) => a,
        None => "0.0.0.0".to_owned(),
    };
    let port_v: u16 = match &port {
        Some(s) => match parse_u16(s.as_str()) {
            Some(p) => p,
            None => 3333,
        },
        None => 3333,
    };
    let workers_v: usize = match &workers {
        Some(s) => match parse_usize(s.as_str()) {
            Some(w) => w,
            None => default_workers,
        },
        None => default_workers,
    };
    ServerBind { addr: addr_v, port: port_v, workers: workers_v }
}

/// Resolve the SMTP configuration from the environment values `SMTP_HOST`,
/// `SMTP_PORT`, `SMTP_USERNAME`, `SMTP_PASSWORD` and `SMTP_USE_TLS`.
pub fn build_smtp_config(
    host: Option<String>,
    port: Option<String>,
    username: Option<String>,
    password: Option<String>,
    use_tls: Option<String>,
) -> (r: SmtpConfig)
    ensures
        r.host@ == (match host {
            Some(h) => h@,
            None => "localhost"@,
        }),
        r.port == resolved_port(port.deep_view(), 25),
        r.username == username,
        r.password == password,
        r.use_tls == resolved_use_tls(r.port, use_tls.deep_view()),
{
    let host_v: String = match host {
        Some(h) => h,
        None => "localhost".to_owned(),
    };
    let port_v: u16 = match &port {
        Some(s) => match parse_u16(s.as_str()) {
            Some(p) => p,
            None => 25,
        },
        None => 25,
    };
    let use_tls_v: bool = match &use_tls {
        Some(s) => match parse_bool(s.as_str()) {
            Some(b) => b,
            None => port_v != 25,
        },
        None => port_v != 25,
    };
    SmtpConfig { host: host_v, port: port_v, username, password, use_tls: use_tls_v }
}

/// TLS inference law, default side: with `SMTP_USE_TLS` unset, `use_tls`
/// is true exactly when the resolved port is not 25; in particular it is
/// false when the port variable is unset or names port 25.
pub proof fn lemma_use_tls_default(port_env: Option<Seq<char>>)
    ensures
        resolved_use_tls(resolved_port(port_env, 25), None) == (resolved_port(port_env, 25)
            != 25),
        port_env is None ==> !resolved_use_tls(resolved_port(port_env, 25), None),
        (match port_env {
            Some(s) => parse_u16_spec(s) == Some(25u16),
            None => true,
        }) ==> !resolved_use_tls(resolved_port(port_env, 25), None),
{
}

/// TLS inference law, override side: an explicit well-formed `SMTP_USE_TLS`
/// wins over the port-based default, whatever the port.
pub proof fn lemma_use_tls_override(port: u16, tls: Seq<char>)
    ensures
        parse_bool_spec(tls) == Some(false) ==> !resolved_use_tls(port, Some(tls)),
        parse_bool_spec(tls) == Some(true) ==> resolved_use_tls(port, Some(tls)),
{
}

/// Uniform error envelope: any failure becomes HTTP 500 with its description.
pub fn json_error(message: String) -> (r: (u16, RustMailRes))
    ensures
        r.0 == 500,
        r.1.status is Error,
        r.1.message@ == message@,
{
    (500, RustMailRes { status: Status::Error, message })
}

} // verus!
