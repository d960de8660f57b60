use rustmail::settings::{build_server_bind, build_smtp_config, json_error, Status};

fn s(v: &str) -> Option<String> {
    Some(v.to_owned())
}

#[test]
fn smtp_defaults_apply() {
    let c = build_smtp_config(None, None, None, None, None);
    assert_eq!(c.host, "localhost");
    assert_eq!(c.port, 25);
    assert_eq!(c.username, None);
    assert_eq!(c.password, None);
    assert!(!c.use_tls);
}

#[test]
fn use_tls_false_for_port_25() {
    let c = build_smtp_config(None, s("25"), None, None, None);
    assert!(!c.use_tls);
}

#[test]
fn use_tls_true_for_other_ports() {
    let c = build_smtp_config(None, s("587"), None, None, None);
    assert_eq!(c.port, 587);
    assert!(c.use_tls);
}

#[test]
fn explicit_use_tls_override_wins() {
    let c = build_smtp_config(None, s("587"), None, None, s("false"));
    assert_eq!(c.port, 587);
    assert!(!c.use_tls);
    let c = build_smtp_config(None, s("25"), None, None, s("true"));
    assert!(c.use_tls);
}

#[test]
fn malformed_use_tls_falls_back_to_inference() {
    let c = build_smtp_config(None, s("465"), None, None, s("yes"));
    assert!(c.use_tls);
    let c = build_smtp_config(None, s("25"), None, None, s("yes"));
    assert!(!c.use_tls);
}

#[test]
fn malformed_port_falls_back_to_default() {
    let c = build_smtp_config(None, s("not-a-port"), None, None, None);
    assert_eq!(c.port, 25);
    assert!(!c.use_tls);
    let c = build_smtp_config(None, s("70000"), None, None, None);
    assert_eq!(c.port, 25);
    let c = build_smtp_config(None, s("-1"), None, None, None);
    assert_eq!(c.port, 25);
    let c = build_smtp_config(None, s(""), None, None, None);
    assert_eq!(c.port, 25);
}

#[test]
fn signed_plus_port_parses_like_rust() {
    let c = build_smtp_config(None, s("+587"), None, None, None);
    assert_eq!(c.port, 587);
}

#[test]
fn credentials_pass_through() {
    let c = build_smtp_config(s("mail.example.com"), None, s("user"), s("pw"), None);
    assert_eq!(c.host, "mail.example.com");
    assert_eq!(c.username, Some("user".to_owned()));
    assert_eq!(c.password, Some("pw".to_owned()));
}

#[test]
fn server_bind_defaults_apply() {
    let b = build_server_bind(None, None, None, 8);
    assert_eq!(b.addr, "0.0.0.0");
    assert_eq!(b.port, 3333);
    assert_eq!(b.workers, 8);
}

#[test]
fn server_bind_env_values_win() {
    let b = build_server_bind(s("127.0.0.1"), s("8080"), s("4"), 8);
    assert_eq!(b.addr, "127.0.0.1");
    assert_eq!(b.port, 8080);
    assert_eq!(b.workers, 4);
}

#[test]
fn server_bind_malformed_values_fall_back() {
    let b = build_server_bind(None, s("eighty"), s("many"), 2);
    assert_eq!(b.port, 3333);
    assert_eq!(b.workers, 2);
}

#[test]
fn json_error_is_500_with_detail() {
    let (code, res) = json_error("something broke".to_owned());
    assert_eq!(code, 500);
    assert!(matches!(res.status, Status::Error));
    assert_eq!(res.message, "something broke");
}
