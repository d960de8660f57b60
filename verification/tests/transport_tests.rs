use rustmail::settings::build_smtp_config;
use rustmail::transport::select_transport;

fn s(v: &str) -> Option<String> {
    Some(v.to_owned())
}

#[test]
fn direct_transport_builds() {
    let c = build_smtp_config(s("localhost"), s("25"), None, None, None);
    assert!(!c.use_tls);
    assert!(select_transport(&c).is_ok());
}

#[test]
fn relay_transport_builds() {
    let c = build_smtp_config(s("smtp.example.com"), s("587"), None, None, None);
    assert!(c.use_tls);
    assert!(select_transport(&c).is_ok());
}

#[test]
fn relay_transport_builds_with_credentials() {
    let c = build_smtp_config(s("smtp.example.com"), s("465"), s("user"), s("pw"), None);
    assert!(c.use_tls);
    assert!(select_transport(&c).is_ok());
}
