use zipsniper::proxy::proxy_protocol_validation;

#[test]
fn http_proxy_is_accepted_unchanged() {
    let r = proxy_protocol_validation("http://proxy.example:8080");
    assert_eq!(r.unwrap(), "http://proxy.example:8080");
}

#[test]
fn https_proxy_is_accepted() {
    let r = proxy_protocol_validation("https://proxy.example");
    assert_eq!(r.unwrap(), "https://proxy.example");
}

#[test]
fn socks5h_proxy_is_accepted() {
    let r = proxy_protocol_validation("socks5h://127.0.0.1:9050");
    assert_eq!(r.unwrap(), "socks5h://127.0.0.1:9050");
}

#[test]
fn unknown_scheme_is_rejected_with_message() {
    let r = proxy_protocol_validation("ftp://proxy.example");
    assert_eq!(r.unwrap_err(), "Invalid Proxy Scheme: ftp://proxy.example. Check --help");
}

#[test]
fn scheme_must_be_a_prefix() {
    let r = proxy_protocol_validation("see http:// docs");
    assert!(r.is_err());
}

#[test]
fn empty_address_is_rejected() {
    assert!(proxy_protocol_validation("").is_err());
}
