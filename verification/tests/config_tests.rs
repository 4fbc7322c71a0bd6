use proxy_utils::config::validate_config;
use proxy_utils::config::Config;

fn cfg(listen: &str, url: &str) -> Config {
    Config { listen: listen.to_string(), lmstudio_url: url.to_string() }
}

#[test]
fn valid_config_is_accepted() {
    assert!(validate_config(&cfg("127.0.0.1:8080", "http://localhost:1234")).is_ok());
    assert!(validate_config(&cfg("0.0.0.0:80", "https://example.com/v1")).is_ok());
}

#[test]
fn bad_listen_address_is_rejected_first() {
    let r = validate_config(&cfg("not-an-address", "http://localhost:1234"));
    assert_eq!(r.unwrap_err(), "Invalid listen address: not-an-address");
    let r = validate_config(&cfg("not-an-address", "ftp://host"));
    assert_eq!(r.unwrap_err(), "Invalid listen address: not-an-address");
}

#[test]
fn bad_scheme_is_rejected() {
    let r = validate_config(&cfg("127.0.0.1:8080", "ftp://host"));
    assert_eq!(
        r.unwrap_err(),
        "Invalid LM Studio URL (must start with http:// or https://): ftp://host"
    );
}

#[test]
fn unparsable_url_is_rejected() {
    let r = validate_config(&cfg("127.0.0.1:8080", "http://"));
    let msg = r.unwrap_err();
    assert!(msg.starts_with("Invalid LM Studio URL format: "));
}

#[test]
fn bracketed_listen_addresses_are_accepted() {
    assert!(validate_config(&cfg("[::1]:8080", "http://h")).is_ok());
    assert!(validate_config(&cfg("[::]:0", "http://h")).is_ok());
    assert!(validate_config(&cfg("[1:2:3:4:5:6:7:8]:80", "http://h")).is_ok());
    assert!(validate_config(&cfg("[fe80::1%25]:8080", "http://h")).is_ok());
    assert!(validate_config(&cfg("[::ffff:10.0.0.1]:443", "http://h")).is_ok());
    assert!(validate_config(&cfg("[2001:db8::8a2e:370:7334]:9000", "http://h")).is_ok());
}

#[test]
fn malformed_bracketed_addresses_are_rejected() {
    assert!(validate_config(&cfg("[1:2:3:4:5:6:7:8:9]:80", "http://h")).is_err());
    assert!(validate_config(&cfg("[1:2:3:4:5:6:7]:80", "http://h")).is_err());
    assert!(validate_config(&cfg("[1::2::3]:80", "http://h")).is_err());
    assert!(validate_config(&cfg("[:::1]:80", "http://h")).is_err());
    assert!(validate_config(&cfg("[12345::]:80", "http://h")).is_err());
    assert!(validate_config(&cfg("[::1]:65536", "http://h")).is_err());
    assert!(validate_config(&cfg("[::1]", "http://h")).is_err());
    assert!(validate_config(&cfg("[::1]:", "http://h")).is_err());
    assert!(validate_config(&cfg("[::g]:80", "http://h")).is_err());
    assert!(validate_config(&cfg("[fe80::1%eth0]:80", "http://h")).is_err());
    assert!(validate_config(&cfg("[fe80::1%4294967296]:80", "http://h")).is_err());
    assert!(validate_config(&cfg("::1:80", "http://h")).is_err());
}

#[test]
fn listen_octets_are_bounded() {
    assert!(validate_config(&cfg("255.255.255.255:65535", "http://h")).is_ok());
    assert!(validate_config(&cfg("256.1.1.1:80", "http://h")).is_err());
    assert!(validate_config(&cfg("1.2.3.4:65536", "http://h")).is_err());
    assert!(validate_config(&cfg("01.2.3.4:80", "http://h")).is_err());
    assert!(validate_config(&cfg("1.2.3.4:0080", "http://h")).is_ok());
    assert!(validate_config(&cfg("1.2.3:80", "http://h")).is_err());
    assert!(validate_config(&cfg("1.2.3.4.5:80", "http://h")).is_err());
    assert!(validate_config(&cfg("1.2.3.4:", "http://h")).is_err());
    assert!(validate_config(&cfg("1.2.3.4", "http://h")).is_err());
    assert!(validate_config(&cfg(" 1.2.3.4:80", "http://h")).is_err());
}
