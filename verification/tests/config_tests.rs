use retro_shell::config::{
    make_target_url, parse_port, resolved_host, resolved_interpreter, resolved_port,
    u16_to_string, ServerConfig, DEFAULT_PORT,
};

#[test]
fn default_configuration_yields_loopback_url() {
    let host = resolved_host(None);
    let port = resolved_port(None);
    assert_eq!(host, "127.0.0.1");
    assert_eq!(port, 5000);
    let cfg = ServerConfig::new(host, port);
    assert_eq!(cfg.get_backend_url(), "http://127.0.0.1:5000/");
}

#[test]
fn target_url_is_scheme_host_port_slash() {
    assert_eq!(make_target_url("example.com", 8080), "http://example.com:8080/");
    assert_eq!(make_target_url("::1", 1), "http://::1:1/");
    let cfg = ServerConfig::new(String::from("10.0.0.7"), 65535);
    assert_eq!(cfg.get_backend_url(), "http://10.0.0.7:65535/");
}

#[test]
fn health_url_appends_health_to_target() {
    let cfg = ServerConfig::new(String::from("127.0.0.1"), 5000);
    assert_eq!(cfg.health_url(), "http://127.0.0.1:5000/health");
}

#[test]
fn absent_port_override_falls_back_to_default() {
    assert_eq!(resolved_port(None), DEFAULT_PORT);
}

#[test]
fn malformed_port_overrides_fall_back_to_default() {
    assert_eq!(resolved_port(Some("")), 5000);
    assert_eq!(resolved_port(Some("abc")), 5000);
    assert_eq!(resolved_port(Some("-1")), 5000);
    assert_eq!(resolved_port(Some("70000")), 5000);
    assert_eq!(resolved_port(Some("12ab")), 5000);
    assert_eq!(resolved_port(Some(" 80")), 5000);
    assert_eq!(resolved_port(Some("+")), 5000);
}

#[test]
fn valid_port_overrides_are_taken() {
    assert_eq!(resolved_port(Some("0")), 0);
    assert_eq!(resolved_port(Some("80")), 80);
    assert_eq!(resolved_port(Some("+80")), 80);
    assert_eq!(resolved_port(Some("5000")), 5000);
    assert_eq!(resolved_port(Some("65535")), 65535);
    assert_eq!(resolved_port(Some("65536")), 5000);
}

#[test]
fn parse_port_accepts_exactly_in_range_numbers() {
    assert_eq!(parse_port("65535"), Some(65535));
    assert_eq!(parse_port("65536"), None);
    assert_eq!(parse_port("00080"), Some(80));
    assert_eq!(parse_port(""), None);
    assert_eq!(parse_port("+123"), Some(123));
    assert_eq!(parse_port("++1"), None);
}

#[test]
fn port_renders_in_decimal() {
    assert_eq!(u16_to_string(0), "0");
    assert_eq!(u16_to_string(7), "7");
    assert_eq!(u16_to_string(5000), "5000");
    assert_eq!(u16_to_string(65535), "65535");
}

#[test]
fn host_and_interpreter_overrides_win_over_defaults() {
    assert_eq!(resolved_host(Some(String::from("example.org"))), "example.org");
    assert_eq!(resolved_host(None), "127.0.0.1");
    assert_eq!(resolved_interpreter(Some(String::from("/usr/bin/python3.12"))), "/usr/bin/python3.12");
    assert_eq!(resolved_interpreter(None), "python3");
}
