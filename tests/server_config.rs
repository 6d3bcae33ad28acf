use rext_core::server_config::{parse_port, ServerConfigService};

#[test]
fn parse_port_accepts_what_u16_parsing_accepts() {
    assert_eq!(parse_port("3000"), Some(3000));
    assert_eq!(parse_port("+80"), Some(80));
    assert_eq!(parse_port("0065535"), Some(65535));
    assert_eq!(parse_port("65536"), None);
    assert_eq!(parse_port(""), None);
    assert_eq!(parse_port("+"), None);
    assert_eq!(parse_port("-1"), None);
    assert_eq!(parse_port("80a"), None);
    assert_eq!(parse_port(" 80"), None);
    for s in ["0", "1", "443", "8080", "65535", "99999", "12x"] {
        assert_eq!(parse_port(s), s.parse::<u16>().ok());
    }
}

#[test]
fn configure_applies_defaults() {
    let c = ServerConfigService::configure(None, None, None);
    assert_eq!(c.port, 3000);
    assert_eq!(c.host, "localhost");
    assert_eq!(c.environment, "development");
    assert_eq!(c.protocol, "HTTP");
    let c = ServerConfigService::configure(Some("not a port"), Some("0.0.0.0"), Some("staging"));
    assert_eq!(c.port, 3000);
    assert_eq!(c.host, "0.0.0.0");
    assert_eq!(c.protocol, "HTTP");
    let c = ServerConfigService::configure(Some("443"), None, Some("production"));
    assert_eq!(c.port, 443);
    assert_eq!(c.protocol, "HTTPS");
}

#[test]
fn getters_fall_back_without_stored_settings() {
    assert_eq!(ServerConfigService::get_port(None), 3000);
    assert_eq!(ServerConfigService::get_host(None), "localhost");
    assert_eq!(ServerConfigService::get_protocol(None), "HTTP");
    assert_eq!(ServerConfigService::get_environment(None), "development");
    assert!(ServerConfigService::get_config(None).is_none());
    let c = ServerConfigService::configure(Some("9000"), Some("h"), Some("production"));
    assert_eq!(ServerConfigService::get_port(Some(&c)), 9000);
    assert_eq!(ServerConfigService::get_host(Some(&c)), "h");
    assert_eq!(ServerConfigService::get_protocol(Some(&c)), "HTTPS");
    assert_eq!(ServerConfigService::get_environment(Some(&c)), "production");
}
