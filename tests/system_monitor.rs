use rext_core::server_config::{ServerConfig, ServerConfigService};
use rext_core::system_monitor::SystemMonitorService;

#[test]
fn test_format_bytes() {
    assert_eq!(SystemMonitorService::format_bytes(1024), "1.0 KB");
    assert_eq!(SystemMonitorService::format_bytes(1048576), "1.0 MB");
    assert_eq!(SystemMonitorService::format_bytes(1073741824), "1.0 GB");
    assert_eq!(SystemMonitorService::format_bytes(512), "512.0 B");
}

#[test]
fn test_format_uptime() {
    assert_eq!(SystemMonitorService::format_uptime(3661), "1h 1m");
    assert_eq!(SystemMonitorService::format_uptime(86400), "1d 0h 0m");
    assert_eq!(SystemMonitorService::format_uptime(3600), "1h 0m");
    assert_eq!(SystemMonitorService::format_uptime(120), "2m");
}

#[test]
fn format_bytes_rounds_to_one_decimal() {
    assert_eq!(SystemMonitorService::format_bytes(0), "0.0 B");
    assert_eq!(SystemMonitorService::format_bytes(1023), "1023.0 B");
    assert_eq!(SystemMonitorService::format_bytes(1536), "1.5 KB");
    assert_eq!(SystemMonitorService::format_bytes(1048575), "1024.0 KB");
    assert_eq!(SystemMonitorService::format_bytes(5 * 1073741824), "5.0 GB");
    assert_eq!(SystemMonitorService::format_bytes(2048 * 1073741824), "2048.0 GB");
}

#[test]
fn format_bytes_ties_round_to_even() {
    // 1075.2 bytes would be 1.05 KB; 1126.4 would be 1.1 KB; 1177.6 would be 1.15 KB.
    assert_eq!(SystemMonitorService::format_bytes(1075), "1.0 KB");
    assert_eq!(SystemMonitorService::format_bytes(1076), "1.1 KB");
    // 3 KB + 256 bytes is exactly 3.25 KB: the tie goes to the even digit.
    assert_eq!(SystemMonitorService::format_bytes(3 * 1024 + 256), "3.2 KB");
    // 3 KB + 768 bytes is exactly 3.75 KB.
    assert_eq!(SystemMonitorService::format_bytes(3 * 1024 + 768), "3.8 KB");
}

#[test]
fn format_uptime_edges() {
    assert_eq!(SystemMonitorService::format_uptime(0), "0m");
    assert_eq!(SystemMonitorService::format_uptime(59), "0m");
    assert_eq!(SystemMonitorService::format_uptime(2 * 86400 + 5 * 3600 + 7 * 60 + 9), "2d 5h 7m");
}

#[test]
fn server_info_defaults_and_stored() {
    let (host, port, protocol, env) = SystemMonitorService::get_server_info(None);
    assert_eq!((host.as_str(), port, protocol.as_str(), env.as_str()), ("localhost", 3000, "HTTP", "development"));
    let config = ServerConfigService::configure(Some("8080"), Some("example.org"), Some("production"));
    let (host, port, protocol, env) = SystemMonitorService::get_server_info(Some(&config));
    assert_eq!((host.as_str(), port, protocol.as_str(), env.as_str()), ("example.org", 8080, "HTTPS", "production"));
    let _ = ServerConfig { port: 1, host: String::new(), protocol: String::new(), environment: String::new() };
}
