use homedrive::config::{
    default_cors, default_database_url, default_host, default_jwt_expiry, default_port,
    default_volume, generate_secret, port_from_text, select_jwt_secret, AppConfig, DatabaseConfig,
    JwtConfig, MemorySource, ServerConfig, StorageConfig,
};

fn config(secret: Option<&str>) -> AppConfig {
    AppConfig {
        server: ServerConfig { port: default_port(), host: default_host(), cors_origin: default_cors() },
        storage: StorageConfig { volume: default_volume() },
        jwt: JwtConfig { secret: secret.map(|s| s.to_string()), expiry_hours: default_jwt_expiry() },
        database: DatabaseConfig { url: default_database_url() },
    }
}

#[test]
fn defaults_are_the_documented_ones() {
    assert_eq!(default_port(), 2300);
    assert_eq!(default_host(), "0.0.0.0");
    assert_eq!(default_cors(), "*");
    assert_eq!(default_volume(), "./Homedrive");
    assert_eq!(default_jwt_expiry(), 168);
    assert_eq!(default_database_url(), "sqlite:homedrive.db?mode=rwc");
}

#[test]
fn built_in_source_is_toml_with_every_section() {
    let source = MemorySource::new();
    for section in ["[server]", "[storage]", "[jwt]", "[database]", "port = 2300"] {
        assert!(source.content.contains(section), "{section}");
    }
    assert!(matches!(source.format, config::FileFormat::Toml));
}

#[test]
fn configured_secret_is_used_else_one_is_generated() {
    assert_eq!(config(Some("mine")).jwt_secret(), "mine");
    let generated = config(None).jwt_secret();
    assert_eq!(generated.len(), 44);
    assert!(generated.ends_with('='));
    assert_ne!(generate_secret(), generate_secret());
}

#[test]
fn start_up_secret_choice() {
    let s = |v: &str| Some(v.to_string());
    assert_eq!(select_jwt_secret(s("env"), s("file")), s("env"));
    assert_eq!(select_jwt_secret(s(""), s("  file\n")), s("file"));
    assert_eq!(select_jwt_secret(None, s("")), None);
    assert_eq!(select_jwt_secret(None, None), None);
    assert_eq!(select_jwt_secret(None, s(" \n")), s(""));
}

#[test]
fn ports_parse_as_u16() {
    assert_eq!(port_from_text("8080"), Some(8080));
    assert_eq!(port_from_text("+80"), Some(80));
    assert_eq!(port_from_text("65535"), Some(65535));
    assert_eq!(port_from_text("65536"), None);
    assert_eq!(port_from_text("80a"), None);
    assert_eq!(port_from_text(""), None);
}

#[test]
fn decimal_numbers_read_back() {
    for n in [0u16, 7, 10, 99, 2300, 65535] {
        assert_eq!(port_from_text(&n.to_string()), Some(n));
    }
    let reply = homedrive::file::range_reply(Some("bytes=0-18446744073709551614"), u64::MAX);
    assert_eq!(reply.content_range.as_deref(), Some("bytes 0-18446744073709551614/18446744073709551615"));
}
