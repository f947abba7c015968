use soar::ingest_config::{
    default_retry_delay, parse_socket_address, DataStream, IngestConfigFile, SocketAddressError,
    SocketTarget, StreamFormat, TomlDataStream,
};

fn config_with(address: Option<&str>) -> IngestConfigFile {
    IngestConfigFile {
        instance_id: None,
        retry_delay: 5,
        socket_address: address.map(|s| s.to_string()),
        streams: vec![],
    }
}

#[test]
fn test_socket_target_default() {
    let config = config_with(None);
    let target = config.socket_target(None, Some("alice")).unwrap();
    assert!(matches!(target, SocketTarget::Unix(_)));
    match target {
        SocketTarget::Unix(path) => assert_eq!(path, "/tmp/soar-alice/run.sock"),
        _ => panic!("Expected Unix target"),
    }
    match config.socket_target(Some("production"), Some("alice")).unwrap() {
        SocketTarget::Unix(path) => assert_eq!(path, "/var/run/soar/run.sock"),
        _ => panic!("Expected Unix target"),
    }
}

#[test]
fn test_socket_target_unix() {
    let config = config_with(Some("unix:///var/run/soar/run.sock"));
    let target = config.socket_target(None, None).unwrap();
    match target {
        SocketTarget::Unix(path) => {
            assert_eq!(path, "/var/run/soar/run.sock");
        }
        _ => panic!("Expected Unix target"),
    }
}

#[test]
fn test_socket_target_tcp_ip() {
    let config = config_with(Some("tcp://10.0.0.1:9384"));
    let target = config.socket_target(None, None).unwrap();
    match target {
        SocketTarget::Tcp(addr) => {
            assert_eq!(addr, "10.0.0.1:9384");
        }
        _ => panic!("Expected TCP target"),
    }
}

#[test]
fn test_socket_target_tcp_hostname() {
    let config = config_with(Some("tcp://supervillain:9384"));
    let target = config.socket_target(None, None).unwrap();
    match target {
        SocketTarget::Tcp(addr) => {
            assert_eq!(addr, "supervillain:9384");
        }
        _ => panic!("Expected TCP target"),
    }
}

#[test]
fn test_socket_target_invalid() {
    let config = config_with(Some("http://example.com"));
    assert!(config.socket_target(None, None).is_err());
}

#[test]
fn test_socket_target_tcp_missing_port() {
    let config = config_with(Some("tcp://supervillain"));
    assert!(config.socket_target(None, None).is_err());
}

#[test]
fn test_socket_target_tcp_empty_host() {
    let config = config_with(Some("tcp://:9384"));
    assert!(config.socket_target(None, None).is_err());
}

#[test]
fn test_socket_target_tcp_invalid_port() {
    let config = config_with(Some("tcp://host:notaport"));
    assert!(config.socket_target(None, None).is_err());
}

#[test]
fn test_socket_target_unix_empty_path() {
    let config = config_with(Some("unix://"));
    assert!(config.socket_target(None, None).is_err());
}

#[test]
fn socket_address_errors_are_specific() {
    assert!(matches!(parse_socket_address("unix://"), Err(SocketAddressError::EmptyUnixPath)));
    assert!(matches!(parse_socket_address("tcp://host"), Err(SocketAddressError::MissingPort)));
    assert!(matches!(parse_socket_address("tcp://:80"), Err(SocketAddressError::EmptyHost)));
    assert!(matches!(parse_socket_address("tcp://host:"), Err(SocketAddressError::EmptyPort)));
    assert!(matches!(parse_socket_address("tcp://host:65536"), Err(SocketAddressError::InvalidPort)));
    assert!(matches!(parse_socket_address("tcp://host:-1"), Err(SocketAddressError::InvalidPort)));
    assert!(matches!(parse_socket_address("udp://x:1"), Err(SocketAddressError::UnknownScheme)));
    assert!(matches!(parse_socket_address("tcp://host:65535"), Ok(SocketTarget::Tcp(_))));
}

#[test]
fn test_data_stream_conversion() {
    let toml_stream = TomlDataStream {
        id: 0x42,
        name: "Test".to_string(),
        format: StreamFormat::Sbs,
        host: "localhost".to_string(),
        port: 30003,
        enabled: true,
        callsign: None,
        filter: None,
        created_at_us: 1,
        updated_at_us: 2,
    };

    let data_stream: DataStream = toml_stream.clone().into();
    assert_eq!(data_stream.name, toml_stream.name);
    assert_eq!(data_stream.format, StreamFormat::Sbs);

    let back: TomlDataStream = data_stream.into();
    assert_eq!(back.name, toml_stream.name);
    assert_eq!(back.port, 30003);
}

#[test]
fn data_streams_keep_order_and_values() {
    let mk = |name: &str, enabled: bool| TomlDataStream {
        id: 1,
        name: name.to_string(),
        format: StreamFormat::Aprs,
        host: "aprs.example".to_string(),
        port: 14580,
        enabled,
        callsign: Some("N0CALL".to_string()),
        filter: Some("r/1/2/3".to_string()),
        created_at_us: 0,
        updated_at_us: 0,
    };
    let config = IngestConfigFile {
        instance_id: None,
        retry_delay: default_retry_delay(),
        socket_address: None,
        streams: vec![mk("OGN Full Feed", true), mk("Local Beast", false)],
    };
    let streams = config.data_streams();
    assert_eq!(config.retry_delay, 5);
    assert_eq!(streams.len(), 2);
    assert_eq!(streams[0].name, "OGN Full Feed");
    assert_eq!(streams[1].name, "Local Beast");
    assert!(!streams[1].enabled);
    assert_eq!(streams[0].callsign, Some("N0CALL".to_string()));
    assert_eq!(StreamFormat::Adsb.as_str(), "adsb");
}
