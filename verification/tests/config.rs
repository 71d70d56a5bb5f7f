use mini_redis_practice::config::{
    ServerConfig, DEFAULT_LIMIT_CONNECTIONS, DEFAULT_PORT, MAX_PORT,
};
use mini_redis_practice::error::BindError;
use mini_redis_practice::text::push_decimal;

#[test]
fn defaults_are_port_8080_and_250_connections() {
    let config = ServerConfig::default();
    assert_eq!(config.port, 8080);
    assert_eq!(config.limit_connections, 250);
    assert_eq!(DEFAULT_PORT, 8080);
    assert_eq!(DEFAULT_LIMIT_CONNECTIONS, 250);
    assert_eq!(MAX_PORT, 65535);
}

#[test]
fn bind_address_is_loopback_and_port() {
    let config = ServerConfig::new(8080, 250);
    assert_eq!(config.bind_address(), Ok(String::from("127.0.0.1:8080")));
}

#[test]
fn bind_address_of_edge_ports() {
    assert_eq!(ServerConfig::new(0, 1).bind_address(), Ok(String::from("127.0.0.1:0")));
    assert_eq!(ServerConfig::new(9, 1).bind_address(), Ok(String::from("127.0.0.1:9")));
    assert_eq!(ServerConfig::new(10, 1).bind_address(), Ok(String::from("127.0.0.1:10")));
    assert_eq!(ServerConfig::new(6379, 1).bind_address(), Ok(String::from("127.0.0.1:6379")));
    assert_eq!(ServerConfig::new(65535, 1).bind_address(), Ok(String::from("127.0.0.1:65535")));
}

#[test]
fn bind_address_refuses_ports_beyond_range() {
    assert!(!ServerConfig::new(65536, 1).has_valid_port());
    assert!(ServerConfig::new(65535, 1).has_valid_port());
    assert_eq!(ServerConfig::new(65536, 1).bind_address(), Err(BindError::InvalidAddress));
    assert_eq!(ServerConfig::new(u32::MAX, 1).bind_address(), Err(BindError::InvalidAddress));
}

#[test]
fn decimal_digits_in_ascii() {
    let cases: [(u32, &str); 7] = [
        (0, "0"),
        (7, "7"),
        (10, "10"),
        (99, "99"),
        (100, "100"),
        (8080, "8080"),
        (u32::MAX, "4294967295"),
    ];
    for (n, text) in cases {
        let mut out = Vec::new();
        push_decimal(&mut out, n);
        assert_eq!(out, text.as_bytes().to_vec());
    }
}

#[test]
fn decimal_digits_go_behind_what_is_there() {
    let mut out = vec![b'#'];
    push_decimal(&mut out, 250);
    push_decimal(&mut out, 0);
    assert_eq!(out, b"#2500".to_vec());
}
