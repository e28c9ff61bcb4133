use quincy::client::ClientSource;
use quincy::client::ClientAuthenticationSource;
use quincy::codec::{fit_to_buffer, EncodingError};
use quincy::config::{ConnectionConfig, ConnectionSource, Ipv4Address, LogSource, TunnelSource};
use quincy::socket::{buffer_shortfall, BufferShortfall};
use quincy::transport::{
    assemble_trust_roots, idle_timeout_ms, mtu_upper_bound, TransportError, TransportParams,
};

fn client(mtu: u32, interval: Option<u32>) -> quincy::client::ClientConfig {
    ClientSource {
        connection_string: Some("host:1".to_string()),
        authentication: ClientAuthenticationSource {
            username: Some("u".to_string()),
            password: Some("p".to_string()),
            trusted_certificates: Some(vec![]),
            auth_interval: interval,
        },
        connection: ConnectionSource { mtu: Some(mtu), send_buffer_size: None, recv_buffer_size: None },
        log: LogSource { level: None },
    }
    .resolve()
    .unwrap()
}

fn tunnel(timeout: u32) -> quincy::config::TunnelConfig {
    let a = Ipv4Address { a: 10, b: 0, c: 0, d: 1 };
    TunnelSource {
        name: Some("t".to_string()),
        certificate_file: Some("c".to_string()),
        certificate_key_file: Some("k".to_string()),
        bind_address: None,
        bind_port: None,
        address_tunnel: Some(a),
        address_mask: Some(a),
        users_file: Some("u".to_string()),
        auth_timeout: Some(timeout),
    }
    .resolve()
    .unwrap()
}

#[test]
fn idle_timeout_is_twice_the_interval_in_millis() {
    assert_eq!(idle_timeout_ms(120), 240_000);
    assert_eq!(idle_timeout_ms(0), 0);
    assert_eq!(idle_timeout_ms(u32::MAX), 2 * (u32::MAX as u64) * 1000);
}

#[test]
fn mtu_bound_adds_overhead() {
    assert_eq!(mtu_upper_bound(1400, 80), Ok(1480));
    assert_eq!(mtu_upper_bound(65535 - 80, 80), Ok(65535));
    assert_eq!(mtu_upper_bound(65535 - 79, 80), Err(TransportError::MtuOutOfRange));
    assert_eq!(mtu_upper_bound(70000, 0), Err(TransportError::MtuOutOfRange));
}

#[test]
fn client_transport_params() {
    assert_eq!(
        client(1400, None).transport_params(80),
        Ok(TransportParams { idle_timeout_ms: 240_000, mtu_upper_bound: 1480 })
    );
    assert_eq!(
        client(1200, Some(15)).transport_params(60),
        Ok(TransportParams { idle_timeout_ms: 30_000, mtu_upper_bound: 1260 })
    );
    assert_eq!(client(65500, None).transport_params(80), Err(TransportError::MtuOutOfRange));
}

#[test]
fn tunnel_transport_params_use_shared_connection() {
    let connection = ConnectionConfig { mtu: 1350, send_buffer_size: 1, recv_buffer_size: 1 };
    assert_eq!(
        tunnel(45).transport_params(&connection, 80),
        Ok(TransportParams { idle_timeout_ms: 90_000, mtu_upper_bound: 1430 })
    );
}

#[test]
fn trust_roots_skip_failed_loads() {
    let loads: Vec<Result<Vec<u32>, String>> =
        vec![Ok(vec![1, 2]), Err("missing".to_string()), Ok(vec![]), Ok(vec![3]), Err("bad".to_string())];
    let (roots, failed) = assemble_trust_roots(loads);
    assert_eq!(roots, vec![1, 2, 3]);
    assert_eq!(failed, vec![1, 4]);
}

#[test]
fn trust_roots_all_failed_is_empty() {
    let loads: Vec<Result<Vec<u32>, ()>> = vec![Err(()), Err(())];
    let (roots, failed) = assemble_trust_roots(loads);
    assert!(roots.is_empty());
    assert_eq!(failed, vec![0, 1]);
}

#[test]
fn send_buffer_shortfall_is_reported() {
    let requested = 8 * 1024 * 1024;
    let granted = 2 * 1024 * 1024;
    assert_eq!(buffer_shortfall(requested, granted), Some(BufferShortfall { requested, granted }));
    assert_eq!(buffer_shortfall(granted, granted), None);
    assert_eq!(buffer_shortfall(granted, requested), None);
}

#[test]
fn oversized_message_is_refused() {
    assert_eq!(
        fit_to_buffer(vec![0u8; 9], 8),
        Err(EncodingError::TooLarge { size: 9, capacity: 8 })
    );
    assert_eq!(fit_to_buffer(vec![7u8; 8], 8), Ok(vec![7u8; 8]));
    assert_eq!(fit_to_buffer(vec![], 0), Ok(vec![]));
}

#[test]
fn message_round_trip_through_buffer() {
    let config = bincode::config::standard();
    let message: (u32, String, Vec<u16>) = (7, "hello".to_string(), vec![1, 2, 3]);
    let encoded = bincode::encode_to_vec(&message, config).unwrap();
    let framed = fit_to_buffer(encoded, 2048).unwrap();
    let (decoded, _): ((u32, String, Vec<u16>), usize) =
        bincode::decode_from_slice(&framed, config).unwrap();
    assert_eq!(decoded, message);
}

#[test]
fn quinn_transport_config_follows_mtu_range() {
    assert!(client(1400, None).quinn_transport_config(80).is_ok());
    assert!(client(65536, None).quinn_transport_config(0).is_err());
    let connection = ConnectionConfig { mtu: 65500, send_buffer_size: 1, recv_buffer_size: 1 };
    assert_eq!(
        tunnel(10).quinn_transport_config(&connection, 80).err(),
        Some(TransportError::MtuOutOfRange)
    );
    let connection = ConnectionConfig { mtu: 1400, ..connection };
    assert!(tunnel(u32::MAX).quinn_transport_config(&connection, 80).is_ok());
}

#[test]
fn largest_idle_timeout_fits_a_varint() {
    let params = TransportParams { idle_timeout_ms: idle_timeout_ms(u32::MAX), mtu_upper_bound: 1500 };
    let v = quincy::quic::idle_timeout_varint(&params);
    assert_eq!(v.into_inner(), 2 * (u32::MAX as u64) * 1000);
    let _ = quincy::quic::transport_config(&params);
}

#[test]
fn built_transport_config_carries_idle_timeout() {
    let built = client(1400, Some(15)).quinn_transport_config(80).unwrap();
    assert!(format!("{built:?}").contains("max_idle_timeout: Some(30000)"));
    let connection = ConnectionConfig { mtu: 1400, send_buffer_size: 1, recv_buffer_size: 1 };
    let built = tunnel(120).quinn_transport_config(&connection, 80).unwrap();
    assert!(format!("{built:?}").contains("max_idle_timeout: Some(240000)"));
}
