use quincy::client::{ClientAuthenticationSource, ClientSource};
use quincy::config::{
    default_auth_timeout, default_bind_address, default_bind_port, default_buffer_size,
    default_log_level, overlay, ConfigError, ConnectionConfig, ConnectionSource, Field,
    Ipv4Address, LogSource, TunnelConfig, TunnelSource,
};
use quincy::server::{register_tunnels, ServerSource};

fn empty_connection() -> ConnectionSource {
    ConnectionSource { mtu: None, send_buffer_size: None, recv_buffer_size: None }
}

fn addr(a: u8, b: u8, c: u8, d: u8) -> Ipv4Address {
    Ipv4Address { a, b, c, d }
}

fn tunnel_source(name: &str) -> TunnelSource {
    TunnelSource {
        name: Some(name.to_string()),
        certificate_file: Some(format!("{name}.pem")),
        certificate_key_file: Some(format!("{name}.key")),
        bind_address: None,
        bind_port: None,
        address_tunnel: Some(addr(10, 0, 0, 1)),
        address_mask: Some(addr(255, 255, 255, 0)),
        users_file: Some("users".to_string()),
        auth_timeout: None,
    }
}

fn tunnel(name: &str, port: u16) -> TunnelConfig {
    let mut t = tunnel_source(name).resolve().unwrap();
    t.bind_port = port;
    t
}

#[test]
fn defaults_have_their_documented_values() {
    assert_eq!(default_log_level(), "info");
    assert_eq!(default_bind_port(), 55555);
    assert_eq!(default_buffer_size(), 2097152);
    assert_eq!(default_auth_timeout(), 120);
    assert_eq!(default_bind_address(), addr(0, 0, 0, 0));
}

#[test]
fn missing_mtu_fails_resolution() {
    let source = ConnectionSource { mtu: None, send_buffer_size: Some(4096), recv_buffer_size: None };
    assert_eq!(source.resolve(), Err(ConfigError::MissingField(Field::Mtu)));
}

#[test]
fn missing_send_buffer_size_takes_default() {
    let source = ConnectionSource { mtu: Some(1400), send_buffer_size: None, recv_buffer_size: Some(1024) };
    assert_eq!(
        source.resolve(),
        Ok(ConnectionConfig { mtu: 1400, send_buffer_size: 2097152, recv_buffer_size: 1024 })
    );
}

#[test]
fn environment_layer_overrides_file_layer() {
    let file = ConnectionSource { mtu: Some(1400), send_buffer_size: Some(100), recv_buffer_size: Some(200) };
    let env = ConnectionSource { mtu: Some(1280), send_buffer_size: None, recv_buffer_size: None };
    let resolved = file.layered(env).resolve().unwrap();
    assert_eq!(resolved.mtu, 1280);
    assert_eq!(resolved.send_buffer_size, 100);
    assert_eq!(resolved.recv_buffer_size, 200);
    assert_eq!(overlay(Some(1), Some(2)), Some(2));
    assert_eq!(overlay(Some(1), None), Some(1));
    assert_eq!(overlay::<u8>(None, None), None);
}

#[test]
fn environment_supplies_a_missing_required_field() {
    let env = ConnectionSource { mtu: Some(1500), ..empty_connection() };
    assert_eq!(empty_connection().resolve(), Err(ConfigError::MissingField(Field::Mtu)));
    assert_eq!(empty_connection().layered(env).resolve().unwrap().mtu, 1500);
}

#[test]
fn tunnel_defaults_are_filled_in() {
    let t = tunnel_source("A").resolve().unwrap();
    assert_eq!(t.name, "A");
    assert_eq!(t.bind_address, addr(0, 0, 0, 0));
    assert_eq!(t.bind_port, 55555);
    assert_eq!(t.auth_timeout, 120);
}

#[test]
fn tunnel_reports_first_missing_field() {
    let mut s = tunnel_source("A");
    s.users_file = None;
    assert_eq!(s.clone().resolve(), Err(ConfigError::MissingField(Field::UsersFile)));
    s.certificate_file = None;
    assert_eq!(s.resolve(), Err(ConfigError::MissingField(Field::CertificateFile)));
}

#[test]
fn inline_tunnel_wins_over_discovered_one() {
    let mut tunnels = vec![tunnel("A", 1000)];
    let discovered = vec![tunnel("A", 2000), tunnel("B", 3000)];
    let dropped = register_tunnels(&mut tunnels, discovered);
    assert_eq!(tunnels.len(), 2);
    assert_eq!(tunnels[0], tunnel("A", 1000));
    assert_eq!(tunnels[1], tunnel("B", 3000));
    assert_eq!(dropped, vec![tunnel("A", 2000)]);
}

#[test]
fn duplicate_within_discovery_keeps_first() {
    let mut tunnels = Vec::new();
    let dropped = register_tunnels(&mut tunnels, vec![tunnel("C", 1), tunnel("C", 2)]);
    assert_eq!(tunnels, vec![tunnel("C", 1)]);
    assert_eq!(dropped, vec![tunnel("C", 2)]);
}

#[test]
fn server_resolution_and_discovery() {
    let source = ServerSource {
        tunnel_path: Some("tunnels".to_string()),
        tunnels: Some(vec![("a".to_string(), tunnel_source("A"))]),
        connection: ConnectionSource { mtu: Some(1400), ..empty_connection() },
        log: LogSource { level: None },
    };
    let mut server = source.resolve().unwrap();
    assert_eq!(server.log.level, "info");
    assert_eq!(server.tunnel_path.as_deref(), Some("tunnels"));
    let dropped = server.add_discovered(vec![tunnel("A", 9), tunnel("B", 10)]);
    assert_eq!(server.tunnels.len(), 2);
    assert_eq!(server.tunnels[0].bind_port, 55555);
    assert_eq!(dropped.len(), 1);
    assert_eq!(dropped[0].bind_port, 9);
}

#[test]
fn server_without_tunnel_table_fails() {
    let source = ServerSource {
        tunnel_path: None,
        tunnels: None,
        connection: ConnectionSource { mtu: Some(1400), ..empty_connection() },
        log: LogSource { level: None },
    };
    assert_eq!(source.resolve(), Err(ConfigError::MissingField(Field::Tunnels)));
}

#[test]
fn server_with_broken_inline_tunnel_fails() {
    let mut broken = tunnel_source("B");
    broken.address_mask = None;
    let source = ServerSource {
        tunnel_path: None,
        tunnels: Some(vec![("a".to_string(), tunnel_source("A")), ("b".to_string(), broken)]),
        connection: empty_connection(),
        log: LogSource { level: None },
    };
    assert_eq!(source.resolve(), Err(ConfigError::MissingField(Field::AddressMask)));
}

fn client_source() -> ClientSource {
    ClientSource {
        connection_string: Some("example.org:55555".to_string()),
        authentication: ClientAuthenticationSource {
            username: Some("user".to_string()),
            password: Some("pass".to_string()),
            trusted_certificates: Some(vec!["ca.pem".to_string()]),
            auth_interval: None,
        },
        connection: ConnectionSource { mtu: Some(1400), ..empty_connection() },
        log: LogSource { level: Some("debug".to_string()) },
    }
}

#[test]
fn client_resolution_fills_defaults() {
    let c = client_source().resolve().unwrap();
    assert_eq!(c.connection_string, "example.org:55555");
    assert_eq!(c.authentication.auth_interval, 120);
    assert_eq!(c.authentication.trusted_certificates, vec!["ca.pem".to_string()]);
    assert_eq!(c.connection.send_buffer_size, 2097152);
    assert_eq!(c.log.level, "debug");
}

#[test]
fn client_resolution_errors() {
    let mut s = client_source();
    s.authentication.password = None;
    assert_eq!(s.clone().resolve(), Err(ConfigError::MissingField(Field::Password)));
    s.connection_string = None;
    assert_eq!(s.resolve(), Err(ConfigError::MissingField(Field::ConnectionString)));
    let mut s = client_source();
    s.connection.mtu = None;
    assert_eq!(s.resolve(), Err(ConfigError::MissingField(Field::Mtu)));
}

#[test]
fn client_environment_overrides_username() {
    let env = ClientSource {
        connection_string: None,
        authentication: ClientAuthenticationSource {
            username: Some("other".to_string()),
            password: None,
            trusted_certificates: None,
            auth_interval: Some(30),
        },
        connection: empty_connection(),
        log: LogSource { level: None },
    };
    let c = client_source().layered(env).resolve().unwrap();
    assert_eq!(c.authentication.username, "other");
    assert_eq!(c.authentication.password, "pass");
    assert_eq!(c.authentication.auth_interval, 30);
    assert_eq!(c.log.level, "debug");
}

fn port_only(port: u16) -> TunnelSource {
    TunnelSource {
        name: None,
        certificate_file: None,
        certificate_key_file: None,
        bind_address: None,
        bind_port: Some(port),
        address_tunnel: None,
        address_mask: None,
        users_file: None,
        auth_timeout: None,
    }
}

#[test]
fn tunnel_tables_merge_key_by_key() {
    let file = ServerSource {
        tunnel_path: None,
        tunnels: Some(vec![("a".to_string(), tunnel_source("A")), ("b".to_string(), tunnel_source("B"))]),
        connection: ConnectionSource { mtu: Some(1400), ..empty_connection() },
        log: LogSource { level: None },
    };
    let env = ServerSource {
        tunnel_path: None,
        tunnels: Some(vec![("b".to_string(), port_only(4000)), ("c".to_string(), tunnel_source("C"))]),
        connection: empty_connection(),
        log: LogSource { level: Some("warn".to_string()) },
    };
    let server = file.layered(env).resolve().unwrap();
    assert_eq!(server.tunnels.len(), 3);
    assert_eq!(server.tunnels[0].name, "A");
    assert_eq!(server.tunnels[0].bind_port, 55555);
    assert_eq!(server.tunnels[1].name, "B");
    assert_eq!(server.tunnels[1].bind_port, 4000);
    assert_eq!(server.tunnels[1].certificate_file, "B.pem");
    assert_eq!(server.tunnels[2].name, "C");
    assert_eq!(server.log.level, "warn");
    assert_eq!(server.connection.mtu, 1400);
}

#[test]
fn tunnel_environment_overrides_file() {
    let t = tunnel_source("A").layered(port_only(7000)).resolve().unwrap();
    assert_eq!(t.bind_port, 7000);
    assert_eq!(t.name, "A");
}
