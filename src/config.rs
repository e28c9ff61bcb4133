//! The configuration model: typed entities and their default-value policy.

use vstd::prelude::*;

verus! {

/// The port a tunnel binds to when none is configured.
pub const DEFAULT_BIND_PORT: u16 = 55555;

/// The socket buffer size, in bytes, used when none is configured.
pub const DEFAULT_BUFFER_SIZE: u64 = 2097152;

/// The authentication timeout (server) or interval (client), in seconds,
/// used when none is configured.
pub const DEFAULT_AUTH_TIMEOUT: u32 = 120;

/// An IPv4 address as its four octets, most significant first.
#[derive(Clone, Copy, Debug, PartialEq, Eq, Structural)]
pub struct Ipv4Address {
    pub a: u8,
    pub b: u8,
    pub c: u8,
    pub d: u8,
}

/// The log level used when none is configured.
pub open spec fn default_log_level_spec() -> Seq<char> {
    seq!['i', 'n', 'f', 'o']
}

/// Returns the default log level, `info`.
pub fn default_log_level() -> (r: String)
    ensures
        r@ == default_log_level_spec(),
{
    let r = String::from_str("info");
    proof {
        reveal_strlit("info");
        assert(r@ =~= default_log_level_spec());
    }
    r
}

/// Returns the default bind address, the IPv4 wildcard `0.0.0.0`.
pub fn default_bind_address() -> (r: Ipv4Address)
    ensures
        r == (Ipv4Address { a: 0, b: 0, c: 0, d: 0 }),
{
    Ipv4Address { a: 0, b: 0, c: 0, d: 0 }
}

/// Returns the default bind port.
pub fn default_bind_port() -> (r: u16)
    ensures
        r == DEFAULT_BIND_PORT,
{
    DEFAULT_BIND_PORT
}

/// Returns the default socket buffer size in bytes.
pub fn default_buffer_size() -> (r: u64)
    ensures
        r == DEFAULT_BUFFER_SIZE,
{
    DEFAULT_BUFFER_SIZE
}

/// Returns the default authentication timeout in seconds.
pub fn default_auth_timeout() -> (r: u32)
    ensures
        r == DEFAULT_AUTH_TIMEOUT,
{
    DEFAULT_AUTH_TIMEOUT
}


/// A field of the configuration that has no default and must be supplied.
#[derive(Clone, Copy, Debug, PartialEq, Eq, Structural)]
pub enum Field {
    Name,
    CertificateFile,
    CertificateKeyFile,
    AddressTunnel,
    AddressMask,
    UsersFile,
    Tunnels,
    ConnectionString,
    Username,
    Password,
    TrustedCertificates,
    Mtu,
}

/// Why a configuration source could not be resolved into a typed entity.
#[derive(Clone, Copy, Debug, PartialEq, Eq, Structural)]
pub enum ConfigError {
    /// A field without a default was absent from every layer.
    MissingField(Field),
}

/// Picks the value of one key from two layers: the upper layer wins
/// wherever it holds a value.
pub open spec fn overlay_spec<T>(base: Option<T>, over: Option<T>) -> Option<T> {
    if over is Some {
        over
    } else {
        base
    }
}

/// Merges one key of two layers; `over` (the environment) overrides `base`
/// (the file).
pub fn overlay<T>(base: Option<T>, over: Option<T>) -> (r: Option<T>)
    ensures
        r == overlay_spec(base, over),
{
    match over {
        Some(v) => Some(v),
        None => base,
    }
}

/// The value of a field that has a default.
pub open spec fn or_default<T>(v: Option<T>, d: T) -> T {
    match v {
        Some(x) => x,
        None => d,
    }
}

/// Miscellaneous connection configuration.
#[derive(Clone, Copy, Debug, PartialEq, Eq, Structural)]
pub struct ConnectionConfig {
    /// The MTU of connections and of the TUN interface
    pub mtu: u32,
    /// The send buffer size of the socket and the endpoint
    pub send_buffer_size: u64,
    /// The receive buffer size of the socket and the endpoint
    pub recv_buffer_size: u64,
}

/// One layer of connection settings, each key possibly absent.
#[derive(Clone, Copy, Debug, PartialEq, Eq, Structural)]
pub struct ConnectionSource {
    pub mtu: Option<u32>,
    pub send_buffer_size: Option<u64>,
    pub recv_buffer_size: Option<u64>,
}

impl ConnectionSource {
    pub open spec fn layered_spec(self, over: ConnectionSource) -> ConnectionSource {
        ConnectionSource {
            mtu: overlay_spec(self.mtu, over.mtu),
            send_buffer_size: overlay_spec(self.send_buffer_size, over.send_buffer_size),
            recv_buffer_size: overlay_spec(self.recv_buffer_size, over.recv_buffer_size),
        }
    }

    /// Puts the layer `over` on top of this one, key by key.
    pub fn layered(self, over: ConnectionSource) -> (r: ConnectionSource)
        ensures
            r == self.layered_spec(over),
    {
        ConnectionSource {
            mtu: overlay(self.mtu, over.mtu),
            send_buffer_size: overlay(self.send_buffer_size, over.send_buffer_size),
            recv_buffer_size: overlay(self.recv_buffer_size, over.recv_buffer_size),
        }
    }

    pub open spec fn resolved_spec(self) -> Result<ConnectionConfig, ConfigError> {
        match self.mtu {
            None => Err(ConfigError::MissingField(Field::Mtu)),
            Some(mtu) => Ok(
                ConnectionConfig {
                    mtu,
                    send_buffer_size: or_default(self.send_buffer_size, DEFAULT_BUFFER_SIZE),
                    recv_buffer_size: or_default(self.recv_buffer_size, DEFAULT_BUFFER_SIZE),
                },
            ),
        }
    }

    /// Fills in the defaults; fails exactly when `mtu` is absent.
    pub fn resolve(self) -> (r: Result<ConnectionConfig, ConfigError>)
        ensures
            r == self.resolved_spec(),
    {
        let mtu = match self.mtu {
            Some(m) => m,
            None => {
                return Err(ConfigError::MissingField(Field::Mtu));
            },
        };
        let send_buffer_size = match self.send_buffer_size {
            Some(v) => v,
            None => default_buffer_size(),
        };
        let recv_buffer_size = match self.recv_buffer_size {
            Some(v) => v,
            None => default_buffer_size(),
        };
        Ok(ConnectionConfig { mtu, send_buffer_size, recv_buffer_size })
    }
}

/// The environment layer wins: wherever it sets a connection key, the
/// configuration resolved from the file layer with the environment on top
/// holds the environment's value; keys it leaves unset keep the file's.
pub proof fn lemma_environment_overrides_file(file: ConnectionSource, env: ConnectionSource)
    ensures
        env.mtu is Some ==> file.layered_spec(env).resolved_spec() is Ok
            && file.layered_spec(env).resolved_spec()->Ok_0.mtu == env.mtu->Some_0,
        env.mtu is None ==> (file.layered_spec(env).resolved_spec() is Ok <==> file.mtu is Some),
        env.mtu is None && file.mtu is Some ==> file.layered_spec(env).resolved_spec()->Ok_0.mtu == file.mtu->Some_0,
        file.layered_spec(env).resolved_spec() is Ok && env.send_buffer_size is Some
            ==> file.layered_spec(env).resolved_spec()->Ok_0.send_buffer_size == env.send_buffer_size->Some_0,
        file.layered_spec(env).resolved_spec() is Ok && env.recv_buffer_size is Some
            ==> file.layered_spec(env).resolved_spec()->Ok_0.recv_buffer_size == env.recv_buffer_size->Some_0,
{
}

/// Logging configuration.
#[derive(Clone, Debug, PartialEq, Eq)]
pub struct LogConfig {
    /// The log level
    pub level: String,
}

/// One layer of logging settings.
#[derive(Clone, Debug, PartialEq, Eq)]
pub struct LogSource {
    pub level: Option<String>,
}

impl LogSource {
    pub open spec fn layered_spec(self, over: LogSource) -> LogSource {
        LogSource { level: overlay_spec(self.level, over.level) }
    }

    /// Puts the layer `over` on top of this one.
    pub fn layered(self, over: LogSource) -> (r: LogSource)
        ensures
            r == self.layered_spec(over),
    {
        LogSource { level: overlay(self.level, over.level) }
    }

    /// The resolved level: the configured one, else `info`.
    pub open spec fn level_spec(self) -> Seq<char> {
        match self.level {
            Some(l) => l@,
            None => default_log_level_spec(),
        }
    }

    /// Fills in the default level; never fails.
    pub fn resolve(self) -> (r: LogConfig)
        ensures
            r.level@ == self.level_spec(),
    {
        let level = match self.level {
            Some(l) => l,
            None => default_log_level(),
        };
        LogConfig { level }
    }
}


/// The configuration of one server-side tunnel.
#[derive(Clone, Debug, PartialEq, Eq)]
pub struct TunnelConfig {
    /// The name of the tunnel, unique within a server
    pub name: String,
    /// The certificate file of the tunnel
    pub certificate_file: String,
    /// The private key file of that certificate
    pub certificate_key_file: String,
    /// The address to bind the tunnel to
    pub bind_address: Ipv4Address,
    /// The port to bind the tunnel to
    pub bind_port: u16,
    /// The address of this tunnel
    pub address_tunnel: Ipv4Address,
    /// The address mask of this tunnel
    pub address_mask: Ipv4Address,
    /// A file listing users and their password hashes
    pub users_file: String,
    /// Seconds to wait for authentication before closing a connection
    pub auth_timeout: u32,
}

/// One layer of the settings of a tunnel.
#[derive(Clone, Debug, PartialEq, Eq)]
pub struct TunnelSource {
    pub name: Option<String>,
    pub certificate_file: Option<String>,
    pub certificate_key_file: Option<String>,
    pub bind_address: Option<Ipv4Address>,
    pub bind_port: Option<u16>,
    pub address_tunnel: Option<Ipv4Address>,
    pub address_mask: Option<Ipv4Address>,
    pub users_file: Option<String>,
    pub auth_timeout: Option<u32>,
}

impl TunnelSource {
    pub open spec fn layered_spec(self, over: TunnelSource) -> TunnelSource {
        TunnelSource {
            name: overlay_spec(self.name, over.name),
            certificate_file: overlay_spec(self.certificate_file, over.certificate_file),
            certificate_key_file: overlay_spec(self.certificate_key_file, over.certificate_key_file),
            bind_address: overlay_spec(self.bind_address, over.bind_address),
            bind_port: overlay_spec(self.bind_port, over.bind_port),
            address_tunnel: overlay_spec(self.address_tunnel, over.address_tunnel),
            address_mask: overlay_spec(self.address_mask, over.address_mask),
            users_file: overlay_spec(self.users_file, over.users_file),
            auth_timeout: overlay_spec(self.auth_timeout, over.auth_timeout),
        }
    }

    /// Puts the layer `over` on top of this one, key by key.
    pub fn layered(self, over: TunnelSource) -> (r: TunnelSource)
        ensures
            r == self.layered_spec(over),
    {
        TunnelSource {
            name: overlay(self.name, over.name),
            certificate_file: overlay(self.certificate_file, over.certificate_file),
            certificate_key_file: overlay(self.certificate_key_file, over.certificate_key_file),
            bind_address: overlay(self.bind_address, over.bind_address),
            bind_port: overlay(self.bind_port, over.bind_port),
            address_tunnel: overlay(self.address_tunnel, over.address_tunnel),
            address_mask: overlay(self.address_mask, over.address_mask),
            users_file: overlay(self.users_file, over.users_file),
            auth_timeout: overlay(self.auth_timeout, over.auth_timeout),
        }
    }

    /// The first field without a default that this layer lacks, in
    /// declaration order.
    pub open spec fn first_missing(self) -> Option<Field> {
        if self.name is None {
            Some(Field::Name)
        } else if self.certificate_file is None {
            Some(Field::CertificateFile)
        } else if self.certificate_key_file is None {
            Some(Field::CertificateKeyFile)
        } else if self.address_tunnel is None {
            Some(Field::AddressTunnel)
        } else if self.address_mask is None {
            Some(Field::AddressMask)
        } else if self.users_file is None {
            Some(Field::UsersFile)
        } else {
            None
        }
    }

    /// The tunnel configuration this layer stands for, defaults filled in.
    pub open spec fn resolved_spec(self) -> Result<TunnelConfig, ConfigError> {
        match self.first_missing() {
            Some(f) => Err(ConfigError::MissingField(f)),
            None => Ok(
                TunnelConfig {
                    name: self.name->Some_0,
                    certificate_file: self.certificate_file->Some_0,
                    certificate_key_file: self.certificate_key_file->Some_0,
                    bind_address: or_default(
                        self.bind_address,
                        Ipv4Address { a: 0, b: 0, c: 0, d: 0 },
                    ),
                    bind_port: or_default(self.bind_port, DEFAULT_BIND_PORT),
                    address_tunnel: self.address_tunnel->Some_0,
                    address_mask: self.address_mask->Some_0,
                    users_file: self.users_file->Some_0,
                    auth_timeout: or_default(self.auth_timeout, DEFAULT_AUTH_TIMEOUT),
                },
            ),
        }
    }

    /// Fills in the defaults; fails with the first absent required field.
    pub fn resolve(self) -> (r: Result<TunnelConfig, ConfigError>)
        ensures
            r == self.resolved_spec(),
    {
        let name = match self.name {
            Some(v) => v,
            None => {
                return Err(ConfigError::MissingField(Field::Name));
            },
        };
        let certificate_file = match self.certificate_file {
            Some(v) => v,
            None => {
                return Err(ConfigError::MissingField(Field::CertificateFile));
            },
        };
        let certificate_key_file = match self.certificate_key_file {
            Some(v) => v,
            None => {
                return Err(ConfigError::MissingField(Field::CertificateKeyFile));
            },
        };
        let address_tunnel = match self.address_tunnel {
            Some(v) => v,
            None => {
                return Err(ConfigError::MissingField(Field::AddressTunnel));
            },
        };
        let address_mask = match self.address_mask {
            Some(v) => v,
            None => {
                return Err(ConfigError::MissingField(Field::AddressMask));
            },
        };
        let users_file = match self.users_file {
            Some(v) => v,
            None => {
                return Err(ConfigError::MissingField(Field::UsersFile));
            },
        };
        let bind_address = match self.bind_address {
            Some(v) => v,
            None => default_bind_address(),
        };
        let bind_port = match self.bind_port {
            Some(v) => v,
            None => default_bind_port(),
        };
        let auth_timeout = match self.auth_timeout {
            Some(v) => v,
            None => default_auth_timeout(),
        };
        Ok(
            TunnelConfig {
                name,
                certificate_file,
                certificate_key_file,
                bind_address,
                bind_port,
                address_tunnel,
                address_mask,
                users_file,
                auth_timeout,
            },
        )
    }
}


/// The environment layer wins for tunnels: wherever it sets a key, a
/// tunnel resolved from the file layer with the environment on top holds
/// the environment's value.
pub proof fn lemma_tunnel_environment_overrides_file(file: TunnelSource, env: TunnelSource)
    ensures
        ({
            let r = file.layered_spec(env).resolved_spec();
            r is Ok ==> {
                let t = r->Ok_0;
                &&& env.name is Some ==> t.name == env.name->Some_0
                &&& env.certificate_file is Some ==> t.certificate_file == env.certificate_file->Some_0
                &&& env.certificate_key_file is Some ==> t.certificate_key_file == env.certificate_key_file->Some_0
                &&& env.bind_address is Some ==> t.bind_address == env.bind_address->Some_0
                &&& env.bind_port is Some ==> t.bind_port == env.bind_port->Some_0
                &&& env.address_tunnel is Some ==> t.address_tunnel == env.address_tunnel->Some_0
                &&& env.address_mask is Some ==> t.address_mask == env.address_mask->Some_0
                &&& env.users_file is Some ==> t.users_file == env.users_file->Some_0
                &&& env.auth_timeout is Some ==> t.auth_timeout == env.auth_timeout->Some_0
            }
        }),
        file.resolved_spec() is Ok ==> file.layered_spec(env).resolved_spec() is Ok,
{
}

} // verus!
