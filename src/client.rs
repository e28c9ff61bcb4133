//! Client configuration and its resolution from layered sources.

use vstd::prelude::*;
use crate::config::{ConfigError, ConnectionConfig, ConnectionSource, DEFAULT_AUTH_TIMEOUT, Field, LogConfig, LogSource, default_auth_timeout, or_default, overlay, overlay_spec};

verus! {

/// The authentication settings of a client.
#[derive(Clone, Debug, PartialEq, Eq)]
pub struct ClientAuthenticationConfig {
    /// The username to authenticate as
    pub username: String,
    /// The password to authenticate with
    pub password: String,
    /// Files of certificates to trust, in order
    pub trusted_certificates: Vec<String>,
    /// Seconds between two sendings of the session token
    pub auth_interval: u32,
}

/// One layer of client authentication settings.
#[derive(Clone, Debug, PartialEq, Eq)]
pub struct ClientAuthenticationSource {
    pub username: Option<String>,
    pub password: Option<String>,
    pub trusted_certificates: Option<Vec<String>>,
    pub auth_interval: Option<u32>,
}

impl ClientAuthenticationSource {
    pub open spec fn layered_spec(self, over: ClientAuthenticationSource) -> ClientAuthenticationSource {
        ClientAuthenticationSource {
            username: overlay_spec(self.username, over.username),
            password: overlay_spec(self.password, over.password),
            trusted_certificates: overlay_spec(self.trusted_certificates, over.trusted_certificates),
            auth_interval: overlay_spec(self.auth_interval, over.auth_interval),
        }
    }

    /// Puts the layer `over` on top of this one, key by key.
    pub fn layered(self, over: ClientAuthenticationSource) -> (r: ClientAuthenticationSource)
        ensures
            r == self.layered_spec(over),
    {
        ClientAuthenticationSource {
            username: overlay(self.username, over.username),
            password: overlay(self.password, over.password),
            trusted_certificates: overlay(self.trusted_certificates, over.trusted_certificates),
            auth_interval: overlay(self.auth_interval, over.auth_interval),
        }
    }

    /// The first required field this layer lacks, in declaration order.
    pub open spec fn first_missing(self) -> Option<Field> {
        if self.username is None {
            Some(Field::Username)
        } else if self.password is None {
            Some(Field::Password)
        } else if self.trusted_certificates is None {
            Some(Field::TrustedCertificates)
        } else {
            None
        }
    }

    pub open spec fn resolved_spec(self) -> Result<ClientAuthenticationConfig, ConfigError> {
        match self.first_missing() {
            Some(f) => Err(ConfigError::MissingField(f)),
            None => Ok(
                ClientAuthenticationConfig {
                    username: self.username->Some_0,
                    password: self.password->Some_0,
                    trusted_certificates: self.trusted_certificates->Some_0,
                    auth_interval: or_default(self.auth_interval, DEFAULT_AUTH_TIMEOUT),
                },
            ),
        }
    }

    /// Fills in the default interval; fails with the first absent required
    /// field.
    pub fn resolve(self) -> (r: Result<ClientAuthenticationConfig, ConfigError>)
        ensures
            r == self.resolved_spec(),
    {
        let username = match self.username {
            Some(v) => v,
            None => {
                return Err(ConfigError::MissingField(Field::Username));
            },
        };
        let password = match self.password {
            Some(v) => v,
            None => {
                return Err(ConfigError::MissingField(Field::Password));
            },
        };
        let trusted_certificates = match self.trusted_certificates {
            Some(v) => v,
            None => {
                return Err(ConfigError::MissingField(Field::TrustedCertificates));
            },
        };
        let auth_interval = match self.auth_interval {
            Some(v) => v,
            None => default_auth_timeout(),
        };
        Ok(ClientAuthenticationConfig { username, password, trusted_certificates, auth_interval })
    }
}

/// The configuration of a client connecting to one server.
#[derive(Clone, Debug, PartialEq, Eq)]
pub struct ClientConfig {
    /// Where the server is to be reached
    pub connection_string: String,
    /// Authentication configuration
    pub authentication: ClientAuthenticationConfig,
    /// Connection configuration
    pub connection: ConnectionConfig,
    /// Logging configuration
    pub log: LogConfig,
}

/// One layer of client settings.
#[derive(Clone, Debug, PartialEq, Eq)]
pub struct ClientSource {
    pub connection_string: Option<String>,
    pub authentication: ClientAuthenticationSource,
    pub connection: ConnectionSource,
    pub log: LogSource,
}

impl ClientSource {
    pub open spec fn layered_spec(self, over: ClientSource) -> ClientSource {
        ClientSource {
            connection_string: overlay_spec(self.connection_string, over.connection_string),
            authentication: self.authentication.layered_spec(over.authentication),
            connection: self.connection.layered_spec(over.connection),
            log: self.log.layered_spec(over.log),
        }
    }

    /// Puts the layer `over` on top of this one, key by key.
    pub fn layered(self, over: ClientSource) -> (r: ClientSource)
        ensures
            r == self.layered_spec(over),
    {
        ClientSource {
            connection_string: overlay(self.connection_string, over.connection_string),
            authentication: self.authentication.layered(over.authentication),
            connection: self.connection.layered(over.connection),
            log: self.log.layered(over.log),
        }
    }

    /// The error resolution fails with, if any: the connection string, then
    /// authentication, then connection settings.
    pub open spec fn error_spec(self) -> Option<ConfigError> {
        if self.connection_string is None {
            Some(ConfigError::MissingField(Field::ConnectionString))
        } else {
            match self.authentication.resolved_spec() {
                Err(e) => Some(e),
                Ok(_) => match self.connection.resolved_spec() {
                    Err(e) => Some(e),
                    Ok(_) => None,
                },
            }
        }
    }

    /// Resolves a client configuration from its (layered) source.
    pub fn resolve(self) -> (r: Result<ClientConfig, ConfigError>)
        ensures
            match r {
                Ok(c) => self.error_spec() is None && c.connection_string == self.connection_string->Some_0
                    && Ok::<ClientAuthenticationConfig, ConfigError>(c.authentication) == self.authentication.resolved_spec()
                    && Ok::<ConnectionConfig, ConfigError>(c.connection) == self.connection.resolved_spec()
                    && c.log.level@ == self.log.level_spec(),
                Err(e) => self.error_spec() == Some(e),
            },
    {
        let connection_string = match self.connection_string {
            Some(v) => v,
            None => {
                return Err(ConfigError::MissingField(Field::ConnectionString));
            },
        };
        let authentication = match self.authentication.resolve() {
            Err(e) => {
                return Err(e);
            },
            Ok(a) => a,
        };
        let connection = match self.connection.resolve() {
            Err(e) => {
                return Err(e);
            },
            Ok(c) => c,
        };
        let log = self.log.resolve();
        Ok(ClientConfig { connection_string, authentication, connection, log })
    }
}


/// The environment layer wins for clients: wherever it sets a key, the
/// client configuration resolved from the file layer with the environment
/// on top holds the environment's value.
pub proof fn lemma_client_environment_overrides_file(file: ClientSource, env: ClientSource)
    ensures
        ({
            let l = file.layered_spec(env);
            l.error_spec() is None ==> {
                let a = l.authentication.resolved_spec()->Ok_0;
                let c = l.connection.resolved_spec()->Ok_0;
                &&& env.connection_string is Some ==> l.connection_string == env.connection_string
                &&& env.authentication.username is Some ==> a.username == env.authentication.username->Some_0
                &&& env.authentication.password is Some ==> a.password == env.authentication.password->Some_0
                &&& env.authentication.trusted_certificates is Some
                    ==> a.trusted_certificates == env.authentication.trusted_certificates->Some_0
                &&& env.authentication.auth_interval is Some ==> a.auth_interval == env.authentication.auth_interval->Some_0
                &&& env.connection.mtu is Some ==> c.mtu == env.connection.mtu->Some_0
                &&& env.connection.send_buffer_size is Some ==> c.send_buffer_size == env.connection.send_buffer_size->Some_0
                &&& env.connection.recv_buffer_size is Some ==> c.recv_buffer_size == env.connection.recv_buffer_size->Some_0
                &&& env.log.level is Some ==> l.log.level_spec() == env.log.level->Some_0@
            }
        }),
        file.error_spec() is None ==> file.layered_spec(env).error_spec() is None,
{
}

} // verus!
