//! Construction of the QUIC transport configuration from derived
//! transport parameters.

use vstd::prelude::*;
use quinn::{IdleTimeout, MtuDiscoveryConfig, TransportConfig, VarInt};
use crate::client::ClientConfig;
use crate::config::{ConnectionConfig, TunnelConfig};
use crate::transport::{TransportError, TransportParams};

verus! {

#[verifier::external_type_specification]
#[verifier::external_body]
pub struct ExTransportConfig(TransportConfig);

#[verifier::external_type_specification]
#[verifier::external_body]
pub struct ExMtuDiscoveryConfig(MtuDiscoveryConfig);

#[verifier::external_type_specification]
#[verifier::external_body]
pub struct ExVarInt(VarInt);

#[verifier::external_type_specification]
#[verifier::external_body]
pub struct ExIdleTimeout(IdleTimeout);

/// The largest value a QUIC variable-length integer holds, plus one.
pub const VARINT_BOUND: u64 = 0x4000_0000_0000_0000;

/// The largest UDP payload, to which quinn caps the MTU discovery ceiling.
pub const MAX_UDP_PAYLOAD: u16 = 65527;

/// The value a variable-length integer holds.
pub uninterp spec fn varint_value(v: VarInt) -> u64;

/// The milliseconds an idle timeout stands for.
pub uninterp spec fn idle_ms(t: IdleTimeout) -> u64;

/// The idle timeout, in milliseconds, a transport configuration has set,
/// if one was set through `set_max_idle_timeout`.
pub uninterp spec fn idle_timeout_ms_of(c: TransportConfig) -> Option<u64>;

/// The ceiling of the MTU discovery settings a transport configuration
/// has set, if they were set through `set_mtu_discovery`.
pub uninterp spec fn mtu_bound_of(c: TransportConfig) -> Option<u16>;

/// The ceiling that MTU discovery settings hold.
pub uninterp spec fn mtu_config_bound(m: MtuDiscoveryConfig) -> u16;

/// A ceiling as quinn records it: capped at the largest UDP payload.
pub open spec fn capped(b: u16) -> u16 {
    if b <= MAX_UDP_PAYLOAD {
        b
    } else {
        MAX_UDP_PAYLOAD
    }
}

/// Relies on quinn's `VarInt::from_u64`, which succeeds exactly for values
/// below 2^62: the only inputs admitted here.
#[verifier::external_body]
fn varint_from_u64(x: u64) -> (r: VarInt)
    requires
        x < VARINT_BOUND,
    ensures
        varint_value(r) == x,
{
    VarInt::from_u64(x).expect("a value below 2^62 fits")
}

/// Relies on quinn's `From<VarInt> for IdleTimeout`: a timeout of that many
/// milliseconds.
#[verifier::external_body]
fn idle_timeout_from(v: VarInt) -> (r: IdleTimeout)
    ensures
        idle_ms(r) == varint_value(v),
{
    IdleTimeout::from(v)
}

/// Relies on quinn's `TransportConfig::default`.
#[verifier::external_body]
fn default_transport_config() -> (r: TransportConfig) {
    TransportConfig::default()
}

/// Relies on quinn's `TransportConfig::max_idle_timeout`, which records the
/// timeout and touches no other setting.
#[verifier::external_body]
fn set_max_idle_timeout(config: &mut TransportConfig, timeout: IdleTimeout)
    ensures
        idle_timeout_ms_of(*final(config)) == Some(idle_ms(timeout)),
        mtu_bound_of(*final(config)) == mtu_bound_of(*old(config)),
{
    config.max_idle_timeout(Some(timeout));
}

/// Relies on quinn's `MtuDiscoveryConfig::default`.
#[verifier::external_body]
fn default_mtu_discovery_config() -> (r: MtuDiscoveryConfig) {
    MtuDiscoveryConfig::default()
}

/// Relies on quinn's `MtuDiscoveryConfig::upper_bound`, which records the
/// bound capped at the largest UDP payload.
#[verifier::external_body]
fn set_mtu_upper_bound(config: &mut MtuDiscoveryConfig, bound: u16)
    ensures
        mtu_config_bound(*final(config)) == capped(bound),
{
    config.upper_bound(bound);
}

/// Relies on quinn's `TransportConfig::mtu_discovery_config`, which
/// records the MTU discovery settings and touches no other setting.
#[verifier::external_body]
fn set_mtu_discovery(config: &mut TransportConfig, mtu: MtuDiscoveryConfig)
    ensures
        mtu_bound_of(*final(config)) == Some(mtu_config_bound(mtu)),
        idle_timeout_ms_of(*final(config)) == idle_timeout_ms_of(*old(config)),
{
    config.mtu_discovery_config(Some(mtu));
}

/// The idle timeout of `params` as a QUIC variable-length integer; every
/// derived timeout fits, being at most twice `u32::MAX` seconds.
pub fn idle_timeout_varint(params: &TransportParams) -> (r: VarInt)
    requires
        params.idle_timeout_ms <= 2 * (u32::MAX as int) * 1000,
    ensures
        varint_value(r) == params.idle_timeout_ms,
{
    varint_from_u64(params.idle_timeout_ms)
}

/// Builds the transport configuration of a connection from its derived
/// parameters: the idle timeout and the ceiling of path-MTU discovery.
pub fn transport_config(params: &TransportParams) -> (r: TransportConfig)
    requires
        params.idle_timeout_ms <= 2 * (u32::MAX as int) * 1000,
    ensures
        idle_timeout_ms_of(r) == Some(params.idle_timeout_ms),
        mtu_bound_of(r) == Some(capped(params.mtu_upper_bound)),
{
    let mut config = default_transport_config();
    set_max_idle_timeout(&mut config, idle_timeout_from(idle_timeout_varint(params)));
    let mut mtu = default_mtu_discovery_config();
    set_mtu_upper_bound(&mut mtu, params.mtu_upper_bound);
    set_mtu_discovery(&mut config, mtu);
    config
}


impl ClientConfig {
    /// The client's QUIC transport configuration: idle timeout twice the
    /// authentication interval, MTU discovery up to the connection MTU plus
    /// `overhead`; an error exactly when that ceiling exceeds 16 bits.
    pub fn quinn_transport_config(&self, overhead: u16) -> (r: Result<TransportConfig, TransportError>)
        ensures
            r is Ok <==> self.connection.mtu + overhead <= u16::MAX,
            r is Err ==> r->Err_0 == TransportError::MtuOutOfRange,
            r is Ok ==> idle_timeout_ms_of(r->Ok_0) == Some((2 * self.authentication.auth_interval * 1000) as u64),
            r is Ok ==> mtu_bound_of(r->Ok_0) == Some(capped((self.connection.mtu + overhead) as u16)),
    {
        match self.transport_params(overhead) {
            Ok(params) => Ok(transport_config(&params)),
            Err(e) => Err(e),
        }
    }
}

impl TunnelConfig {
    /// A tunnel's QUIC transport configuration: idle timeout twice its
    /// authentication timeout, MTU discovery up to the shared connection MTU
    /// plus `overhead`; an error exactly when that ceiling exceeds 16 bits.
    pub fn quinn_transport_config(&self, connection: &ConnectionConfig, overhead: u16) -> (r: Result<TransportConfig, TransportError>)
        ensures
            r is Ok <==> connection.mtu + overhead <= u16::MAX,
            r is Err ==> r->Err_0 == TransportError::MtuOutOfRange,
            r is Ok ==> idle_timeout_ms_of(r->Ok_0) == Some((2 * self.auth_timeout * 1000) as u64),
            r is Ok ==> mtu_bound_of(r->Ok_0) == Some(capped((connection.mtu + overhead) as u16)),
    {
        match self.transport_params(connection, overhead) {
            Ok(params) => Ok(transport_config(&params)),
            Err(e) => Err(e),
        }
    }
}

} // verus!
