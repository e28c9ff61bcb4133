//! Derivation of the transport parameters of each role from the typed
//! configuration, and assembly of the client's trust roots.

use vstd::prelude::*;
use crate::client::ClientConfig;
use crate::config::{ConnectionConfig, TunnelConfig};

verus! {

/// Milliseconds in a second: the transport counts timeouts in milliseconds.
pub const MILLIS_PER_SECOND: u64 = 1000;

/// The values a transport configuration is built from.
#[derive(Clone, Copy, Debug, PartialEq, Eq, Structural)]
pub struct TransportParams {
    /// Inactivity, in milliseconds, after which a connection is dropped
    pub idle_timeout_ms: u64,
    /// The ceiling of path-MTU discovery, in bytes
    pub mtu_upper_bound: u16,
}

/// Why transport parameters could not be derived.
#[derive(Clone, Copy, Debug, PartialEq, Eq, Structural)]
pub enum TransportError {
    /// The MTU plus the per-packet overhead does not fit in 16 bits.
    MtuOutOfRange,
}

/// The idle timeout for an authentication interval or timeout of
/// `seconds`: twice that, so one missed keep-alive is survived.
pub open spec fn idle_timeout_spec(seconds: u32) -> int {
    2 * seconds * 1000
}

/// The idle timeout, in milliseconds, for `seconds`.
pub fn idle_timeout_ms(seconds: u32) -> (r: u64)
    ensures
        r == idle_timeout_spec(seconds),
{
    (seconds as u64) * 2 * MILLIS_PER_SECOND
}

/// The ceiling of path-MTU discovery: the tunnel MTU plus the fixed
/// per-packet overhead; an error where that exceeds 16 bits.
pub fn mtu_upper_bound(mtu: u32, overhead: u16) -> (r: Result<u16, TransportError>)
    ensures
        r is Ok <==> mtu + overhead <= u16::MAX,
        r is Ok ==> r->Ok_0 == mtu + overhead,
        r is Err ==> r == Err::<u16, TransportError>(TransportError::MtuOutOfRange),
{
    if mtu > (u16::MAX - overhead) as u32 {
        Err(TransportError::MtuOutOfRange)
    } else {
        Ok((mtu as u16) + overhead)
    }
}

/// The transport parameters for a timeout of `seconds`, an MTU and the
/// per-packet overhead.
pub open spec fn transport_params_spec(seconds: u32, mtu: u32, overhead: u16) -> Result<TransportParams, TransportError> {
    if mtu + overhead <= u16::MAX {
        Ok(TransportParams { idle_timeout_ms: idle_timeout_spec(seconds) as u64, mtu_upper_bound: (mtu + overhead) as u16 })
    } else {
        Err(TransportError::MtuOutOfRange)
    }
}

fn derive_params(seconds: u32, mtu: u32, overhead: u16) -> (r: Result<TransportParams, TransportError>)
    ensures
        r == transport_params_spec(seconds, mtu, overhead),
{
    let mtu_upper_bound = match mtu_upper_bound(mtu, overhead) {
        Err(e) => {
            return Err(e);
        },
        Ok(b) => b,
    };
    Ok(TransportParams { idle_timeout_ms: idle_timeout_ms(seconds), mtu_upper_bound })
}

impl ClientConfig {
    /// The client's transport parameters: the idle timeout is twice the
    /// authentication interval, the MTU ceiling the connection MTU plus
    /// `overhead`.
    pub fn transport_params(&self, overhead: u16) -> (r: Result<TransportParams, TransportError>)
        ensures
            r == transport_params_spec(self.authentication.auth_interval, self.connection.mtu, overhead),
            r is Ok ==> r->Ok_0.idle_timeout_ms == 2 * self.authentication.auth_interval * 1000,
            r is Ok ==> r->Ok_0.mtu_upper_bound == self.connection.mtu + overhead,
    {
        derive_params(self.authentication.auth_interval, self.connection.mtu, overhead)
    }
}

impl TunnelConfig {
    /// A tunnel's transport parameters: the idle timeout is twice its
    /// authentication timeout, the MTU ceiling the server-wide connection
    /// MTU plus `overhead`.
    pub fn transport_params(&self, connection: &ConnectionConfig, overhead: u16) -> (r: Result<TransportParams, TransportError>)
        ensures
            r == transport_params_spec(self.auth_timeout, connection.mtu, overhead),
            r is Ok ==> r->Ok_0.idle_timeout_ms == 2 * self.auth_timeout * 1000,
            r is Ok ==> r->Ok_0.mtu_upper_bound == connection.mtu + overhead,
    {
        derive_params(self.auth_timeout, connection.mtu, overhead)
    }
}

/// The certificates of every load that succeeded, in order.
pub open spec fn loaded_roots<C, E>(loads: Seq<Result<Vec<C>, E>>) -> Seq<C>
    decreases loads.len(),
{
    if loads.len() == 0 {
        seq![]
    } else {
        let head = match loads[0] {
            Ok(v) => v@,
            Err(_) => seq![],
        };
        head + loaded_roots(loads.drop_first())
    }
}

/// The positions of the loads that failed, counted from `start`.
pub open spec fn failed_loads<C, E>(loads: Seq<Result<Vec<C>, E>>, start: int) -> Seq<int>
    decreases loads.len(),
{
    if loads.len() == 0 {
        seq![]
    } else {
        let head = if loads[0] is Err {
            seq![start]
        } else {
            seq![]
        };
        head + failed_loads(loads.drop_first(), start + 1)
    }
}

/// Builds the client's trust roots from the results of loading each
/// trusted-certificate file: failed loads are skipped, and their positions
/// returned so that each can be reported.
pub fn assemble_trust_roots<C, E>(loads: Vec<Result<Vec<C>, E>>) -> (r: (Vec<C>, Vec<usize>))
    ensures
        r.0@ == loaded_roots(loads@),
        r.1@.map_values(|i: usize| i as int) == failed_loads(loads@, 0),
{
    let mut rest = loads;
    let mut roots: Vec<C> = Vec::new();
    let mut failed: Vec<usize> = Vec::new();
    let mut pos: usize = 0;
    while rest.len() > 0
        invariant
            pos + rest.len() == loads.len(),
            roots@ + loaded_roots(rest@) == loaded_roots(loads@),
            failed@.map_values(|i: usize| i as int) + failed_loads(rest@, pos as int) == failed_loads(loads@, 0),
        decreases rest.len(),
    {
        let ghost rest0 = rest@;
        let ghost roots0 = roots@;
        let ghost failed0 = failed@.map_values(|i: usize| i as int);
        let load = rest.remove(0);
        proof {
            assert(rest@ =~= rest0.drop_first());
        }
        match load {
            Ok(mut certs) => {
                roots.append(&mut certs);
                proof {
                    assert(roots@ + loaded_roots(rest@) =~= roots0 + loaded_roots(rest0));
                    assert(failed@.map_values(|i: usize| i as int) + failed_loads(rest@, pos + 1) =~= failed0 + failed_loads(rest0, pos as int));
                }
            },
            Err(_) => {
                failed.push(pos);
                proof {
                    assert(roots@ + loaded_roots(rest@) =~= roots0 + loaded_roots(rest0));
                    assert(failed@.map_values(|i: usize| i as int) =~= failed0.push(pos as int));
                    assert(failed@.map_values(|i: usize| i as int) + failed_loads(rest@, pos + 1) =~= failed0 + failed_loads(rest0, pos as int));
                }
            },
        }
        pos = pos + 1;
    }
    proof {
        assert(roots@ + seq![] =~= roots@);
        assert(failed@.map_values(|i: usize| i as int) + seq![] =~= failed@.map_values(|i: usize| i as int));
    }
    (roots, failed)
}

} // verus!
