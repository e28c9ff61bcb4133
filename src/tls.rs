//! The certificate trust store of the client role.

use vstd::prelude::*;
use rustls::{Certificate, RootCertStore};

verus! {

#[verifier::external_type_specification]
#[verifier::external_body]
pub struct ExRootCertStore(RootCertStore);

/// Whether DER bytes parse as a trust anchor, as rustls judges it.
pub uninterp spec fn is_trust_anchor(der: Seq<u8>) -> bool;

/// How many trust anchors a store holds.
pub uninterp spec fn root_count(s: RootCertStore) -> nat;

/// Why a trust store could not be built.
#[derive(Clone, Copy, Debug, PartialEq, Eq, Structural)]
pub enum TrustError {
    /// The certificate at this position is not a valid trust anchor.
    InvalidRoot(usize),
}

/// Relies on rustls's `RootCertStore::empty`: a store without roots.
#[verifier::external_body]
fn empty_root_store() -> (r: RootCertStore)
    ensures
        root_count(r) == 0,
{
    RootCertStore::empty()
}

/// Relies on rustls's `RootCertStore::add`: it succeeds, keeping the root,
/// exactly when the DER bytes parse as a trust anchor; otherwise the store
/// is left as it was.
#[verifier::external_body]
fn add_root(store: &mut RootCertStore, der: &Vec<u8>) -> (r: bool)
    ensures
        r == is_trust_anchor(der@),
        root_count(*final(store)) == root_count(*old(store)) + if r {
            1int
        } else {
            0int
        },
{
    store.add(&Certificate(der.clone())).is_ok()
}

/// Builds a trust store from DER-encoded certificates, in order; fails at
/// the first one that is not a valid trust anchor.
pub fn root_store(ders: &Vec<Vec<u8>>) -> (r: Result<RootCertStore, TrustError>)
    ensures
        r is Ok <==> forall|i: int| 0 <= i < ders@.len() ==> is_trust_anchor(#[trigger] ders@[i]@),
        match r {
            Ok(s) => root_count(s) == ders@.len(),
            Err(TrustError::InvalidRoot(k)) => k < ders@.len() && !is_trust_anchor(ders@[k as int]@)
                && forall|i: int| 0 <= i < k ==> is_trust_anchor(#[trigger] ders@[i]@),
        },
{
    let mut store = empty_root_store();
    let mut i: usize = 0;
    while i < ders.len()
        invariant
            i <= ders@.len(),
            root_count(store) == i,
            forall|j: int| 0 <= j < i ==> is_trust_anchor(#[trigger] ders@[j]@),
        decreases ders.len() - i,
    {
        if !add_root(&mut store, &ders[i]) {
            return Err(TrustError::InvalidRoot(i));
        }
        i = i + 1;
    }
    Ok(store)
}

} // verus!
