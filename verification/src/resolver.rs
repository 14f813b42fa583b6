//! Listener resolution for a pinned gateway identity: a plain lookup in a
//! topology snapshot, no handshake and no key material.

use vstd::prelude::*;

use crate::errors::ResolveError;
use crate::gateway::GatewayDescriptor;

verus! {

/// Whether some gateway in the snapshot carries the pinned identity.
pub open spec fn has_identity(gs: Seq<GatewayDescriptor>, pinned: Seq<char>) -> bool {
    exists|i: int| 0 <= i < gs.len() && #[trigger] gs[i].identity_key@ == pinned
}

/// Looks the pinned identity up in the snapshot, in order, and returns
/// the first matching gateway's client listener address.
///
/// Succeeds exactly when some gateway carries the identity; otherwise it
/// fails with `GatewayNotFound`, the empty snapshot included. The
/// returned listener is exactly the one the first matching descriptor
/// advertises.
pub fn resolve(gateways: &Vec<GatewayDescriptor>, pinned_identity: &str) -> (r: Result<
    String,
    ResolveError,
>)
    ensures
        (r is Ok) == has_identity(gateways@, pinned_identity@),
        r matches Ok(listener) ==> exists|i: int|
            0 <= i < gateways@.len() && #[trigger] gateways@[i].identity_key@ == pinned_identity@
                && (forall|j: int| 0 <= j < i ==> gateways@[j].identity_key@ != pinned_identity@)
                && listener@ == gateways@[i].client_listener@,
        r matches Err(e) ==> e == ResolveError::GatewayNotFound,
{
    let pinned: String = pinned_identity.to_owned();
    let mut k: usize = 0;
    while k < gateways.len()
        invariant
            k <= gateways@.len(),
            pinned@ == pinned_identity@,
            forall|j: int| 0 <= j < k ==> gateways@[j].identity_key@ != pinned_identity@,
        decreases gateways@.len() - k,
    {
        if gateways[k].identity_key == pinned {
            return Ok(gateways[k].client_listener.clone());
        }
        k = k + 1;
    }
    Err(ResolveError::GatewayNotFound)
}

} // verus!
