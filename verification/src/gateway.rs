//! The directory's description of one candidate gateway.

use vstd::prelude::*;

verus! {

/// One gateway as advertised by the directory's topology snapshot.
///
/// `identity_key` either decodes to a valid public key or the descriptor
/// is unusable for handshake purposes: such a candidate is skipped, never
/// fatal to the selection as a whole.
pub struct GatewayDescriptor {
    /// Encoded long-term public key, the gateway's identity.
    pub identity_key: String,
    /// Network address clients connect to for the handshake.
    pub client_listener: String,
    /// Network address the mixnet itself delivers packets to.
    pub mixnet_listener: String,
    /// Self-reported location label.
    pub location: String,
    /// Encoded key used by the packet format, irrelevant to registration.
    pub sphinx_key: String,
    /// How many clients the gateway reports as registered.
    pub registered_clients: u64,
    /// When the directory last saw the gateway, as a timestamp.
    pub last_seen: u64,
    /// Software version the gateway announces.
    pub version: String,
}

impl GatewayDescriptor {
    /// An exact copy of the descriptor.
    pub fn duplicate(&self) -> (r: GatewayDescriptor)
        ensures
            r == *self,
    {
        GatewayDescriptor {
            identity_key: self.identity_key.clone(),
            client_listener: self.client_listener.clone(),
            mixnet_listener: self.mixnet_listener.clone(),
            location: self.location.clone(),
            sphinx_key: self.sphinx_key.clone(),
            registered_clients: self.registered_clients,
            last_seen: self.last_seen,
            version: self.version.clone(),
        }
    }
}

} // verus!
