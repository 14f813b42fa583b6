//! Key material: the client's long-lived identity keypair and the
//! symmetric shared key that a successful handshake derives.

use vstd::prelude::*;

use crate::identity::base58_encoded;
use crate::identity::encode_base58;

verus! {

/// Copies a byte vector element by element.
pub fn copy_bytes(v: &Vec<u8>) -> (r: Vec<u8>)
    ensures
        r@ == v@,
{
    let mut out: Vec<u8> = Vec::new();
    let mut i: usize = 0;
    while i < v.len()
        invariant
            i <= v@.len(),
            out@ == v@.subrange(0, i as int),
        decreases v@.len() - i,
    {
        out.push(v[i]);
        proof {
            assert(v@.subrange(0, i as int).push(v@[i as int]) =~= v@.subrange(
                0,
                i + 1 as int,
            ));
        }
        i += 1;
    }
    proof {
        assert(out@ =~= v@);
    }
    out
}

/// The symmetric key derived by a successful registration handshake.
///
/// A shared key is scoped to the one (client, gateway) pair that produced
/// it; it is moved, never implicitly copied, and serialising it for
/// persistence is an explicit step owned by the caller.
pub struct SharedKey {
    bytes: Vec<u8>,
}

impl View for SharedKey {
    type V = Seq<u8>;

    closed spec fn view(&self) -> Seq<u8> {
        self.bytes@
    }
}

impl SharedKey {
    /// Wraps raw key material handed back by the transport.
    pub fn from_bytes(bytes: Vec<u8>) -> (r: SharedKey)
        ensures
            r@ == bytes@,
    {
        SharedKey { bytes }
    }

    /// The raw key bytes.
    pub fn as_bytes(&self) -> (r: &Vec<u8>)
        ensures
            r@ == self@,
    {
        &self.bytes
    }

    /// The key encoded in base-58, the form in which a caller persists it.
    pub fn to_base58_string(&self) -> (r: String)
        ensures
            r@ == base58_encoded(self@),
    {
        encode_base58(self.bytes.as_slice())
    }
}

/// The client's long-lived asymmetric identity.
///
/// Created once per client initialisation, read-only for the whole
/// selection run, and persisted by the caller after success.
pub struct IdentityKeyPair {
    public_bytes: Vec<u8>,
    private_bytes: Vec<u8>,
}

impl IdentityKeyPair {
    pub closed spec fn public_view(&self) -> Seq<u8> {
        self.public_bytes@
    }

    pub closed spec fn private_view(&self) -> Seq<u8> {
        self.private_bytes@
    }

    /// Wraps the raw keypair material produced by the caller's key
    /// generator.
    pub fn from_bytes(public_bytes: Vec<u8>, private_bytes: Vec<u8>) -> (r: IdentityKeyPair)
        ensures
            r.public_view() == public_bytes@,
            r.private_view() == private_bytes@,
    {
        IdentityKeyPair { public_bytes, private_bytes }
    }

    /// The public half, as announced to gateways during registration.
    pub fn public_bytes(&self) -> (r: &Vec<u8>)
        ensures
            r@ == self.public_view(),
    {
        &self.public_bytes
    }

    /// The private half, handed only to the registration exchange.
    pub fn private_bytes(&self) -> (r: &Vec<u8>)
        ensures
            r@ == self.private_view(),
    {
        &self.private_bytes
    }
}

} // verus!
