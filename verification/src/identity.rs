//! Identity codec: decoding a gateway's advertised identity string into a
//! verifiable public key.
//!
//! Decoding is pure and stateless: a malformed encoding fails
//! deterministically and is never fatal to the caller's broader workflow.

use vstd::prelude::*;

use crate::errors::HandshakeError;

verus! {

/// The bytes that the base-58 digits of `s` stand for, or `None` when `s`
/// is not a well-formed base-58 string.
pub uninterp spec fn base58_decoded(s: Seq<char>) -> Option<Seq<u8>>;

/// The base-58 digits that stand for the bytes `b`.
pub uninterp spec fn base58_encoded(b: Seq<u8>) -> Seq<char>;

/// Relies on bs58::decode(..).into_vec() (Bitcoin alphabet): the decoded
/// bytes are a function of the input characters alone, and decoding fails
/// exactly on inputs that are not well-formed base-58.
#[verifier::external_body]
fn decode_base58(s: &str) -> (r: Option<Vec<u8>>)
    ensures
        (r is Some) == (base58_decoded(s@) is Some),
        r matches Some(v) ==> Some(v@) == base58_decoded(s@),
{
    bs58::decode(s).into_vec().ok()
}

/// Relies on bs58::encode(..).into_string() (Bitcoin alphabet): the digits
/// are a function of the input bytes alone.
#[verifier::external_body]
pub(crate) fn encode_base58(b: &[u8]) -> (r: String)
    ensures
        r@ == base58_encoded(b@),
{
    bs58::encode(b).into_string()
}

/// An identity string is usable for handshake purposes exactly when it is
/// well-formed base-58 and its decoded form has the size of a public key.
pub open spec fn identity_ok(s: Seq<char>) -> bool {
    base58_decoded(s) matches Some(b) && b.len() == 32
}

/// A gateway's long-term identity, decoded into its 32 raw key bytes.
pub struct PublicKey {
    bytes: Vec<u8>,
}

impl View for PublicKey {
    type V = Seq<u8>;

    closed spec fn view(&self) -> Seq<u8> {
        self.bytes@
    }
}

impl PublicKey {
    /// Every decoded key holds exactly 32 bytes.
    pub closed spec fn wf(&self) -> bool {
        self.bytes@.len() == 32
    }

    /// The raw key bytes.
    pub fn as_bytes(&self) -> (r: &Vec<u8>)
        ensures
            r@ == self@,
    {
        &self.bytes
    }
}

/// Decodes a gateway's advertised identity string into its public key.
///
/// Succeeds exactly on well-formed base-58 strings that decode to 32
/// bytes; every other input fails with `InvalidIdentity`.
pub fn decode(identity: &str) -> (r: Result<PublicKey, HandshakeError>)
    ensures
        (r is Ok) == identity_ok(identity@),
        r matches Ok(pk) ==> pk.wf() && Some(pk@) == base58_decoded(identity@),
        r matches Err(e) ==> e == HandshakeError::InvalidIdentity,
{
    match decode_base58(identity) {
        Some(bytes) => {
            if bytes.len() == 32 {
                Ok(PublicKey { bytes })
            } else {
                Err(HandshakeError::InvalidIdentity)
            }
        },
        None => Err(HandshakeError::InvalidIdentity),
    }
}

/// Decoding is deterministic: identical identity strings always decode to
/// the same key bytes, or fail in the same way.
pub proof fn lemma_decode_deterministic(a: Seq<char>, b: Seq<char>)
    requires
        a == b,
    ensures
        identity_ok(a) == identity_ok(b),
        base58_decoded(a) == base58_decoded(b),
{
}

} // verus!
