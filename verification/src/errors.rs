//! The error taxonomy of the bootstrap core.
//!
//! Per-candidate failures (`HandshakeError`) are absorbed by the selection
//! loop; only `SelectError` and `ResolveError` cross the core boundary.

use vstd::prelude::*;

verus! {

/// Why a single registration attempt against one gateway candidate failed.
/// Every variant is recoverable at the selector level: the candidate is
/// abandoned and the iteration advances.
#[derive(Clone, Copy, Debug, PartialEq, Eq, Structural)]
pub enum HandshakeError {
    /// The advertised identity string does not decode to a public key.
    InvalidIdentity,
    /// The transport could not be opened, or opening it exceeded the
    /// attempt deadline.
    ConnectError,
    /// The registration exchange failed, or it exceeded the attempt
    /// deadline.
    RegisterError,
    /// The transport could not be shut down cleanly after a successful
    /// registration; the derived key is discarded.
    CloseError,
}

/// Terminal outcome of a whole selection run.
#[derive(Clone, Copy, Debug, PartialEq, Eq, Structural)]
pub enum SelectError {
    /// The topology snapshot could not be fetched or parsed; fatal, no
    /// candidate was ever tried.
    FetchError,
    /// The candidate list was empty, or every candidate failed.
    NoGatewayAvailable,
}

/// Terminal outcome of resolving one pinned gateway identity.
#[derive(Clone, Copy, Debug, PartialEq, Eq, Structural)]
pub enum ResolveError {
    /// No gateway in the topology snapshot carries the pinned identity.
    GatewayNotFound,
}

} // verus!
