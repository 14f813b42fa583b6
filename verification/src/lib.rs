//! Client-side gateway bootstrap: discovering candidate gateway relays,
//! verifying their advertised identities, and performing the one-shot
//! registration handshake that yields a shared key before ordinary
//! traffic can flow.

pub mod directory;
pub mod errors;
pub mod gateway;
pub mod handshake;
pub mod identity;
pub mod keys;
pub mod resolver;
pub mod selector;

pub use errors::HandshakeError;
pub use errors::ResolveError;
pub use errors::SelectError;
