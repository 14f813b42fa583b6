//! The directory-service request for announcing a gateway's presence.
//!
//! Only the request's own data contract lives here: which path it posts
//! to, and which payload it carries. Sending it over HTTP is the
//! caller's business.

use vstd::prelude::*;
use vstd::string::StringExecFns;

verus! {

/// The payload a gateway posts to announce itself to the directory.
pub struct GatewayPresence {
    pub location: String,
    pub client_listener: String,
    pub mixnet_listener: String,
    pub identity_key: String,
    pub sphinx_key: String,
    pub registered_clients: Vec<String>,
    pub last_seen: u64,
    pub version: String,
}

/// A POST request against the directory's gateway-presence endpoint.
pub struct Request {
    base_url: String,
    path: String,
    payload: GatewayPresence,
}

impl Request {
    /// The directory server this request is addressed to.
    pub closed spec fn base_url_spec(&self) -> Seq<char> {
        self.base_url@
    }

    /// The endpoint path under the directory server.
    pub closed spec fn path_spec(&self) -> Seq<char> {
        self.path@
    }

    /// The presence payload the request carries.
    pub closed spec fn payload_spec(&self) -> GatewayPresence {
        self.payload
    }

    /// Builds a presence request against `base_url`, always addressed to
    /// the gateway-presence endpoint.
    pub fn new(base_url: &str, payload: GatewayPresence) -> (r: Request)
        ensures
            r.base_url_spec() == base_url@,
            r.path_spec() == "/api/presence/gateways"@,
            r.payload_spec() == payload,
    {
        Request {
            base_url: base_url.to_owned(),
            path: "/api/presence/gateways".to_owned(),
            payload,
        }
    }

    /// The full URL to post to: the directory server followed by the
    /// endpoint path.
    pub fn url(&self) -> (r: String)
        ensures
            r@ == self.base_url_spec() + self.path_spec(),
    {
        self.base_url.clone().concat(self.path.as_str())
    }

    /// The payload to serialise as the request body.
    pub fn json_payload(&self) -> (r: &GatewayPresence)
        ensures
            *r == self.payload_spec(),
    {
        &self.payload
    }
}

} // verus!
