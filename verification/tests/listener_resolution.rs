use gateway_bootstrap::errors::ResolveError;
use gateway_bootstrap::gateway::GatewayDescriptor;
use gateway_bootstrap::resolver::resolve;

fn descriptor(identity: &str, listener: &str) -> GatewayDescriptor {
    GatewayDescriptor {
        identity_key: identity.to_string(),
        client_listener: listener.to_string(),
        mixnet_listener: "ws://mix.example:1789".to_string(),
        location: "somewhere".to_string(),
        sphinx_key: "sphinx".to_string(),
        registered_clients: 0,
        last_seen: 0,
        version: "0.1.0".to_string(),
    }
}

#[test]
fn resolve_returns_the_exact_listener_of_a_matching_identity() {
    let gateways = vec![
        descriptor("gw-one", "ws://one.example:9000"),
        descriptor("gw-two", "ws://two.example:9000"),
    ];
    let listener = resolve(&gateways, "gw-two").expect("the pinned identity is present");
    assert_eq!(listener, "ws://two.example:9000");
}

#[test]
fn resolve_returns_the_first_match() {
    let gateways = vec![
        descriptor("gw-dup", "ws://first.example:9000"),
        descriptor("gw-dup", "ws://second.example:9000"),
    ];
    let listener = resolve(&gateways, "gw-dup").expect("the pinned identity is present");
    assert_eq!(listener, "ws://first.example:9000");
}

#[test]
fn resolve_fails_for_an_unknown_identity() {
    let gateways = vec![descriptor("gw-one", "ws://one.example:9000")];
    assert!(matches!(
        resolve(&gateways, "gw-unknown"),
        Err(ResolveError::GatewayNotFound)
    ));
}

#[test]
fn resolve_fails_on_an_empty_topology() {
    let gateways: Vec<GatewayDescriptor> = Vec::new();
    assert!(matches!(
        resolve(&gateways, "gw-one"),
        Err(ResolveError::GatewayNotFound)
    ));
}
