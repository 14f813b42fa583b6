use gateway_bootstrap::errors::HandshakeError;
use gateway_bootstrap::errors::SelectError;
use gateway_bootstrap::gateway::GatewayDescriptor;
use gateway_bootstrap::handshake::attempt;
use gateway_bootstrap::handshake::ConnectOutcome;
use gateway_bootstrap::handshake::RegisterOutcome;
use gateway_bootstrap::handshake::TransportBehavior;
use gateway_bootstrap::selector::filter_by_version;
use gateway_bootstrap::selector::select;
use gateway_bootstrap::selector::select_from_fetch;
use gateway_bootstrap::selector::ATTEMPT_TIMEOUT_MS;

fn descriptor(identity: &str, listener: &str) -> GatewayDescriptor {
    GatewayDescriptor {
        identity_key: identity.to_string(),
        client_listener: listener.to_string(),
        mixnet_listener: "ws://mix.example:1789".to_string(),
        location: "somewhere".to_string(),
        sphinx_key: "sphinx".to_string(),
        registered_clients: 0,
        last_seen: 0,
        version: "0.1.0".to_string(),
    }
}

fn valid_identity(seed: u8) -> String {
    bs58::encode([seed; 32]).into_string()
}

fn succeeding(key: &[u8]) -> TransportBehavior {
    TransportBehavior {
        connect: ConnectOutcome::Opened { duration_ms: 10 },
        register: RegisterOutcome::Accepted { key_bytes: key.to_vec(), duration_ms: 10 },
        close_succeeds: true,
    }
}

fn connect_refused() -> TransportBehavior {
    TransportBehavior {
        connect: ConnectOutcome::Refused,
        register: RegisterOutcome::Refused,
        close_succeeds: true,
    }
}

fn register_refused() -> TransportBehavior {
    TransportBehavior {
        connect: ConnectOutcome::Opened { duration_ms: 10 },
        register: RegisterOutcome::Refused,
        close_succeeds: true,
    }
}

#[test]
fn empty_list_fails_without_attempting() {
    let gateways: Vec<GatewayDescriptor> = Vec::new();
    let behaviors: Vec<TransportBehavior> = Vec::new();
    let (outcome, stats) = select(&gateways, &behaviors, ATTEMPT_TIMEOUT_MS);
    assert!(matches!(outcome, Err(SelectError::NoGatewayAvailable)));
    assert_eq!(stats.attempts, 0);
    assert_eq!(stats.connections_opened, 0);
    assert_eq!(stats.connections_closed, 0);
}

#[test]
fn candidates_tried_in_order_and_iteration_stops_at_first_success() {
    let gateways = vec![
        descriptor(&valid_identity(1), "addr-1"),
        descriptor(&valid_identity(2), "addr-2"),
        descriptor(&valid_identity(3), "addr-3"),
    ];
    let behaviors = vec![connect_refused(), succeeding(b"key-2"), succeeding(b"key-3")];
    let (outcome, stats) = select(&gateways, &behaviors, ATTEMPT_TIMEOUT_MS);
    let result = outcome.expect("second candidate should have been selected");
    // the first success ends the iteration: attempt count == index + 1
    assert_eq!(stats.attempts, 2);
    assert_eq!(result.gateway_identity, valid_identity(2));
    assert_eq!(result.gateway_listener, "addr-2");
    assert_eq!(result.shared_key.as_bytes().as_slice(), b"key-2");
}

#[test]
fn first_candidate_success_attempts_exactly_one() {
    let gateways = vec![
        descriptor(&valid_identity(4), "addr-4"),
        descriptor(&valid_identity(5), "addr-5"),
    ];
    let behaviors = vec![succeeding(b"key-4"), succeeding(b"key-5")];
    let (outcome, stats) = select(&gateways, &behaviors, ATTEMPT_TIMEOUT_MS);
    let result = outcome.expect("first candidate should have been selected");
    assert_eq!(stats.attempts, 1);
    assert_eq!(result.gateway_identity, valid_identity(4));
    assert_eq!(stats.connections_opened, 1);
    assert_eq!(stats.connections_closed, 1);
}

#[test]
fn all_malformed_identities_open_no_connection() {
    let gateways = vec![
        descriptor("not-base58", "addr-a"),
        descriptor("0OIl", "addr-b"),
        descriptor("", "addr-c"),
    ];
    // the transports would succeed, but no candidate ever reaches them
    let behaviors = vec![succeeding(b"k"), succeeding(b"k"), succeeding(b"k")];
    let (outcome, stats) = select(&gateways, &behaviors, ATTEMPT_TIMEOUT_MS);
    assert!(matches!(outcome, Err(SelectError::NoGatewayAvailable)));
    assert_eq!(stats.attempts, 3);
    assert_eq!(stats.connections_opened, 0);
    assert_eq!(stats.connections_closed, 0);
}

#[test]
fn connect_failure_then_success_leaves_no_open_handle() {
    let gateways = vec![
        descriptor(&valid_identity(10), "addr-a"),
        descriptor(&valid_identity(11), "addr-b"),
    ];
    let behaviors = vec![connect_refused(), succeeding(b"shared-key-b")];
    let (outcome, stats) = select(&gateways, &behaviors, ATTEMPT_TIMEOUT_MS);
    let result = outcome.expect("candidate B should have been selected");
    assert_eq!(result.gateway_identity, valid_identity(11));
    assert_eq!(result.gateway_listener, "addr-b");
    assert_eq!(result.shared_key.as_bytes().as_slice(), b"shared-key-b");
    // every opened transport ended closed
    assert_eq!(stats.connections_opened, stats.connections_closed);
    assert_eq!(stats.connections_opened, 1);
}

#[test]
fn deadline_overrun_counts_as_failure_and_loop_proceeds() {
    let slow = TransportBehavior {
        connect: ConnectOutcome::Opened { duration_ms: 1000 },
        register: RegisterOutcome::Accepted { key_bytes: b"late".to_vec(), duration_ms: 1000 },
        close_succeeds: true,
    };
    let gateways = vec![
        descriptor(&valid_identity(20), "addr-slow"),
        descriptor(&valid_identity(21), "addr-fast"),
    ];
    let behaviors = vec![slow, succeeding(b"fast-key")];
    let (outcome, stats) = select(&gateways, &behaviors, ATTEMPT_TIMEOUT_MS);
    let result = outcome.expect("the fast candidate should have been selected");
    assert_eq!(stats.attempts, 2);
    assert_eq!(result.gateway_identity, valid_identity(21));
    // the slow candidate's transport was opened and closed, then the fast one's
    assert_eq!(stats.connections_opened, 2);
    assert_eq!(stats.connections_closed, 2);
}

#[test]
fn deadline_overrun_is_attributed_to_the_stage_that_overran() {
    let gateway = descriptor(&valid_identity(22), "addr");
    let slow_register = TransportBehavior {
        connect: ConnectOutcome::Opened { duration_ms: 1000 },
        register: RegisterOutcome::Accepted { key_bytes: b"late".to_vec(), duration_ms: 1000 },
        close_succeeds: true,
    };
    let (outcome, stats) = attempt(&gateway, &slow_register, 1500);
    assert!(matches!(outcome, Err(HandshakeError::RegisterError)));
    assert!(stats.opened_connection);
    assert!(stats.closed_connection);

    let slow_connect = TransportBehavior {
        connect: ConnectOutcome::Opened { duration_ms: 1600 },
        register: RegisterOutcome::Accepted { key_bytes: b"late".to_vec(), duration_ms: 1 },
        close_succeeds: true,
    };
    let (outcome, stats) = attempt(&gateway, &slow_connect, 1500);
    assert!(matches!(outcome, Err(HandshakeError::ConnectError)));
    assert!(stats.opened_connection);
    assert!(stats.closed_connection);
}

#[test]
fn malformed_then_valid_candidate_is_selected_with_one_connection() {
    let valid = valid_identity(30);
    let gateways = vec![
        descriptor("not-base58", "addr-a"),
        descriptor(&valid, "addr-b"),
    ];
    let behaviors = vec![succeeding(b"unused"), succeeding(b"shared")];
    let (outcome, stats) = select(&gateways, &behaviors, ATTEMPT_TIMEOUT_MS);
    let result = outcome.expect("the valid candidate should have been selected");
    assert_eq!(result.gateway_identity, valid);
    assert_eq!(result.gateway_listener, "addr-b");
    assert_eq!(result.shared_key.as_bytes().as_slice(), b"shared");
    assert_eq!(stats.attempts, 2);
    assert_eq!(stats.connections_opened, 1);
    assert_eq!(stats.connections_closed, 1);
}

#[test]
fn malformed_identity_alone_never_connects() {
    let gateway = descriptor("not-base58", "addr-a");
    let (outcome, stats) = attempt(&gateway, &succeeding(b"unused"), 1500);
    assert!(matches!(outcome, Err(HandshakeError::InvalidIdentity)));
    assert!(!stats.opened_connection);
    assert!(!stats.closed_connection);
}

#[test]
fn register_failure_still_closes_the_transport() {
    let gateways = vec![descriptor(&valid_identity(40), "addr")];
    let behaviors = vec![register_refused()];
    let (outcome, stats) = select(&gateways, &behaviors, ATTEMPT_TIMEOUT_MS);
    assert!(matches!(outcome, Err(SelectError::NoGatewayAvailable)));
    assert_eq!(stats.attempts, 1);
    assert_eq!(stats.connections_opened, 1);
    assert_eq!(stats.connections_closed, 1);
}

#[test]
fn unclean_close_discards_the_derived_key() {
    let gateway = descriptor(&valid_identity(41), "addr");
    let behavior = TransportBehavior {
        connect: ConnectOutcome::Opened { duration_ms: 1 },
        register: RegisterOutcome::Accepted { key_bytes: b"derived".to_vec(), duration_ms: 1 },
        close_succeeds: false,
    };
    let (outcome, stats) = attempt(&gateway, &behavior, 1500);
    assert!(matches!(outcome, Err(HandshakeError::CloseError)));
    assert!(stats.opened_connection);
    assert!(stats.closed_connection);
}

#[test]
fn version_filter_keeps_compatible_gateways_in_order() {
    let gateways = vec![
        descriptor("gw-a", "addr-a"),
        descriptor("gw-b", "addr-b"),
        descriptor("gw-c", "addr-c"),
    ];
    let compatible = vec![true, false, true];
    let kept = filter_by_version(&gateways, &compatible);
    assert_eq!(kept.len(), 2);
    assert_eq!(kept[0].identity_key, "gw-a");
    assert_eq!(kept[1].identity_key, "gw-c");
}

#[test]
fn version_filter_can_empty_the_list() {
    let gateways = vec![descriptor("gw-a", "addr-a")];
    let compatible = vec![false];
    let kept = filter_by_version(&gateways, &compatible);
    assert!(kept.is_empty());
}

#[test]
fn failed_fetch_is_fatal_before_any_candidate() {
    let behaviors: Vec<TransportBehavior> = Vec::new();
    let (outcome, stats) = select_from_fetch(&None, &behaviors, ATTEMPT_TIMEOUT_MS);
    assert!(matches!(outcome, Err(SelectError::FetchError)));
    assert_eq!(stats.attempts, 0);
    assert_eq!(stats.connections_opened, 0);
}

#[test]
fn successful_fetch_selects_like_select() {
    let gateways = vec![descriptor(&valid_identity(50), "addr")];
    let behaviors = vec![succeeding(b"key-50")];
    let (outcome, stats) = select_from_fetch(&Some(gateways), &behaviors, ATTEMPT_TIMEOUT_MS);
    let result = outcome.expect("the only candidate should have been selected");
    assert_eq!(result.gateway_identity, valid_identity(50));
    assert_eq!(stats.attempts, 1);
}
