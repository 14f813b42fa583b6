//! The per-candidate registration handshake, as an explicit state machine:
//! validate identity, connect, register, close.
//!
//! The machine itself makes every decision; the transport work (opening a
//! connection, running the registration exchange, shutting the connection
//! down) is performed by a runner that carries out the [`HandshakeAction`]
//! the machine emits and feeds the outcome back as a [`TransportEvent`].
//! The fixed per-attempt timeout bounds the combined connect and register
//! duration; exceeding it counts as the corresponding stage's failure.
//! Whatever happens, an opened transport is closed before the attempt
//! ends: the handshake is a one-shot provisioning exchange, never a
//! session.

use vstd::prelude::*;

use crate::errors::HandshakeError;
use crate::gateway::GatewayDescriptor;
use crate::identity;
use crate::identity::identity_ok;
use crate::keys::copy_bytes;
use crate::keys::SharedKey;

verus! {

/// The states of one registration attempt.
pub enum HandshakeState {
    /// The attempt has not started yet.
    Init,
    /// The advertised identity decoded to a public key.
    IdentityValidated,
    /// The transport is open; `spent_ms` of the attempt budget is used.
    Connected { spent_ms: u64 },
    /// The shared key was derived; the transport is still open.
    Registered { key: SharedKey },
    /// A stage failed while the transport was open; it must still be
    /// closed, best effort, before the attempt ends with `kind`.
    ClosingAfterFailure { kind: HandshakeError },
    /// Terminal success: the transport was shut down cleanly.
    Closed { key: SharedKey },
    /// Terminal failure.
    Failed { kind: HandshakeError },
}

/// The mathematical value of a [`HandshakeState`]: key material is seen
/// as the byte sequence it holds.
pub enum StateModel {
    Init,
    IdentityValidated,
    Connected { spent_ms: u64 },
    Registered { key: Seq<u8> },
    ClosingAfterFailure { kind: HandshakeError },
    Closed { key: Seq<u8> },
    Failed { kind: HandshakeError },
}

impl View for HandshakeState {
    type V = StateModel;

    open spec fn view(&self) -> StateModel {
        match self {
            HandshakeState::Init => StateModel::Init,
            HandshakeState::IdentityValidated => StateModel::IdentityValidated,
            HandshakeState::Connected { spent_ms } => StateModel::Connected {
                spent_ms: *spent_ms,
            },
            HandshakeState::Registered { key } => StateModel::Registered { key: key@ },
            HandshakeState::ClosingAfterFailure { kind } => StateModel::ClosingAfterFailure {
                kind: *kind,
            },
            HandshakeState::Closed { key } => StateModel::Closed { key: key@ },
            HandshakeState::Failed { kind } => StateModel::Failed { kind: *kind },
        }
    }
}

/// What the runner reports back after carrying out an action.
/// Durations are measured from the start of the attempt's connect stage,
/// one stage at a time.
pub enum TransportEvent {
    ConnectSucceeded { duration_ms: u64 },
    ConnectFailed,
    RegisterSucceeded { key: SharedKey, duration_ms: u64 },
    RegisterFailed,
    CloseSucceeded,
    CloseFailed,
}

/// The mathematical value of a [`TransportEvent`].
pub enum EventModel {
    ConnectSucceeded { duration_ms: u64 },
    ConnectFailed,
    RegisterSucceeded { key: Seq<u8>, duration_ms: u64 },
    RegisterFailed,
    CloseSucceeded,
    CloseFailed,
}

impl View for TransportEvent {
    type V = EventModel;

    open spec fn view(&self) -> EventModel {
        match self {
            TransportEvent::ConnectSucceeded { duration_ms } => EventModel::ConnectSucceeded {
                duration_ms: *duration_ms,
            },
            TransportEvent::ConnectFailed => EventModel::ConnectFailed,
            TransportEvent::RegisterSucceeded { key, duration_ms } => {
                EventModel::RegisterSucceeded { key: key@, duration_ms: *duration_ms }
            },
            TransportEvent::RegisterFailed => EventModel::RegisterFailed,
            TransportEvent::CloseSucceeded => EventModel::CloseSucceeded,
            TransportEvent::CloseFailed => EventModel::CloseFailed,
        }
    }
}

/// What the machine asks the runner to do next.
#[derive(Clone, Copy, Debug, PartialEq, Eq, Structural)]
pub enum HandshakeAction {
    /// Open a transport to the candidate's client listener.
    Connect,
    /// Run the registration exchange with the client's identity keypair.
    Register,
    /// Shut the transport down.
    Close,
    /// The attempt is over; nothing is left to do.
    Stop,
}

/// The states in which the transport is open.
pub open spec fn transport_open(s: StateModel) -> bool {
    ||| s matches StateModel::Connected { .. }
    ||| s matches StateModel::Registered { .. }
    ||| s matches StateModel::ClosingAfterFailure { .. }
}

/// The states in which the attempt is over.
pub open spec fn is_terminal(s: StateModel) -> bool {
    s matches StateModel::Closed { .. } || s matches StateModel::Failed { .. }
}

/// The action the machine emits on entering a state.
pub open spec fn entry_action(s: StateModel) -> HandshakeAction {
    match s {
        StateModel::Init => HandshakeAction::Stop,
        StateModel::IdentityValidated => HandshakeAction::Connect,
        StateModel::Connected { .. } => HandshakeAction::Register,
        StateModel::Registered { .. } => HandshakeAction::Close,
        StateModel::ClosingAfterFailure { .. } => HandshakeAction::Close,
        StateModel::Closed { .. } => HandshakeAction::Stop,
        StateModel::Failed { .. } => HandshakeAction::Stop,
    }
}

/// Which events the protocol allows in which states: the runner only ever
/// reports the outcome of the action the machine asked for.
pub open spec fn step_enabled(s: StateModel, e: EventModel) -> bool {
    match (s, e) {
        (StateModel::IdentityValidated, EventModel::ConnectSucceeded { .. }) => true,
        (StateModel::IdentityValidated, EventModel::ConnectFailed) => true,
        (StateModel::Connected { .. }, EventModel::RegisterSucceeded { .. }) => true,
        (StateModel::Connected { .. }, EventModel::RegisterFailed) => true,
        (StateModel::Registered { .. }, EventModel::CloseSucceeded) => true,
        (StateModel::Registered { .. }, EventModel::CloseFailed) => true,
        (StateModel::ClosingAfterFailure { .. }, EventModel::CloseSucceeded) => true,
        (StateModel::ClosingAfterFailure { .. }, EventModel::CloseFailed) => true,
        _ => false,
    }
}

/// A reachable state never records more spent budget than the timeout.
pub open spec fn state_wf(s: StateModel, timeout_ms: u64) -> bool {
    s matches StateModel::Connected { spent_ms } ==> spent_ms <= timeout_ms
}

/// The transition relation of the handshake.
pub open spec fn step_model(s: StateModel, e: EventModel, timeout_ms: u64) -> StateModel {
    match (s, e) {
        (StateModel::IdentityValidated, EventModel::ConnectSucceeded { duration_ms }) => {
            if duration_ms <= timeout_ms {
                StateModel::Connected { spent_ms: duration_ms }
            } else {
                StateModel::ClosingAfterFailure { kind: HandshakeError::ConnectError }
            }
        },
        (StateModel::IdentityValidated, EventModel::ConnectFailed) => StateModel::Failed {
            kind: HandshakeError::ConnectError,
        },
        (
            StateModel::Connected { spent_ms },
            EventModel::RegisterSucceeded { key, duration_ms },
        ) => {
            if duration_ms <= timeout_ms - spent_ms {
                StateModel::Registered { key }
            } else {
                StateModel::ClosingAfterFailure { kind: HandshakeError::RegisterError }
            }
        },
        (StateModel::Connected { .. }, EventModel::RegisterFailed) => {
            StateModel::ClosingAfterFailure { kind: HandshakeError::RegisterError }
        },
        (StateModel::Registered { key }, EventModel::CloseSucceeded) => StateModel::Closed { key },
        (StateModel::Registered { .. }, EventModel::CloseFailed) => StateModel::Failed {
            kind: HandshakeError::CloseError,
        },
        (StateModel::ClosingAfterFailure { kind }, EventModel::CloseSucceeded) => {
            StateModel::Failed { kind }
        },
        (StateModel::ClosingAfterFailure { kind }, EventModel::CloseFailed) => StateModel::Failed {
            kind,
        },
        _ => s,
    }
}

/// Starts an attempt against one candidate: validates the advertised
/// identity and, when it decodes, asks the runner to connect.
pub fn begin(gateway: &GatewayDescriptor) -> (r: (HandshakeState, HandshakeAction))
    ensures
        identity_ok(gateway.identity_key@) ==> r.0@ == StateModel::IdentityValidated,
        !identity_ok(gateway.identity_key@) ==> r.0@ == (StateModel::Failed {
            kind: HandshakeError::InvalidIdentity,
        }),
        r.1 == entry_action(r.0@),
        !transport_open(r.0@),
{
    match identity::decode(gateway.identity_key.as_str()) {
        Ok(_) => (HandshakeState::IdentityValidated, HandshakeAction::Connect),
        Err(_) => (
            HandshakeState::Failed { kind: HandshakeError::InvalidIdentity },
            HandshakeAction::Stop,
        ),
    }
}

/// Advances the machine by one event reported by the runner and emits the
/// next action to carry out.
pub fn step(state: HandshakeState, event: TransportEvent, timeout_ms: u64) -> (r: (
    HandshakeState,
    HandshakeAction,
))
    requires
        state_wf(state@, timeout_ms),
        step_enabled(state@, event@),
    ensures
        r.0@ == step_model(state@, event@, timeout_ms),
        r.1 == entry_action(r.0@),
        state_wf(r.0@, timeout_ms),
{
    match (state, event) {
        (HandshakeState::IdentityValidated, TransportEvent::ConnectSucceeded { duration_ms }) => {
            if duration_ms <= timeout_ms {
                (HandshakeState::Connected { spent_ms: duration_ms }, HandshakeAction::Register)
            } else {
                (
                    HandshakeState::ClosingAfterFailure { kind: HandshakeError::ConnectError },
                    HandshakeAction::Close,
                )
            }
        },
        (HandshakeState::IdentityValidated, TransportEvent::ConnectFailed) => (
            HandshakeState::Failed { kind: HandshakeError::ConnectError },
            HandshakeAction::Stop,
        ),
        (
            HandshakeState::Connected { spent_ms },
            TransportEvent::RegisterSucceeded { key, duration_ms },
        ) => {
            if duration_ms <= timeout_ms - spent_ms {
                (HandshakeState::Registered { key }, HandshakeAction::Close)
            } else {
                (
                    HandshakeState::ClosingAfterFailure { kind: HandshakeError::RegisterError },
                    HandshakeAction::Close,
                )
            }
        },
        (HandshakeState::Connected { .. }, TransportEvent::RegisterFailed) => (
            HandshakeState::ClosingAfterFailure { kind: HandshakeError::RegisterError },
            HandshakeAction::Close,
        ),
        (HandshakeState::Registered { key }, TransportEvent::CloseSucceeded) => (
            HandshakeState::Closed { key },
            HandshakeAction::Stop,
        ),
        (HandshakeState::Registered { .. }, TransportEvent::CloseFailed) => (
            HandshakeState::Failed { kind: HandshakeError::CloseError },
            HandshakeAction::Stop,
        ),
        (HandshakeState::ClosingAfterFailure { kind }, TransportEvent::CloseSucceeded) => (
            HandshakeState::Failed { kind },
            HandshakeAction::Stop,
        ),
        (HandshakeState::ClosingAfterFailure { kind }, TransportEvent::CloseFailed) => (
            HandshakeState::Failed { kind },
            HandshakeAction::Stop,
        ),
        (s, _) => (s, HandshakeAction::Stop),
    }
}

/// How the transport behaves when asked to connect to one candidate.
pub enum ConnectOutcome {
    /// The connection could not be opened; nothing to close.
    Refused,
    /// The connection opened after `duration_ms`.
    Opened { duration_ms: u64 },
}

/// How the transport behaves when asked to run the registration exchange.
pub enum RegisterOutcome {
    /// The exchange failed; the connection is still open.
    Refused,
    /// The exchange derived `key_bytes` after a further `duration_ms`.
    Accepted { key_bytes: Vec<u8>, duration_ms: u64 },
}

/// What the transport does for one candidate: the outcome of each
/// primitive the runner may be asked to carry out. Stage durations are
/// measured against the shared connect-plus-register budget.
pub struct TransportBehavior {
    pub connect: ConnectOutcome,
    pub register: RegisterOutcome,
    pub close_succeeds: bool,
}

/// The connection opens within the attempt budget.
pub open spec fn connect_within(b: TransportBehavior, timeout_ms: u64) -> bool {
    b.connect matches ConnectOutcome::Opened { duration_ms } && duration_ms <= timeout_ms
}

/// How much of the attempt budget the connect stage used.
pub open spec fn connect_duration(b: TransportBehavior) -> int {
    match b.connect {
        ConnectOutcome::Opened { duration_ms } => duration_ms as int,
        ConnectOutcome::Refused => 0,
    }
}

/// The registration exchange finishes inside what the connect stage left
/// of the attempt budget.
pub open spec fn register_within(b: TransportBehavior, timeout_ms: u64) -> bool {
    &&& connect_within(b, timeout_ms)
    &&& b.register matches RegisterOutcome::Accepted { duration_ms: r, .. } && r <= timeout_ms
        - connect_duration(b)
}

/// An attempt opens a transport exactly when the identity decodes and the
/// transport accepts the connection, however long it takes.
pub open spec fn attempt_opens(g: GatewayDescriptor, b: TransportBehavior) -> bool {
    identity_ok(g.identity_key@) && b.connect matches ConnectOutcome::Opened { .. }
}

/// An attempt succeeds exactly when the identity decodes, connect and
/// register both finish inside the budget, and the close is clean.
pub open spec fn attempt_succeeds(g: GatewayDescriptor, b: TransportBehavior, timeout_ms: u64) -> bool {
    &&& identity_ok(g.identity_key@)
    &&& connect_within(b, timeout_ms)
    &&& register_within(b, timeout_ms)
    &&& b.close_succeeds
}

/// The key bytes the transport derives for this candidate.
pub open spec fn behavior_key(b: TransportBehavior) -> Seq<u8> {
    match b.register {
        RegisterOutcome::Accepted { key_bytes, duration_ms } => key_bytes@,
        RegisterOutcome::Refused => Seq::empty(),
    }
}

/// The error a failing attempt reports: the first stage that goes wrong,
/// with a stage that overruns the budget counted as that stage's failure.
pub open spec fn attempt_failure(
    g: GatewayDescriptor,
    b: TransportBehavior,
    timeout_ms: u64,
) -> HandshakeError {
    if !identity_ok(g.identity_key@) {
        HandshakeError::InvalidIdentity
    } else if !connect_within(b, timeout_ms) {
        HandshakeError::ConnectError
    } else if !register_within(b, timeout_ms) {
        HandshakeError::RegisterError
    } else {
        HandshakeError::CloseError
    }
}

/// Whether an attempt opened, and then closed, a transport connection.
#[derive(Clone, Copy, Debug, PartialEq, Eq, Structural)]
pub struct AttemptStats {
    pub opened_connection: bool,
    pub closed_connection: bool,
}

/// Runs one whole attempt against one candidate, driving the state
/// machine from `begin` to a terminal state with the outcomes the
/// transport produces.
///
/// Succeeds exactly when the identity decodes, connect and register both
/// finish inside `timeout_ms`, and the close is clean; otherwise it
/// reports the first failing stage. A connection is closed whenever one
/// was opened, success or failure alike.
pub fn attempt(gateway: &GatewayDescriptor, behavior: &TransportBehavior, timeout_ms: u64) -> (r: (
    Result<SharedKey, HandshakeError>,
    AttemptStats,
))
    ensures
        (r.0 is Ok) == attempt_succeeds(*gateway, *behavior, timeout_ms),
        r.0 matches Ok(key) ==> key@ == behavior_key(*behavior),
        r.0 matches Err(e) ==> e == attempt_failure(*gateway, *behavior, timeout_ms),
        r.1.opened_connection == attempt_opens(*gateway, *behavior),
        r.1.closed_connection == attempt_opens(*gateway, *behavior),
{
    let no_conn = AttemptStats { opened_connection: false, closed_connection: false };
    let one_conn = AttemptStats { opened_connection: true, closed_connection: true };

    let (state, _action) = begin(gateway);
    let state = match state {
        HandshakeState::Failed { kind } => {
            return (Err(kind), no_conn);
        },
        s => s,
    };

    let connect_event = match &behavior.connect {
        ConnectOutcome::Refused => TransportEvent::ConnectFailed,
        ConnectOutcome::Opened { duration_ms } => TransportEvent::ConnectSucceeded {
            duration_ms: *duration_ms,
        },
    };
    let (state, _action) = step(state, connect_event, timeout_ms);
    let state = match state {
        HandshakeState::Failed { kind } => {
            return (Err(kind), no_conn);
        },
        s => s,
    };

    // The transport is open from here on: the machine is connected, or it
    // is already aborting because the connect overran the budget.
    let state = match state {
        HandshakeState::Connected { spent_ms } => {
            let register_event = match &behavior.register {
                RegisterOutcome::Refused => TransportEvent::RegisterFailed,
                RegisterOutcome::Accepted { key_bytes, duration_ms } => {
                    TransportEvent::RegisterSucceeded {
                        key: SharedKey::from_bytes(copy_bytes(key_bytes)),
                        duration_ms: *duration_ms,
                    }
                },
            };
            let (s, _a) = step(
                HandshakeState::Connected { spent_ms },
                register_event,
                timeout_ms,
            );
            s
        },
        s => s,
    };

    // One-shot provisioning: the transport is always closed now, whether
    // the key was derived or a stage already failed.
    let close_event = if behavior.close_succeeds {
        TransportEvent::CloseSucceeded
    } else {
        TransportEvent::CloseFailed
    };
    let (state, _action) = step(state, close_event, timeout_ms);
    match state {
        HandshakeState::Closed { key } => (Ok(key), one_conn),
        HandshakeState::Failed { kind } => (Err(kind), one_conn),
        _ => (Err(HandshakeError::CloseError), one_conn),
    }
}

/// An attempt whose connect and register stages together overrun the
/// budget is counted as a failure for that candidate: it can never
/// succeed, and the failure is attributed to the stage that overran.
pub proof fn lemma_deadline_overrun_fails(
    g: GatewayDescriptor,
    b: TransportBehavior,
    timeout_ms: u64,
)
    requires
        b.connect matches ConnectOutcome::Opened { duration_ms: c } && b.register matches
            RegisterOutcome::Accepted { duration_ms: r, .. } && c + r > timeout_ms,
    ensures
        !attempt_succeeds(g, b, timeout_ms),
        identity_ok(g.identity_key@) && connect_duration(b) > timeout_ms ==> attempt_failure(
            g,
            b,
            timeout_ms,
        ) == HandshakeError::ConnectError,
        identity_ok(g.identity_key@) && connect_duration(b) <= timeout_ms ==> attempt_failure(
            g,
            b,
            timeout_ms,
        ) == HandshakeError::RegisterError,
{
}

/// A transition reaches a terminal state from an open-transport state only
/// on the completion of a close, so no attempt ends with its socket still
/// open.
pub proof fn lemma_close_precedes_terminal(s: StateModel, e: EventModel, timeout_ms: u64)
    requires
        step_enabled(s, e),
    ensures
        is_terminal(step_model(s, e, timeout_ms)) && transport_open(s) ==> (e
            is CloseSucceeded || e is CloseFailed),
{
}

/// Close completions are delivered only in the states the machine entered
/// while asking the runner to close.
pub proof fn lemma_close_event_follows_close_action(s: StateModel, e: EventModel)
    requires
        step_enabled(s, e),
        e is CloseSucceeded || e is CloseFailed,
    ensures
        s matches StateModel::Registered { .. } || s matches StateModel::ClosingAfterFailure {
            ..
        },
        entry_action(s) == HandshakeAction::Close,
{
}

} // verus!
