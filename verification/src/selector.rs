//! Sequential-failover selection across an ordered candidate list.
//!
//! Candidates are tried strictly in the order the topology supplied them,
//! one at a time, each through a whole registration attempt with the
//! fixed per-attempt timeout. The first success ends the iteration; when
//! the list is empty or every candidate fails, the selection fails with
//! `NoGatewayAvailable`. At most one transport is ever open at a time,
//! and every opened transport is closed before the next candidate is
//! tried.

use vstd::prelude::*;

use crate::errors::SelectError;
use crate::gateway::GatewayDescriptor;
use crate::handshake::attempt;
use crate::handshake::attempt_opens;
use crate::handshake::attempt_succeeds;
use crate::handshake::behavior_key;
use crate::handshake::TransportBehavior;
use crate::keys::SharedKey;

verus! {

/// The fixed per-attempt timeout, in milliseconds.
pub const ATTEMPT_TIMEOUT_MS: u64 = 1500;

/// The sole output of a successful selection: which gateway was chosen,
/// where it listens, and the key the handshake derived.
pub struct RegistrationResult {
    pub gateway_identity: String,
    pub gateway_listener: String,
    pub shared_key: SharedKey,
}

/// How much work a selection run did: candidates tried, transports
/// opened, transports closed.
#[derive(Clone, Copy, Debug, PartialEq, Eq, Structural)]
pub struct SelectionStats {
    pub attempts: usize,
    pub connections_opened: usize,
    pub connections_closed: usize,
}

/// How many of the first `n` candidates open a transport connection.
pub open spec fn opens_upto(
    gs: Seq<GatewayDescriptor>,
    bs: Seq<TransportBehavior>,
    n: int,
) -> int
    decreases n,
{
    if n <= 0 {
        0
    } else {
        opens_upto(gs, bs, n - 1) + if attempt_opens(gs[n - 1], bs[n - 1]) {
            1 as int
        } else {
            0 as int
        }
    }
}

/// The gateways kept by the version filter, in their original order.
pub open spec fn version_filtered(
    gs: Seq<GatewayDescriptor>,
    keep: Seq<bool>,
) -> Seq<GatewayDescriptor>
    decreases gs.len(),
{
    if gs.len() == 0 {
        Seq::empty()
    } else {
        let front = version_filtered(gs.drop_last(), keep.drop_last());
        if keep[gs.len() - 1] {
            front.push(gs.last())
        } else {
            front
        }
    }
}

/// Keeps, in their original order, the gateways the topology source marks
/// compatible with the client's version.
///
/// The compatibility predicate itself is owned by the topology source and
/// treated as opaque here: it enters as one verdict per gateway, in step
/// with the list.
pub fn filter_by_version(
    gateways: &Vec<GatewayDescriptor>,
    compatible: &Vec<bool>,
) -> (r: Vec<GatewayDescriptor>)
    requires
        compatible@.len() == gateways@.len(),
    ensures
        r@ == version_filtered(gateways@, compatible@),
{
    let mut kept: Vec<GatewayDescriptor> = Vec::new();
    let mut k: usize = 0;
    while k < gateways.len()
        invariant
            compatible@.len() == gateways@.len(),
            k <= gateways@.len(),
            kept@ == version_filtered(
                gateways@.subrange(0, k as int),
                compatible@.subrange(0, k as int),
            ),
        decreases gateways@.len() - k,
    {
        if compatible[k] {
            kept.push(gateways[k].duplicate());
        }
        proof {
            let next_gs = gateways@.subrange(0, k + 1 as int);
            let next_keep = compatible@.subrange(0, k + 1 as int);
            assert(next_gs.drop_last() =~= gateways@.subrange(0, k as int));
            assert(next_keep.drop_last() =~= compatible@.subrange(0, k as int));
            assert(next_gs.last() == gateways@[k as int]);
        }
        k = k + 1;
    }
    proof {
        assert(gateways@.subrange(0, gateways@.len() as int) =~= gateways@);
        assert(compatible@.subrange(0, compatible@.len() as int) =~= compatible@);
    }
    kept
}

/// A successful selection: some candidate succeeds, none before it does,
/// and the result, the attempt count and the connection counts all come
/// from that first successful candidate.
pub open spec fn selected_first_success(
    gs: Seq<GatewayDescriptor>,
    bs: Seq<TransportBehavior>,
    timeout_ms: u64,
    res: RegistrationResult,
    stats: SelectionStats,
) -> bool {
    exists|i: int|
        0 <= i < gs.len() && #[trigger] attempt_succeeds(gs[i], bs[i], timeout_ms) && (forall|
            j: int,
        |
            0 <= j < i ==> !#[trigger] attempt_succeeds(gs[j], bs[j], timeout_ms))
            && res.gateway_identity@ == gs[i].identity_key@ && res.gateway_listener@
            == gs[i].client_listener@ && res.shared_key@ == behavior_key(bs[i]) && stats.attempts
            == i + 1 && stats.connections_opened == opens_upto(gs, bs, i + 1)
}

/// An exhausted selection: every candidate was tried and failed, and
/// every transport that was opened along the way was closed again.
pub open spec fn exhausted_all_candidates(
    gs: Seq<GatewayDescriptor>,
    bs: Seq<TransportBehavior>,
    timeout_ms: u64,
    stats: SelectionStats,
) -> bool {
    &&& forall|i: int|
        0 <= i < gs.len() ==> !#[trigger] attempt_succeeds(gs[i], bs[i], timeout_ms)
    &&& stats.attempts == gs.len()
    &&& stats.connections_opened == opens_upto(gs, bs, gs.len() as int)
}

/// Tries the candidates in topology order, one whole registration attempt
/// each, stopping at the first success.
///
/// `behaviors[i]` is what the transport does for candidate `i`; it is
/// consulted only if that candidate is actually tried. An empty list
/// fails immediately with `NoGatewayAvailable` and attempts nothing; so
/// does an exhausted list. Whatever happens, every opened connection is
/// closed again.
pub fn select(
    gateways: &Vec<GatewayDescriptor>,
    behaviors: &Vec<TransportBehavior>,
    timeout_ms: u64,
) -> (r: (Result<RegistrationResult, SelectError>, SelectionStats))
    requires
        gateways@.len() == behaviors@.len(),
    ensures
        r.1.connections_closed == r.1.connections_opened,
        r.0 matches Ok(res) ==> selected_first_success(
            gateways@,
            behaviors@,
            timeout_ms,
            res,
            r.1,
        ),
        r.0 matches Err(e) ==> e == SelectError::NoGatewayAvailable && exhausted_all_candidates(
            gateways@,
            behaviors@,
            timeout_ms,
            r.1,
        ),
{
    let ghost gs = gateways@;
    let ghost bs = behaviors@;
    let mut opened: usize = 0;
    let mut k: usize = 0;
    while k < gateways.len()
        invariant
            gateways@ == gs,
            behaviors@ == bs,
            bs.len() == gs.len(),
            k <= gs.len(),
            forall|j: int| 0 <= j < k ==> !#[trigger] attempt_succeeds(gs[j], bs[j], timeout_ms),
            opened == opens_upto(gs, bs, k as int),
            opened <= k,
        decreases gs.len() - k,
    {
        let (outcome, stats) = attempt(&gateways[k], &behaviors[k], timeout_ms);
        if stats.opened_connection {
            opened = opened + 1;
        }
        proof {
            assert(opens_upto(gs, bs, k + 1 as int) == opens_upto(gs, bs, k as int) + if
                attempt_opens(gs[k as int], bs[k as int]) {
                1 as int
            } else {
                0 as int
            });
        }
        match outcome {
            Ok(key) => {
                let result = RegistrationResult {
                    gateway_identity: gateways[k].identity_key.clone(),
                    gateway_listener: gateways[k].client_listener.clone(),
                    shared_key: key,
                };
                let stats = SelectionStats {
                    attempts: k + 1,
                    connections_opened: opened,
                    connections_closed: opened,
                };
                return (Ok(result), stats);
            },
            Err(_) => {
                k = k + 1;
            },
        }
    }
    let stats = SelectionStats {
        attempts: gateways.len(),
        connections_opened: opened,
        connections_closed: opened,
    };
    (Err(SelectError::NoGatewayAvailable), stats)
}

/// The same selection, taking the topology fetch's outcome as its input:
/// a failed or unparsable fetch is fatal and reported as `FetchError`
/// before any candidate is considered.
pub fn select_from_fetch(
    fetched: &Option<Vec<GatewayDescriptor>>,
    behaviors: &Vec<TransportBehavior>,
    timeout_ms: u64,
) -> (r: (Result<RegistrationResult, SelectError>, SelectionStats))
    requires
        (*fetched) matches Some(gws) ==> gws@.len() == behaviors@.len(),
    ensures
        r.1.connections_closed == r.1.connections_opened,
        (*fetched) is None ==> (r.0 matches Err(e) && e == SelectError::FetchError && r.1.attempts
            == 0 && r.1.connections_opened == 0),
        (*fetched) matches Some(gws) ==> (r.0 matches Ok(res) ==> selected_first_success(
            gws@,
            behaviors@,
            timeout_ms,
            res,
            r.1,
        )),
        (*fetched) matches Some(gws) ==> (r.0 matches Err(e) ==> e
            == SelectError::NoGatewayAvailable && exhausted_all_candidates(
            gws@,
            behaviors@,
            timeout_ms,
            r.1,
        )),
{
    match fetched {
        None => (
            Err(SelectError::FetchError),
            SelectionStats { attempts: 0, connections_opened: 0, connections_closed: 0 },
        ),
        Some(gateways) => select(gateways, behaviors, timeout_ms),
    }
}

/// When every candidate in the list advertises an identity that does not
/// decode, no attempt can succeed and no transport connection is ever
/// opened: the selection exhausts the list without touching the network.
pub proof fn lemma_all_invalid_identities_open_nothing(
    gs: Seq<GatewayDescriptor>,
    bs: Seq<TransportBehavior>,
    timeout_ms: u64,
    n: int,
)
    requires
        0 <= n <= gs.len(),
        bs.len() == gs.len(),
        forall|i: int| 0 <= i < gs.len() ==> !crate::identity::identity_ok(#[trigger] gs[i].identity_key@),
    ensures
        forall|i: int| 0 <= i < gs.len() ==> !#[trigger] attempt_succeeds(gs[i], bs[i], timeout_ms),
        opens_upto(gs, bs, n) == 0,
    decreases n,
{
    if n > 0 {
        lemma_all_invalid_identities_open_nothing(gs, bs, timeout_ms, n - 1);
    }
}

} // verus!
