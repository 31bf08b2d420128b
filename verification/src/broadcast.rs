//! Best-effort broadcast fan-out, and the URL derivation it and the
//! liveness probes share.
//!
//! An accepted transaction is relayed to every peer's ingestion
//! endpoint. Per-peer failures are visible only in logs and in the
//! summary; the triggering request's outcome never changes, however
//! many peers were unreachable.

use vstd::prelude::*;
use vstd::string::StringExecFns;
use crate::text::{spec_has_prefix, spec_trim_end_slashes, has_prefix, trim_end_slashes};
use crate::consensus::RequestOutcome;

verus! {

/// A peer's ingestion endpoint: the address with its scheme kept (minus
/// trailing slashes) or defaulted to the unencrypted one, then the
/// broadcast path.
pub open spec fn spec_broadcast_url(a: Seq<char>) -> Seq<char> {
    if spec_has_prefix(a, "http://"@) || spec_has_prefix(a, "https://"@) {
        spec_trim_end_slashes(a) + "/receive_broadcast"@
    } else {
        "http://"@ + a + "/receive_broadcast"@
    }
}

/// Derive the ingestion endpoint of the peer at `address`.
pub fn broadcast_url(address: &str) -> (r: String)
    ensures
        r@ == spec_broadcast_url(address@),
{
    if has_prefix(address, "http://") || has_prefix(address, "https://") {
        let mut r = trim_end_slashes(address);
        r.append("/receive_broadcast");
        r
    } else {
        let mut r = String::from_str("http://");
        r.append(address);
        r.append("/receive_broadcast");
        r
    }
}

/// A peer's reachability endpoint, probed by the liveness monitor.
pub open spec fn spec_probe_url(a: Seq<char>) -> Seq<char> {
    "http://"@ + a + "/nodes"@
}

/// Derive the reachability endpoint of the peer at `address`.
pub fn probe_url(address: &str) -> (r: String)
    ensures
        r@ == spec_probe_url(address@),
{
    let mut r = String::from_str("http://");
    r.append(address);
    r.append("/nodes");
    r
}

/// What one broadcast round looked like, for the logs.
#[derive(Clone, Copy, Debug, PartialEq, Eq, Structural)]
pub struct BroadcastSummary {
    /// How many peers were addressed.
    pub attempted: usize,
    /// How many deliveries reported success.
    pub delivered: usize,
}

/// How many entries of `outcomes` are `true`.
pub open spec fn spec_delivered_count(outcomes: Seq<bool>) -> nat {
    outcomes.filter(|b: bool| b).len()
}

/// Summarize one broadcast round from its per-peer outcomes.
pub fn summarize_broadcast(outcomes: &Vec<bool>) -> (r: BroadcastSummary)
    ensures
        r.attempted == outcomes@.len(),
        r.delivered == spec_delivered_count(outcomes@),
        r.delivered <= r.attempted,
{
    let mut delivered: usize = 0;
    let mut i: usize = 0;
    proof {
        assert(outcomes@.take(0int).filter(|b: bool| b) =~= Seq::<bool>::empty());
    }
    while i < outcomes.len()
        invariant
            i <= outcomes@.len(),
            delivered == outcomes@.take(i as int).filter(|b: bool| b).len(),
            delivered <= i,
        decreases outcomes@.len() - i,
    {
        proof {
            reveal_with_fuel(Seq::filter, 2);
            assert(outcomes@.take(i + 1).drop_last() =~= outcomes@.take(i as int));
            assert(outcomes@.take(i + 1).last() == outcomes@[i as int]);
        }
        if outcomes[i] {
            delivered = delivered + 1;
        }
        i = i + 1;
    }
    proof {
        assert(outcomes@.take(outcomes@.len() as int) =~= outcomes@);
    }
    BroadcastSummary { attempted: outcomes.len(), delivered }
}

/// Seal a decided request against its broadcast round: whatever the
/// per-peer outcomes were — every peer unreachable included — the
/// outcome the caller sees is exactly the one decided before the
/// fan-out. The summary is for the logs alone.
pub fn finalize_with_broadcast(outcome: RequestOutcome, broadcast_outcomes: &Vec<bool>) -> (r: (
    RequestOutcome,
    BroadcastSummary,
))
    ensures
        r.0 == outcome,
        r.1.attempted == broadcast_outcomes@.len(),
        r.1.delivered == spec_delivered_count(broadcast_outcomes@),
{
    let summary = summarize_broadcast(broadcast_outcomes);
    (outcome, summary)
}

} // verus!
