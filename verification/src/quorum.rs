//! Quorum arithmetic for one validation round.
//!
//! A round polls every peer in a registry snapshot; each poll ends in one
//! of three outcomes. The round passes when at least the quorum fraction
//! (4/5, i.e. 0.8) of the polled peers reported `Pass`. An empty snapshot
//! fails closed: the round never divides by zero and never passes.

use vstd::prelude::*;

verus! {

/// Numerator of the quorum fraction: a round passes when
/// `passed * QUORUM_DENOMINATOR >= total * QUORUM_NUMERATOR` and `total > 0`.
pub const QUORUM_NUMERATOR: usize = 4;

/// Denominator of the quorum fraction.
pub const QUORUM_DENOMINATOR: usize = 5;

/// Deadline for one per-peer validation call, in seconds.
pub const VALIDATION_TIMEOUT_SECS: u64 = 5;

/// What one peer's validation call ended in. A call that exceeded its
/// deadline is `Timeout`; it counts as not passed, exactly like `Fail`,
/// but the two are reported apart.
#[derive(Clone, Copy, Debug, PartialEq, Eq, Structural)]
pub enum Outcome {
    Pass,
    Fail,
    Timeout,
}

/// The tally of one validation round.
#[derive(Clone, Copy, Debug, PartialEq, Eq, Structural)]
pub struct QuorumResult {
    /// How many polled peers reported `Pass`.
    pub passed_count: usize,
    /// How many peers were polled (the registry size at snapshot time).
    pub total_count: usize,
    /// Whether the round reached quorum.
    pub passed: bool,
}

/// The quorum rule: `passed / total >= 4/5`, stated without division so
/// that the empty round (`total == 0`) is unambiguously a failure.
pub open spec fn spec_quorum_passed(passed: nat, total: nat) -> bool {
    total > 0 && passed * (QUORUM_DENOMINATOR as nat) >= total * (QUORUM_NUMERATOR as nat)
}

/// How many elements of `outcomes` are `Pass`.
pub open spec fn spec_passed_count(outcomes: Seq<Outcome>) -> nat {
    outcomes.filter(|o: Outcome| o is Pass).len()
}

/// Classify one awaited validation call: the underlying check returned
/// `true` or `false`, or (`None`) the deadline was exceeded.
pub fn classify_outcome(result: Option<bool>) -> (o: Outcome)
    ensures
        o == (match result {
            Some(true) => Outcome::Pass,
            Some(false) => Outcome::Fail,
            None => Outcome::Timeout,
        }),
{
    match result {
        Some(true) => Outcome::Pass,
        Some(false) => Outcome::Fail,
        None => Outcome::Timeout,
    }
}

/// Count the `Pass` outcomes of one round. `Fail` and `Timeout` both
/// contribute nothing.
pub fn count_passed(outcomes: &Vec<Outcome>) -> (n: usize)
    ensures
        n == spec_passed_count(outcomes@),
        n <= outcomes@.len(),
{
    let mut n: usize = 0;
    let mut i: usize = 0;
    proof {
        assert(outcomes@.take(0int).filter(|o: Outcome| o is Pass) =~= Seq::<Outcome>::empty());
    }
    while i < outcomes.len()
        invariant
            i <= outcomes@.len(),
            n == outcomes@.take(i as int).filter(|o: Outcome| o is Pass).len(),
            n <= i,
        decreases outcomes@.len() - i,
    {
        proof {
            reveal_with_fuel(Seq::filter, 2);
            assert(outcomes@.take(i + 1).drop_last() =~= outcomes@.take(i as int));
            assert(outcomes@.take(i + 1).last() == outcomes@[i as int]);
        }
        if matches!(outcomes[i], Outcome::Pass) {
            n = n + 1;
        }
        i = i + 1;
    }
    proof {
        assert(outcomes@.take(outcomes@.len() as int) =~= outcomes@);
    }
    n
}

/// Decide whether `passed` out of `total` peers reach the quorum
/// fraction. Fails closed on an empty round.
pub fn quorum_passed(passed: usize, total: usize) -> (b: bool)
    ensures
        b == spec_quorum_passed(passed as nat, total as nat),
{
    total > 0 && (passed as u128) * (QUORUM_DENOMINATOR as u128) >= (total as u128) * (QUORUM_NUMERATOR as u128)
}

/// Tally one round: count the passes and apply the quorum rule to the
/// snapshot size.
pub fn decide_quorum(outcomes: &Vec<Outcome>) -> (r: QuorumResult)
    ensures
        r.total_count == outcomes@.len(),
        r.passed_count == spec_passed_count(outcomes@),
        r.passed == spec_quorum_passed(spec_passed_count(outcomes@), outcomes@.len()),
{
    let passed_count = count_passed(outcomes);
    let total_count = outcomes.len();
    QuorumResult {
        passed_count,
        total_count,
        passed: quorum_passed(passed_count, total_count),
    }
}

/// The quorum rule, spelled out for every round: with a fixed
/// validator behaviour the round passes exactly when the passed count
/// reaches four fifths of the snapshot size — and a non-empty snapshot
/// is required, so the empty round can never pass.
pub proof fn lemma_quorum_rule(outcomes: Seq<Outcome>)
    ensures
        spec_quorum_passed(spec_passed_count(outcomes), outcomes.len()) <==> (outcomes.len() > 0
            && spec_passed_count(outcomes) * 5 >= outcomes.len() * 4),
{
}

/// A round over an empty snapshot always fails: quorum is decided by
/// integer comparison, so the empty case is a plain failure, not a
/// division by zero.
pub proof fn lemma_empty_round_fails(outcomes: Seq<Outcome>)
    requires
        outcomes.len() == 0,
    ensures
        !spec_quorum_passed(spec_passed_count(outcomes), outcomes.len()),
{
}

/// A `Timeout` outcome counts exactly as `Fail` does: replacing any
/// non-`Pass` outcome by any other non-`Pass` outcome leaves the tally
/// unchanged.
pub proof fn lemma_timeout_counts_as_fail(outcomes: Seq<Outcome>, i: int, o: Outcome)
    requires
        0 <= i < outcomes.len(),
        !(outcomes[i] is Pass),
        !(o is Pass),
    ensures
        spec_passed_count(outcomes.update(i, o)) == spec_passed_count(outcomes),
    decreases outcomes.len(),
{
    let f = |x: Outcome| x is Pass;
    if outcomes.len() > 0 {
        reveal_with_fuel(Seq::filter, 2);
        if i == outcomes.len() - 1 {
            assert(outcomes.update(i, o).drop_last() =~= outcomes.drop_last());
        } else {
            assert(outcomes.update(i, o).drop_last() =~= outcomes.drop_last().update(i, o));
            lemma_timeout_counts_as_fail(outcomes.drop_last(), i, o);
        }
    }
}

} // verus!
