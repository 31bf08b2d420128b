//! The quorum validation orchestrator and submission pipeline.
//!
//! One inbound transaction runs through a fixed sequence of decisions:
//! tally the per-peer validation outcomes against the quorum rule, call
//! the external verifier under a bounded retry policy, persist the
//! payload, submit the transaction and its derived fee sub-transaction
//! to the ledger, and answer the caller. Every decision is a function
//! here; the surrounding process only performs the named I/O and feeds
//! the results back in.

use vstd::prelude::*;
use vstd::string::StringExecFns;
use crate::quorum::QuorumResult;
use crate::validation::{TransactionData, Metadata, Meta};
use crate::text::{spec_u64_decimal, u64_to_string};

verus! {

/// Upper bound on verifier attempts for one submission.
pub const RETRY_MAX_ATTEMPTS: u64 = 3;

/// Backoff before the first verifier retry, in seconds; it doubles
/// after every further failed attempt.
pub const RETRY_BASE_DELAY_SECS: u64 = 1;

/// An HTTP status is a success exactly when it is in the 2xx range.
pub open spec fn spec_is_success_status(status: u16) -> bool {
    200 <= status < 300
}

/// Whether `status` reports success (2xx).
pub fn http_success(status: u16) -> (r: bool)
    ensures
        r == spec_is_success_status(status),
{
    200 <= status && status < 300
}

/// How one verifier attempt ended: accepted (2xx), semantically
/// rejected (422, never retried), or a transient failure (any other
/// status, or no response at all), which is retried.
#[derive(Clone, Copy, Debug, PartialEq, Eq, Structural)]
pub enum AttemptClass {
    Success,
    FatalReject,
    Transient,
}

/// Classify one verifier response; `None` is a transport error.
pub open spec fn spec_classify_attempt(status: Option<u16>) -> AttemptClass {
    match status {
        Some(s) => if spec_is_success_status(s) {
            AttemptClass::Success
        } else if s == 422 {
            AttemptClass::FatalReject
        } else {
            AttemptClass::Transient
        },
        None => AttemptClass::Transient,
    }
}

/// Classify one verifier attempt by its HTTP status; a transport error
/// (no status at all) counts as transient and is retried.
pub fn classify_attempt(status: Option<u16>) -> (c: AttemptClass)
    ensures
        c == spec_classify_attempt(status),
{
    match status {
        Some(s) => {
            if http_success(s) {
                AttemptClass::Success
            } else if s == 422 {
                AttemptClass::FatalReject
            } else {
                AttemptClass::Transient
            }
        },
        None => AttemptClass::Transient,
    }
}

/// The backoff delay before retry number `n` (counting from zero):
/// the base delay doubled `n` times.
pub open spec fn spec_backoff(n: int) -> int
    decreases n,
{
    if n <= 0 {
        RETRY_BASE_DELAY_SECS as int
    } else {
        2 * spec_backoff(n - 1)
    }
}

/// What the retry policy does after one classified attempt.
#[derive(Clone, Copy, Debug, PartialEq, Eq, Structural)]
pub enum RetryDecision {
    /// The verifier accepted; the pipeline proceeds.
    Accept,
    /// Non-retryable rejection: abort at once, remaining attempts
    /// unspent.
    Reject,
    /// Sleep this many seconds, then try again.
    RetryAfter(u64),
    /// All attempts exhausted; report verification failure.
    GiveUp,
}

/// The running state of one verifier retry sequence.
pub struct RetryState {
    /// Attempts performed so far.
    pub attempts_used: u64,
    /// The delay the next retry would wait.
    pub next_delay_secs: u64,
}

impl RetryState {
    /// The delay always equals the base delay doubled once per attempt
    /// used, and no more than the allowed attempts are ever used.
    pub open spec fn wf(&self) -> bool {
        self.attempts_used <= RETRY_MAX_ATTEMPTS && self.next_delay_secs == spec_backoff(
            self.attempts_used as int,
        )
    }

    /// A fresh retry sequence: nothing attempted, base delay pending.
    pub fn start() -> (r: RetryState)
        ensures
            r.wf(),
            r.attempts_used == 0,
            r.next_delay_secs == RETRY_BASE_DELAY_SECS,
    {
        RetryState { attempts_used: 0, next_delay_secs: RETRY_BASE_DELAY_SECS }
    }

    /// What the policy decides in state `self` on an attempt that ended
    /// as `class`.
    pub open spec fn spec_decision(self, class: AttemptClass) -> RetryDecision {
        match class {
            AttemptClass::Success => RetryDecision::Accept,
            AttemptClass::FatalReject => RetryDecision::Reject,
            AttemptClass::Transient => if self.attempts_used + 1 >= RETRY_MAX_ATTEMPTS {
                RetryDecision::GiveUp
            } else {
                RetryDecision::RetryAfter(self.next_delay_secs)
            },
        }
    }

    /// Record one classified attempt and decide what follows: success
    /// accepts, a 422-class rejection aborts without further attempts,
    /// and a transient failure retries after the current backoff delay
    /// until the attempts are exhausted.
    pub fn step(&mut self, class: AttemptClass) -> (d: RetryDecision)
        requires
            old(self).wf(),
            old(self).attempts_used < RETRY_MAX_ATTEMPTS,
        ensures
            final(self).wf(),
            final(self).attempts_used == old(self).attempts_used + 1,
            d == old(self).spec_decision(class),
    {
        let d = match class {
            AttemptClass::Success => RetryDecision::Accept,
            AttemptClass::FatalReject => RetryDecision::Reject,
            AttemptClass::Transient => {
                if self.attempts_used + 1 >= RETRY_MAX_ATTEMPTS {
                    RetryDecision::GiveUp
                } else {
                    RetryDecision::RetryAfter(self.next_delay_secs)
                }
            },
        };
        proof {
            assert(spec_backoff(0) == RETRY_BASE_DELAY_SECS as int);
            assert(spec_backoff(1) == 2 * spec_backoff(0));
            assert(spec_backoff(2) == 2 * spec_backoff(1));
        }
        self.attempts_used = self.attempts_used + 1;
        self.next_delay_secs = self.next_delay_secs * 2;
        d
    }
}

/// The terminal verdict of one verifier retry sequence.
#[derive(Clone, Copy, Debug, PartialEq, Eq, Structural)]
pub enum VerifierVerdict {
    /// Some attempt got a 2xx answer.
    Accepted,
    /// An attempt got a 422: semantic rejection, never retried.
    Rejected,
    /// Every allowed attempt failed transiently.
    ExhaustedRetries,
}

/// The whole retry sequence at once, given how attempt `i` would end:
/// (attempts performed, delays slept between attempts, verdict),
/// starting before attempt `i`.
pub open spec fn spec_retry_trace(classes: Seq<AttemptClass>, i: int) -> (
    int,
    Seq<u64>,
    VerifierVerdict,
)
    decreases RETRY_MAX_ATTEMPTS as int - i,
{
    if i < 0 || i >= RETRY_MAX_ATTEMPTS as int || i >= classes.len() {
        (i, Seq::<u64>::empty(), VerifierVerdict::ExhaustedRetries)
    } else {
        match classes[i] {
            AttemptClass::Success => (i + 1, Seq::<u64>::empty(), VerifierVerdict::Accepted),
            AttemptClass::FatalReject => (i + 1, Seq::<u64>::empty(), VerifierVerdict::Rejected),
            AttemptClass::Transient => {
                if i + 1 >= RETRY_MAX_ATTEMPTS as int || i + 1 >= classes.len() {
                    (i + 1, Seq::<u64>::empty(), VerifierVerdict::ExhaustedRetries)
                } else {
                    let rest = spec_retry_trace(classes, i + 1);
                    (rest.0, seq![spec_backoff(i) as u64] + rest.1, rest.2)
                }
            },
        }
    }
}

/// Run one whole retry sequence over the given per-attempt endings:
/// how many attempts are performed, which delays are slept between
/// them, and the verdict. `classes[i]` is how attempt `i` would end;
/// endings past the verdict are never looked at.
pub fn run_verifier_retries(classes: &Vec<AttemptClass>) -> (r: (u64, Vec<u64>, VerifierVerdict))
    ensures
        (r.0 as int, r.1@, r.2) == spec_retry_trace(classes@, 0),
{
    let mut state = RetryState::start();
    let mut delays: Vec<u64> = Vec::new();
    let mut i: usize = 0;
    loop
        invariant
            state.wf(),
            state.attempts_used == i,
            i <= classes@.len(),
            i < RETRY_MAX_ATTEMPTS,
            spec_retry_trace(classes@, 0) == {
                let rest = spec_retry_trace(classes@, i as int);
                (rest.0, delays@ + rest.1, rest.2)
            },
        decreases RETRY_MAX_ATTEMPTS - i,
    {
        if i >= classes.len() {
            proof {
                assert(delays@ + Seq::<u64>::empty() =~= delays@);
            }
            return (state.attempts_used, delays, VerifierVerdict::ExhaustedRetries);
        }
        let class = classes[i];
        let d = state.step(class);
        match d {
            RetryDecision::Accept => {
                proof {
                    assert(delays@ + Seq::<u64>::empty() =~= delays@);
                }
                return (state.attempts_used, delays, VerifierVerdict::Accepted);
            },
            RetryDecision::Reject => {
                proof {
                    assert(delays@ + Seq::<u64>::empty() =~= delays@);
                }
                return (state.attempts_used, delays, VerifierVerdict::Rejected);
            },
            RetryDecision::GiveUp => {
                proof {
                    assert(delays@ + Seq::<u64>::empty() =~= delays@);
                }
                return (state.attempts_used, delays, VerifierVerdict::ExhaustedRetries);
            },
            RetryDecision::RetryAfter(delay) => {
                if i + 1 >= classes.len() {
                    proof {
                        assert(delays@ + Seq::<u64>::empty() =~= delays@);
                    }
                    return (state.attempts_used, delays, VerifierVerdict::ExhaustedRetries);
                }
                proof {
                    let rest = spec_retry_trace(classes@, i as int);
                    let next = spec_retry_trace(classes@, i + 1);
                    assert(rest == (next.0, seq![spec_backoff(i as int) as u64] + next.1, next.2));
                    assert(delays@ + rest.1 =~= (delays@ + seq![spec_backoff(i as int) as u64])
                        + next.1);
                    assert(delays@.push(delay) =~= delays@ + seq![spec_backoff(i as int) as u64]);
                }
                delays.push(delay);
                i = i + 1;
            },
        }
    }
}

/// A verifier endpoint that fails transiently on every attempt (for
/// instance, answers 500 each time) gets exactly three attempts, with
/// delays of one second and then two seconds between them, before the
/// round gives up.
pub proof fn lemma_persistent_failure_three_attempts(classes: Seq<AttemptClass>)
    requires
        classes.len() >= RETRY_MAX_ATTEMPTS,
        forall|i: int| 0 <= i < classes.len() ==> classes[i] is Transient,
    ensures
        spec_retry_trace(classes, 0) == (3int, seq![1u64, 2u64], VerifierVerdict::ExhaustedRetries),
{
    assert(classes[0] is Transient);
    assert(classes[1] is Transient);
    assert(classes[2] is Transient);
    assert(spec_retry_trace(classes, 2) == (
        3int,
        Seq::<u64>::empty(),
        VerifierVerdict::ExhaustedRetries,
    ));
    assert(spec_backoff(0) == 1);
    assert(spec_backoff(1) == 2);
    assert(spec_retry_trace(classes, 1) == (
        3int,
        seq![2u64] + Seq::<u64>::empty(),
        VerifierVerdict::ExhaustedRetries,
    ));
    assert(seq![2u64] + Seq::<u64>::empty() =~= seq![2u64]);
    assert(seq![1u64] + seq![2u64] =~= seq![1u64, 2u64]);
}

/// A 422 on the first attempt aborts after exactly one attempt, with
/// no delay slept and no retry spent.
pub proof fn lemma_fatal_reject_single_attempt(classes: Seq<AttemptClass>)
    requires
        classes.len() >= 1,
        classes[0] is FatalReject,
    ensures
        spec_retry_trace(classes, 0) == (1int, Seq::<u64>::empty(), VerifierVerdict::Rejected),
{
}

/// The persistence key for an accepted payload: its numeric secret,
/// stringified in decimal.
pub fn storage_key_for(secret: u64) -> (r: String)
    ensures
        r@ == spec_u64_decimal(secret as nat),
{
    u64_to_string(secret)
}

/// The fee sub-transaction derived from an accepted transaction: a
/// `payment` of the original's fee from its sender to this node's
/// wallet, itself fee-free.
#[derive(Debug)]
pub struct FeeTransaction {
    pub transaction_type: String,
    pub sender: String,
    pub private_key: String,
    pub receiver: String,
    pub amount: u64,
    pub fee: u64,
    pub denom: String,
    pub flags: u64,
    pub data_type: String,
    pub data_value: String,
    pub metadata: Metadata,
    pub model_type: String,
}

/// Why the submission pipeline failed.
#[derive(Clone, Copy, Debug, PartialEq, Eq, Structural)]
pub enum PipelineError {
    /// The node has no configured wallet address to route the fee to.
    MissingWalletAddress,
}

/// Derive the fee sub-transaction: type `payment`, the fee amount of
/// the original routed from its sender to this node's wallet address,
/// zero fee, flags 1, data type `fees`, empty data and metadata
/// values, the default model. Fails exactly when no wallet address is
/// configured.
pub fn build_fee_transaction(t: &TransactionData, wallet_address: &Option<String>) -> (r: Result<
    FeeTransaction,
    PipelineError,
>)
    ensures
        r is Ok <==> wallet_address is Some,
        r matches Err(e) ==> e == PipelineError::MissingWalletAddress,
        r matches Ok(ft) ==> {
            &&& ft.transaction_type@ == "payment"@
            &&& ft.sender == t.sender
            &&& ft.private_key == t.private_key
            &&& ft.receiver@ == wallet_address->0@
            &&& ft.amount == t.fee
            &&& ft.fee == 0
            &&& ft.denom == t.denom
            &&& ft.flags == 1
            &&& ft.data_type@ == "fees"@
            &&& ft.data_value@.len() == 0
            &&& ft.metadata.meta.value@.len() == 0
            &&& ft.model_type@ == "default_model"@
        },
{
    match wallet_address {
        Some(wallet) => Ok(
            FeeTransaction {
                transaction_type: String::from_str("payment"),
                sender: t.sender.clone(),
                private_key: t.private_key.clone(),
                receiver: wallet.clone(),
                amount: t.fee,
                fee: 0,
                denom: t.denom.clone(),
                flags: 1,
                data_type: String::from_str("fees"),
                data_value: String::new(),
                metadata: Metadata { meta: Meta { value: String::new() } },
                model_type: String::from_str("default_model"),
            },
        ),
        None => Err(PipelineError::MissingWalletAddress),
    }
}

/// The caller-visible result of one inbound transaction request.
pub enum RequestOutcome {
    /// The payload failed the schema pre-check.
    InvalidSchema,
    /// Too few peers validated the payload (the empty registry
    /// included).
    QuorumFailure(QuorumResult),
    /// The external verifier rejected the payload, or every attempt
    /// failed.
    VerificationFailure,
    /// The ledger refused the transaction or the fee sub-transaction.
    SubmissionFailure,
    /// Everything succeeded; carries the ledger's response body for the
    /// original transaction.
    Success(String),
}

/// Where one request currently stands.
pub enum RoundPhase {
    /// Awaiting the per-peer validation outcomes.
    Tallying,
    /// Quorum reached; awaiting the verifier verdict.
    Verifying,
    /// Verifier accepted; awaiting local persistence.
    Storing,
    /// Stored; awaiting the ledger's answer to the original
    /// transaction.
    SubmittingPrimary,
    /// Primary accepted; carries its response body while awaiting the
    /// fee sub-transaction's answer.
    SubmittingFee(String),
    /// The request is decided.
    Done(RequestOutcome),
}

/// What the surrounding process reports back to the orchestrator.
pub enum RoundEvent {
    /// The validation fan-out completed with this tally.
    Tallied(QuorumResult),
    /// The verifier retry sequence ended with this verdict.
    Verified(VerifierVerdict),
    /// The payload was handed to the store.
    Stored,
    /// The ledger answered the original transaction: status and body.
    PrimaryResponse(u16, String),
    /// The ledger answered the fee sub-transaction with this status.
    FeeResponse(u16),
    /// The fee sub-transaction could not be built.
    FeeUnavailable,
}

/// The orchestrator's transition function: which phase follows `phase`
/// once `event` has happened. An event that does not belong to the
/// phase changes nothing.
pub open spec fn spec_round_step(phase: RoundPhase, event: RoundEvent) -> RoundPhase {
    match (phase, event) {
        (RoundPhase::Tallying, RoundEvent::Tallied(q)) => if q.passed {
            RoundPhase::Verifying
        } else {
            RoundPhase::Done(RequestOutcome::QuorumFailure(q))
        },
        (RoundPhase::Verifying, RoundEvent::Verified(v)) => if v is Accepted {
            RoundPhase::Storing
        } else {
            RoundPhase::Done(RequestOutcome::VerificationFailure)
        },
        (RoundPhase::Storing, RoundEvent::Stored) => RoundPhase::SubmittingPrimary,
        (RoundPhase::SubmittingPrimary, RoundEvent::PrimaryResponse(status, body)) => if spec_is_success_status(status) {
            RoundPhase::SubmittingFee(body)
        } else {
            RoundPhase::Done(RequestOutcome::SubmissionFailure)
        },
        (RoundPhase::SubmittingFee(body), RoundEvent::FeeResponse(status)) => if spec_is_success_status(status) {
            RoundPhase::Done(RequestOutcome::Success(body))
        } else {
            RoundPhase::Done(RequestOutcome::SubmissionFailure)
        },
        (RoundPhase::SubmittingFee(_), RoundEvent::FeeUnavailable) => RoundPhase::Done(
            RequestOutcome::SubmissionFailure,
        ),
        (p, _) => p,
    }
}

/// Advance one request by one completed step. Quorum failure ends the
/// round with no further side effects; a verifier verdict other than
/// acceptance ends it as a verification failure; a non-2xx from the
/// ledger, on either call, ends it as a submission failure; and only
/// the primary transaction's body ever reaches the caller.
pub fn round_step(phase: RoundPhase, event: RoundEvent) -> (next: RoundPhase)
    ensures
        next == spec_round_step(phase, event),
{
    match (phase, event) {
        (RoundPhase::Tallying, RoundEvent::Tallied(q)) => {
            if q.passed {
                RoundPhase::Verifying
            } else {
                RoundPhase::Done(RequestOutcome::QuorumFailure(q))
            }
        },
        (RoundPhase::Verifying, RoundEvent::Verified(v)) => {
            if matches!(v, VerifierVerdict::Accepted) {
                RoundPhase::Storing
            } else {
                RoundPhase::Done(RequestOutcome::VerificationFailure)
            }
        },
        (RoundPhase::Storing, RoundEvent::Stored) => RoundPhase::SubmittingPrimary,
        (RoundPhase::SubmittingPrimary, RoundEvent::PrimaryResponse(status, body)) => {
            if http_success(status) {
                RoundPhase::SubmittingFee(body)
            } else {
                RoundPhase::Done(RequestOutcome::SubmissionFailure)
            }
        },
        (RoundPhase::SubmittingFee(body), RoundEvent::FeeResponse(status)) => {
            if http_success(status) {
                RoundPhase::Done(RequestOutcome::Success(body))
            } else {
                RoundPhase::Done(RequestOutcome::SubmissionFailure)
            }
        },
        (RoundPhase::SubmittingFee(_), RoundEvent::FeeUnavailable) => RoundPhase::Done(
            RequestOutcome::SubmissionFailure,
        ),
        (p, _) => p,
    }
}

/// The HTTP answer for a decided request: status code and body. The
/// schema, quorum and verification failures are client errors; a
/// submission failure is a server error; success carries the ledger's
/// own response body.
pub open spec fn spec_response_for(outcome: RequestOutcome) -> (u16, Seq<char>) {
    match outcome {
        RequestOutcome::InvalidSchema => (400u16, "Invalid data structure in `data` field"@),
        RequestOutcome::QuorumFailure(_) => (400u16, "Insufficient nodes validated the data"@),
        RequestOutcome::VerificationFailure => (400u16, "Data validation failed on external API"@),
        RequestOutcome::SubmissionFailure => (500u16, "Failed to send transaction data"@),
        RequestOutcome::Success(body) => (200u16, body@),
    }
}

/// Render a decided request as its HTTP status code and body.
pub fn response_for(outcome: &RequestOutcome) -> (r: (u16, String))
    ensures
        r.0 == spec_response_for(*outcome).0,
        r.1@ == spec_response_for(*outcome).1,
{
    match outcome {
        RequestOutcome::InvalidSchema => (
            400,
            String::from_str("Invalid data structure in `data` field"),
        ),
        RequestOutcome::QuorumFailure(_) => (
            400,
            String::from_str("Insufficient nodes validated the data"),
        ),
        RequestOutcome::VerificationFailure => (
            400,
            String::from_str("Data validation failed on external API"),
        ),
        RequestOutcome::SubmissionFailure => (500, String::from_str("Failed to send transaction data")),
        RequestOutcome::Success(body) => (200, body.clone()),
    }
}

} // verus!
