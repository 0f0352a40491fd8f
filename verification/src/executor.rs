//! Request execution: classification of transport outcomes, flattening of
//! a decoded response into a completion, the per-attempt retry decision,
//! and a model of a whole execution over a given sequence of outcomes.

use vstd::prelude::*;
use crate::chat::ChatCompletion;
use crate::chat::ChatResponse;
use crate::error::GrokError;
use crate::retry::RetryPolicy;
use crate::retry::spec_delay;

verus! {

/// What one attempt against the transport produced.
#[derive(Debug, Clone)]
pub enum AttemptOutcome {
    /// The exchange succeeded and the body decoded into a response.
    Completed(ChatResponse),
    /// The exchange succeeded but the body could not be decoded.
    MalformedBody(String),
    /// The exchange completed with a non-success status.
    HttpStatus { status: u16, body: String },
    /// The exchange could not be completed (connection, timeout, TLS).
    NetworkFailure(String),
}

/// What the executor asks its driver to do after an attempt.
#[derive(Debug, Clone)]
pub enum StepAction {
    /// Hand the completion to the caller.
    Deliver(ChatCompletion),
    /// Surface the error to the caller.
    Fail(GrokError),
    /// Wait this many milliseconds, then attempt again.
    RetryAfter(u64),
}

/// Retryable outcomes: a transport-level failure, a rate-limiting status,
/// or a server-side failure status.
pub open spec fn spec_retryable(o: AttemptOutcome) -> bool {
    match o {
        AttemptOutcome::NetworkFailure(_) => true,
        AttemptOutcome::HttpStatus { status, .. } => status == 429 || status >= 500,
        _ => false,
    }
}

/// Classify an outcome as retryable or terminal.
pub fn is_retryable(o: &AttemptOutcome) -> (r: bool)
    ensures
        r == spec_retryable(*o),
{
    match o {
        AttemptOutcome::NetworkFailure(_) => true,
        AttemptOutcome::HttpStatus { status, .. } => *status == 429 || *status >= 500,
        _ => false,
    }
}

/// How an outcome resolves once no further retry will happen: a completed
/// response is flattened to its first choice (with zero choices a terminal
/// failure), and every other outcome becomes the corresponding error,
/// surfaced verbatim.
pub open spec fn resolves(o: AttemptOutcome, r: Result<ChatCompletion, GrokError>) -> bool {
    match o {
        AttemptOutcome::Completed(resp) => {
            if resp.choices@.len() == 0 {
                r matches Err(GrokError::Api { status, message }) && status == 500 && message@
                    == "No choices returned"@
            } else {
                r matches Ok(c) && c.id == resp.id && c.model == resp.model && c.usage
                    == resp.usage && c.message == resp.choices@[0].message && c.finish_reason
                    == resp.choices@[0].finish_reason
            }
        },
        AttemptOutcome::MalformedBody(m) => r == Err::<ChatCompletion, GrokError>(
            GrokError::Json(m),
        ),
        AttemptOutcome::HttpStatus { status, body } => r == Err::<ChatCompletion, GrokError>(
            GrokError::Api { status, message: body },
        ),
        AttemptOutcome::NetworkFailure(m) => r == Err::<ChatCompletion, GrokError>(
            GrokError::Http(m),
        ),
    }
}

/// Flatten a decoded response: the first choice becomes the completion,
/// and a response with no choices is a terminal failure.
pub fn completion_of_response(resp: ChatResponse) -> (r: Result<ChatCompletion, GrokError>)
    ensures
        resolves(AttemptOutcome::Completed(resp), r),
{
    let ChatResponse { id, model, usage, mut choices } = resp;
    if choices.len() == 0 {
        return Err(
            GrokError::Api { status: 500, message: String::from_str("No choices returned") },
        );
    }
    let first = choices.remove(0);
    Ok(
        ChatCompletion {
            id,
            model,
            usage,
            message: first.message,
            finish_reason: first.finish_reason,
        },
    )
}

/// Resolve an outcome that will not be retried.
pub fn resolve_outcome(o: AttemptOutcome) -> (r: Result<ChatCompletion, GrokError>)
    ensures
        resolves(o, r),
{
    match o {
        AttemptOutcome::Completed(resp) => completion_of_response(resp),
        AttemptOutcome::MalformedBody(m) => Err(GrokError::Json(m)),
        AttemptOutcome::HttpStatus { status, body } => Err(
            GrokError::Api { status, message: body },
        ),
        AttemptOutcome::NetworkFailure(m) => Err(GrokError::Http(m)),
    }
}

/// Decide what follows one attempt: a retryable outcome within the retry
/// budget waits for the policy's backoff delay and tries again; anything
/// else resolves now, the last outcome surfaced verbatim.
pub fn executor_step(policy: &RetryPolicy, attempt: u32, outcome: AttemptOutcome) -> (a:
    StepAction)
    ensures
        spec_retryable(outcome) && attempt < policy.max_retries ==> (a matches
            StepAction::RetryAfter(d) && d as nat == spec_delay(
            policy.base_delay_ms as nat,
            policy.delay_cap_ms as nat,
            attempt as nat,
        )),
        !(spec_retryable(outcome) && attempt < policy.max_retries) ==> match a {
            StepAction::Deliver(c) => resolves(outcome, Ok(c)),
            StepAction::Fail(e) => resolves(outcome, Err(e)),
            StepAction::RetryAfter(_) => false,
        },
{
    if is_retryable(&outcome) && attempt < policy.max_retries {
        StepAction::RetryAfter(policy.delay_ms(attempt))
    } else {
        match resolve_outcome(outcome) {
            Ok(c) => StepAction::Deliver(c),
            Err(e) => StepAction::Fail(e),
        }
    }
}

/// How many attempts a run makes when the transport produces the given
/// outcomes in order and `budget` retries may follow the first attempt.
pub open spec fn spec_attempts(outcomes: Seq<AttemptOutcome>, budget: nat) -> nat
    decreases budget,
{
    if outcomes.len() == 0 {
        0
    } else if !spec_retryable(outcomes[0]) || budget == 0 {
        1
    } else {
        1 + spec_attempts(outcomes.drop_first(), (budget - 1) as nat)
    }
}

/// Run a whole execution against a given sequence of transport outcomes:
/// one outcome is consumed per attempt; retryable outcomes are absorbed
/// until the retry budget is spent, and the outcome of the final attempt
/// resolves the call.
pub fn run_attempts(policy: &RetryPolicy, outcomes: Vec<AttemptOutcome>) -> (r: (
    Result<ChatCompletion, GrokError>,
    u64,
))
    requires
        outcomes@.len() > policy.max_retries,
    ensures
        r.1 == spec_attempts(outcomes@, policy.max_retries as nat),
        1 <= r.1 <= policy.max_retries + 1,
        resolves(outcomes@[r.1 - 1], r.0),
        forall|j: int| 0 <= j < r.1 - 1 ==> spec_retryable(#[trigger] outcomes@[j]),
{
    let ghost all = outcomes@;
    let ghost budget = policy.max_retries as nat;
    let mut rest = outcomes;
    let mut attempt: u32 = 0;
    loop
        invariant
            all == outcomes@,
            attempt <= policy.max_retries,
            budget == policy.max_retries as nat,
            all.len() > policy.max_retries,
            rest@ == all.skip(attempt as int),
            spec_attempts(all, budget) == attempt + spec_attempts(
                rest@,
                (budget - attempt) as nat,
            ),
            forall|j: int| 0 <= j < attempt ==> spec_retryable(#[trigger] all[j]),
        decreases policy.max_retries - attempt,
    {
        let o = rest.remove(0);
        proof {
            assert(o == all[attempt as int]);
            assert(rest@ =~= all.skip(attempt as int + 1));
        }
        let retry = is_retryable(&o);
        if !retry || attempt == policy.max_retries {
            let result = resolve_outcome(o);
            proof {
                assert(spec_attempts(all.skip(attempt as int), (budget - attempt) as nat) == 1);
            }
            return (result, attempt as u64 + 1);
        }
        proof {
            assert(spec_attempts(all.skip(attempt as int), (budget - attempt) as nat) == 1
                + spec_attempts(all.skip(attempt as int).drop_first(), (budget - attempt
                - 1) as nat));
            assert(all.skip(attempt as int).drop_first() =~= all.skip(attempt as int + 1));
        }
        attempt = attempt + 1;
    }
}

/// A run whose outcomes are all retryable spends the whole retry budget:
/// with more outcomes available than the budget allows, exactly
/// `budget + 1` attempts are made.
pub proof fn lemma_retry_budget_spent(outcomes: Seq<AttemptOutcome>, budget: nat)
    requires
        outcomes.len() > budget,
        forall|j: int| 0 <= j < outcomes.len() ==> spec_retryable(#[trigger] outcomes[j]),
    ensures
        spec_attempts(outcomes, budget) == budget + 1,
    decreases budget,
{
    if budget > 0 {
        lemma_retry_budget_spent(outcomes.drop_first(), (budget - 1) as nat);
    }
}

/// A terminal first outcome is never retried: exactly one attempt is made,
/// whatever the budget.
pub proof fn lemma_terminal_not_retried(outcomes: Seq<AttemptOutcome>, budget: nat)
    requires
        outcomes.len() > 0,
        !spec_retryable(outcomes[0]),
    ensures
        spec_attempts(outcomes, budget) == 1,
{
}

} // verus!
