//! When to send a request again. A request is sent at most five times; a
//! server error, a "too many requests" answer or a failed connection is
//! retried after a pause of two seconds times the attempts made so far.
use vstd::prelude::*;

verus! {

/// How many times one request is sent at most.
pub const MAX_ATTEMPTS: u32 = 5;

/// What one sending of a request gave.
#[derive(Clone, Copy, Debug, PartialEq, Eq, Structural)]
pub enum SendOutcome {
    /// The server answered with this HTTP status code.
    Response(u16),
    /// No answer: the connection failed or timed out.
    NetworkError,
}

/// What to do after one sending.
#[derive(Clone, Copy, Debug, PartialEq, Eq, Structural)]
pub enum RetryDecision {
    /// Hand the response back: its status is no error.
    Deliver,
    /// Fail with the response's error status, which is not retried.
    Reject,
    /// Pause `seconds`, then send again; `attempts` failed sendings so far.
    Wait { attempts: u32, seconds: u64 },
    /// Fail with the response's error status: retried as often as allowed.
    RejectAfterRetries,
    /// Fail: the connection failed as often as allowed.
    GiveUp,
}

/// 5xx server errors and 429 Too Many Requests are worth another try.
pub open spec fn is_retryable_status(status: u16) -> bool {
    (500 <= status && status <= 599) || status == 429
}

/// The statuses that `Response::error_for_status` turns into an error.
pub open spec fn is_error_status(status: u16) -> bool {
    400 <= status && status <= 599
}

/// The decision after a sending that found `attempts` earlier failed sendings.
pub open spec fn decide(attempts: u32, outcome: SendOutcome) -> RetryDecision {
    let next = attempts + 1;
    let retry = match outcome {
        SendOutcome::Response(s) => is_retryable_status(s),
        SendOutcome::NetworkError => true,
    };
    if retry {
        if next >= MAX_ATTEMPTS {
            match outcome {
                SendOutcome::Response(_) => RetryDecision::RejectAfterRetries,
                SendOutcome::NetworkError => RetryDecision::GiveUp,
            }
        } else {
            RetryDecision::Wait { attempts: next as u32, seconds: (2 * next) as u64 }
        }
    } else {
        match outcome {
            SendOutcome::Response(s) => if is_error_status(s) {
                RetryDecision::Reject
            } else {
                RetryDecision::Deliver
            },
            SendOutcome::NetworkError => RetryDecision::GiveUp,
        }
    }
}

/// Decides what follows a sending of a request, given the failed sendings
/// before it (always fewer than `MAX_ATTEMPTS`).
pub fn retry_decision(attempts: u32, outcome: SendOutcome) -> (res: RetryDecision)
    requires
        attempts < MAX_ATTEMPTS,
    ensures
        res == decide(attempts, outcome),
{
    let next = attempts + 1;
    let retry = match outcome {
        SendOutcome::Response(s) => (500 <= s && s <= 599) || s == 429,
        SendOutcome::NetworkError => true,
    };
    if retry {
        if next >= MAX_ATTEMPTS {
            match outcome {
                SendOutcome::Response(_) => RetryDecision::RejectAfterRetries,
                SendOutcome::NetworkError => RetryDecision::GiveUp,
            }
        } else {
            RetryDecision::Wait { attempts: next, seconds: 2 * (next as u64) }
        }
    } else {
        match outcome {
            SendOutcome::Response(s) => if 400 <= s && s <= 599 {
                RetryDecision::Reject
            } else {
                RetryDecision::Deliver
            },
            SendOutcome::NetworkError => RetryDecision::GiveUp,
        }
    }
}

/// How many sendings a request takes when the sendings give `outcomes` in
/// turn, starting after `attempts` failed ones.
pub open spec fn sendings(attempts: u32, outcomes: Seq<SendOutcome>) -> nat
    decreases outcomes.len(),
{
    if outcomes.len() == 0 {
        0
    } else {
        match decide(attempts, outcomes[0]) {
            RetryDecision::Wait { attempts: a, seconds: _ } => 1 + sendings(
                a,
                outcomes.drop_first(),
            ),
            _ => 1,
        }
    }
}

/// How many seconds a request pauses in all when the sendings give
/// `outcomes` in turn, starting after `attempts` failed ones.
pub open spec fn total_pause(attempts: u32, outcomes: Seq<SendOutcome>) -> nat
    decreases outcomes.len(),
{
    if outcomes.len() == 0 {
        0
    } else {
        match decide(attempts, outcomes[0]) {
            RetryDecision::Wait { attempts: a, seconds: s } => s as nat + total_pause(
                a,
                outcomes.drop_first(),
            ),
            _ => 0,
        }
    }
}

/// A pause follows only a retryable answer or a failed connection, counts
/// one more failed sending, stays under the limit, and lasts two seconds per
/// failed sending.
pub proof fn law_wait_counts_one_more_attempt(attempts: u32, outcome: SendOutcome)
    requires
        attempts < MAX_ATTEMPTS,
    ensures
        decide(attempts, outcome) is Wait ==> {
            &&& decide(attempts, outcome)->attempts == attempts + 1
            &&& decide(attempts, outcome)->attempts < MAX_ATTEMPTS
            &&& decide(attempts, outcome)->seconds == 2 * (attempts + 1)
            &&& (outcome is NetworkError || is_retryable_status(outcome->Response_0))
        },
        (outcome is Response && !is_error_status(outcome->Response_0)) ==> decide(attempts, outcome)
            == RetryDecision::Deliver,
{
}

/// Whatever the answers, a request is sent at most `MAX_ATTEMPTS` times
/// after `attempts` failed sendings, and pauses at most
/// 2 * (attempts + 1) + ... + 2 * (MAX_ATTEMPTS - 1) seconds in all.
pub proof fn law_bounded_retries(attempts: u32, outcomes: Seq<SendOutcome>)
    requires
        attempts < MAX_ATTEMPTS,
    ensures
        sendings(attempts, outcomes) <= MAX_ATTEMPTS - attempts,
        total_pause(attempts, outcomes) <= 20 - attempts * (attempts + 1),
    decreases outcomes.len(),
{
    assert(attempts * (attempts + 1) <= 20) by (nonlinear_arith)
        requires
            attempts < 5,
    ;
    if outcomes.len() > 0 {
        if decide(attempts, outcomes[0]) is Wait {
            law_bounded_retries((attempts + 1) as u32, outcomes.drop_first());
            assert(attempts * (attempts + 1) + 2 * (attempts + 1) == (attempts + 1) * (attempts
                + 2)) by (nonlinear_arith);
        }
    }
}

/// From a first sending, a request is sent at most five times and pauses at
/// most twenty seconds in all.
pub proof fn law_at_most_five_sendings(outcomes: Seq<SendOutcome>)
    ensures
        sendings(0, outcomes) <= 5,
        total_pause(0, outcomes) <= 20,
{
    law_bounded_retries(0, outcomes);
}

/// The decision for each answer, by status code: every 5xx server error and
/// 429 is retried with a pause of two seconds per failed sending while fewer
/// than `MAX_ATTEMPTS` sendings were made, and ends in `RejectAfterRetries` at
/// the last one; any other 4xx is rejected at once; any other status is
/// delivered; a failed connection is retried like a server error and ends in
/// `GiveUp`.
pub proof fn law_decision_by_status(attempts: u32, status: u16)
    requires
        attempts < MAX_ATTEMPTS,
    ensures
        (500 <= status <= 599 || status == 429) ==> decide(attempts, SendOutcome::Response(status))
            == if attempts + 1 < 5 {
            RetryDecision::Wait {
                attempts: (attempts + 1) as u32,
                seconds: (2 * (attempts + 1)) as u64,
            }
        } else {
            RetryDecision::RejectAfterRetries
        },
        (400 <= status <= 499 && status != 429) ==> decide(attempts, SendOutcome::Response(status))
            == RetryDecision::Reject,
        (status < 400 || status > 599) ==> decide(attempts, SendOutcome::Response(status))
            == RetryDecision::Deliver,
        decide(attempts, SendOutcome::NetworkError) == if attempts + 1 < 5 {
            RetryDecision::Wait {
                attempts: (attempts + 1) as u32,
                seconds: (2 * (attempts + 1)) as u64,
            }
        } else {
            RetryDecision::GiveUp
        },
{
}

} // verus!
