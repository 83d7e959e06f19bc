//! Outcome classification and the retry decision.
//!
//! The transport hands back one outcome per attempt: an HTTP status or a
//! transport-level failure. A response in the 200s is a delivery; a response
//! in the 500s, or a transport failure, is transient and worth retrying; any
//! other response is permanent and surfaced at once. A delivery is attempted
//! at most `1 + max_retries` times.

use vstd::prelude::*;
use vstd::string::*;
use crate::error::NotificationError;

verus! {

/// What one transport attempt came back with.
#[derive(Debug)]
pub enum AttemptOutcome {
    /// The remote endpoint answered with this HTTP status.
    Status(u16),
    /// The request never got an answer; the text names the failure.
    TransportFailure(String),
}

/// How one outcome is classified.
#[derive(Clone, Copy, PartialEq, Eq, Structural, Debug)]
pub enum Disposition {
    /// A status in the 200s: the notification was delivered.
    Delivered,
    /// A status in the 500s or a transport failure: transient, retried.
    Retryable,
    /// Any other status: permanent, surfaced at once.
    Permanent,
}

/// The classification of one outcome.
pub open spec fn disposition_of(o: AttemptOutcome) -> Disposition {
    match o {
        AttemptOutcome::Status(s) => if 200 <= s < 300 {
            Disposition::Delivered
        } else if 500 <= s < 600 {
            Disposition::Retryable
        } else {
            Disposition::Permanent
        },
        AttemptOutcome::TransportFailure(_) => Disposition::Retryable,
    }
}

/// Classifies one transport outcome.
pub fn classify_outcome(o: &AttemptOutcome) -> (d: Disposition)
    ensures
        d == disposition_of(*o),
{
    match o {
        AttemptOutcome::Status(s) => {
            if 200 <= *s && *s < 300 {
                Disposition::Delivered
            } else if 500 <= *s && *s < 600 {
                Disposition::Retryable
            } else {
                Disposition::Permanent
            }
        },
        AttemptOutcome::TransportFailure(_) => Disposition::Retryable,
    }
}

/// How often a failed delivery is retried after its first attempt.
#[derive(Debug)]
pub struct RetryPolicy {
    pub max_retries: u32,
}

impl RetryPolicy {
    /// A policy that retries `max_retries` times.
    pub fn new(max_retries: u32) -> (p: RetryPolicy)
        ensures
            p.max_retries == max_retries,
    {
        RetryPolicy { max_retries }
    }
}

impl Default for RetryPolicy {
    /// Three retries, so at most four attempts.
    fn default() -> (p: RetryPolicy)
        ensures
            p.max_retries == 3,
    {
        RetryPolicy { max_retries: 3 }
    }
}

/// What the delivery loop does after an attempt.
#[derive(Clone, Copy, PartialEq, Eq, Structural, Debug)]
pub enum NextStep {
    /// The notification was delivered; the delivery ends in success.
    Succeed,
    /// The outcome was transient and the attempt budget is not spent: try
    /// again.
    Retry,
    /// The delivery ends in failure: the outcome was permanent, or the
    /// budget is spent.
    Fail,
}

/// The decision after `attempts_made` attempts, the last of which came back
/// with an outcome of disposition `d`.
pub open spec fn decision_of(max_retries: u32, attempts_made: u64, d: Disposition) -> NextStep {
    match d {
        Disposition::Delivered => NextStep::Succeed,
        Disposition::Permanent => NextStep::Fail,
        Disposition::Retryable => if attempts_made <= max_retries {
            NextStep::Retry
        } else {
            NextStep::Fail
        },
    }
}

/// Decides whether to stop or retry after one attempt. `attempts_made`
/// counts the attempts performed so far, the one that produced `outcome`
/// included; a transient failure is retried while `attempts_made` has not
/// passed `max_retries`, so a delivery is attempted at most `1 +
/// max_retries` times.
pub fn retry_decision(policy: &RetryPolicy, attempts_made: u64, outcome: &AttemptOutcome) -> (s:
    NextStep)
    ensures
        s == decision_of(policy.max_retries, attempts_made, disposition_of(*outcome)),
{
    match classify_outcome(outcome) {
        Disposition::Delivered => NextStep::Succeed,
        Disposition::Permanent => NextStep::Fail,
        Disposition::Retryable => {
            if attempts_made <= policy.max_retries as u64 {
                NextStep::Retry
            } else {
                NextStep::Fail
            }
        },
    }
}

/// The dispositions of a script of outcomes, in order.
pub open spec fn dispositions_of(s: Seq<AttemptOutcome>) -> Seq<Disposition> {
    s.map_values(|o: AttemptOutcome| disposition_of(o))
}

/// How many attempts a delivery makes from script position `k` on, when `k`
/// attempts were already made.
pub open spec fn attempts_from(ds: Seq<Disposition>, max_retries: u32, k: int) -> int
    decreases ds.len() - k,
        when 0 <= k <= ds.len()
{
    if k >= ds.len() {
        0
    } else {
        match ds[k] {
            Disposition::Delivered => 1,
            Disposition::Permanent => 1,
            Disposition::Retryable => if k + 1 <= max_retries {
                1 + attempts_from(ds, max_retries, k + 1)
            } else {
                1
            },
        }
    }
}

/// Whether a delivery succeeds from script position `k` on, when `k`
/// attempts were already made.
pub open spec fn delivery_succeeds(ds: Seq<Disposition>, max_retries: u32, k: int) -> bool
    decreases ds.len() - k,
        when 0 <= k <= ds.len()
{
    if k >= ds.len() {
        false
    } else {
        match ds[k] {
            Disposition::Delivered => true,
            Disposition::Permanent => false,
            Disposition::Retryable => if k + 1 <= max_retries {
                delivery_succeeds(ds, max_retries, k + 1)
            } else {
                false
            },
        }
    }
}

/// Replays a delivery against a script that holds one transport outcome per
/// attempt. Returns how many attempts were made and the final result: the
/// number of attempts and the result are exactly what the decision rule
/// yields on the script.
pub fn run_delivery(policy: &RetryPolicy, outcomes: &Vec<AttemptOutcome>) -> (r: (u64, Result<
    (),
    NotificationError,
>))
    requires
        outcomes@.len() > policy.max_retries,
    ensures
        r.0 == attempts_from(dispositions_of(outcomes@), policy.max_retries, 0),
        r.1 is Ok <==> delivery_succeeds(dispositions_of(outcomes@), policy.max_retries, 0),
        r.1 is Err ==> r.1->Err_0 is NotifyFailed,
{
    let ghost ds = dispositions_of(outcomes@);
    let mut k: u64 = 0;
    loop
        invariant
            0 <= k <= policy.max_retries,
            outcomes@.len() > policy.max_retries,
            ds == dispositions_of(outcomes@),
            ds.len() == outcomes@.len(),
            attempts_from(ds, policy.max_retries, 0) == k + attempts_from(
                ds,
                policy.max_retries,
                k as int,
            ),
            delivery_succeeds(ds, policy.max_retries, 0) == delivery_succeeds(
                ds,
                policy.max_retries,
                k as int,
            ),
        decreases policy.max_retries - k,
    {
        proof {
            assert(ds[k as int] == disposition_of(outcomes@[k as int]));
        }
        let outcome = &outcomes[k as usize];
        let attempts_made = k + 1;
        match retry_decision(policy, attempts_made, outcome) {
            NextStep::Succeed => {
                return (attempts_made, Ok(()));
            },
            NextStep::Fail => {
                let message = String::from_str("notification request failed");
                return (attempts_made, Err(NotificationError::notify_failed(message, None)));
            },
            NextStep::Retry => {
                k = attempts_made;
            },
        }
    }
}

/// A transport that keeps answering with a transient failure is attempted
/// exactly `1 + max_retries` times, and the delivery fails.
pub proof fn lemma_retry_exhaustion(ds: Seq<Disposition>, max_retries: u32)
    requires
        ds.len() > max_retries,
        forall|i: int| 0 <= i < ds.len() ==> ds[i] is Retryable,
    ensures
        attempts_from(ds, max_retries, 0) == max_retries + 1,
        !delivery_succeeds(ds, max_retries, 0),
{
    lemma_retry_exhaustion_from(ds, max_retries, 0);
}

proof fn lemma_retry_exhaustion_from(ds: Seq<Disposition>, max_retries: u32, k: int)
    requires
        0 <= k <= max_retries,
        ds.len() > max_retries,
        forall|i: int| 0 <= i < ds.len() ==> ds[i] is Retryable,
    ensures
        attempts_from(ds, max_retries, k) == max_retries + 1 - k,
        !delivery_succeeds(ds, max_retries, k),
    decreases max_retries - k,
{
    if k < max_retries {
        lemma_retry_exhaustion_from(ds, max_retries, k + 1);
    }
}

/// A permanent failure is surfaced after exactly one attempt, whatever the
/// retry budget.
pub proof fn lemma_permanent_once(ds: Seq<Disposition>, max_retries: u32)
    requires
        ds.len() >= 1,
        ds[0] is Permanent,
    ensures
        attempts_from(ds, max_retries, 0) == 1,
        !delivery_succeeds(ds, max_retries, 0),
{
}

} // verus!
