//! Sending one record: how often to try, how long to wait in between, and
//! when to give up. The caller sends and sleeps; this module decides.

use vstd::prelude::*;
use vstd::arithmetic::power2::lemma2_to64;
use vstd::arithmetic::power2::lemma2_to64_rest;
use vstd::arithmetic::power2::lemma_pow2_strictly_increases;
use vstd::arithmetic::power2::lemma_pow2_unfold;
use vstd::arithmetic::power2::pow2;

verus! {

/// How many times a record is sent before it is dropped.
pub const MAX_ATTEMPTS: u32 = 3;

/// The wait after the first failed attempt, in milliseconds.
pub const BASE_BACKOFF_MS: u64 = 500;

/// The time allowed for one request, in seconds.
pub const REQUEST_TIMEOUT_SECS: u64 = 10;

/// The largest attempt number whose backoff fits in 64 bits.
pub const MAX_BACKOFF_ATTEMPT: u32 = 56;

/// What came of one attempt to send a record.
#[derive(Clone, Copy, PartialEq, Eq, Structural, Debug)]
pub enum AttemptOutcome {
    /// The collector answered with this HTTP status.
    Status(u16),
    /// No answer came: the connection failed or the request timed out.
    TransportError,
}

/// The success range of HTTP statuses.
pub open spec fn is_success_status(code: u16) -> bool {
    200 <= code <= 299
}

/// An attempt succeeds when the collector answers with a success status.
pub open spec fn succeeded(outcome: AttemptOutcome) -> bool {
    outcome matches AttemptOutcome::Status(code) && is_success_status(code)
}

/// The wait after failed attempt number `attempt` (counted from 1), in
/// milliseconds: 500 doubled once for each earlier attempt.
pub open spec fn backoff_ms(attempt: nat) -> nat {
    BASE_BACKOFF_MS as nat * pow2((attempt - 1) as nat)
}

/// What follows an attempt.
pub enum DeliveryStepView {
    /// The record arrived.
    Delivered,
    /// Wait, then send again as attempt number `attempt`.
    RetryAfter { wait_ms: nat, attempt: nat },
    /// The record is given up.
    Dropped,
}

/// What follows attempt number `attempt` with this outcome: done on success,
/// another attempt after the backoff while fewer than `MAX_ATTEMPTS` were
/// made, else the record is dropped.
pub open spec fn after_attempt_spec(attempt: nat, outcome: AttemptOutcome) -> DeliveryStepView {
    if succeeded(outcome) {
        DeliveryStepView::Delivered
    } else if attempt < MAX_ATTEMPTS {
        DeliveryStepView::RetryAfter { wait_ms: backoff_ms(attempt), attempt: attempt + 1 }
    } else {
        DeliveryStepView::Dropped
    }
}

/// Whether an attempt with this outcome delivered the record.
pub fn is_success(outcome: AttemptOutcome) -> (ok: bool)
    ensures
        ok == succeeded(outcome),
{
    match outcome {
        AttemptOutcome::Status(code) => 200 <= code && code <= 299,
        AttemptOutcome::TransportError => false,
    }
}

/// The wait after failed attempt number `attempt`, in milliseconds.
pub fn backoff_millis(attempt: u32) -> (wait_ms: u64)
    requires
        1 <= attempt <= MAX_BACKOFF_ATTEMPT,
    ensures
        wait_ms == backoff_ms(attempt as nat),
{
    let mut wait_ms: u64 = BASE_BACKOFF_MS;
    let mut made: u32 = 1;
    proof {
        lemma2_to64();
    }
    while made < attempt
        invariant
            1 <= made <= attempt <= MAX_BACKOFF_ATTEMPT,
            wait_ms == backoff_ms(made as nat),
        decreases attempt - made,
    {
        proof {
            lemma_pow2_unfold(made as nat);
            lemma_backoff_fits(made as nat + 1);
        }
        wait_ms = wait_ms * 2;
        made = made + 1;
    }
    wait_ms
}

/// The backoff fits in 64 bits up to attempt `MAX_BACKOFF_ATTEMPT`.
pub proof fn lemma_backoff_fits(attempt: nat)
    requires
        1 <= attempt <= MAX_BACKOFF_ATTEMPT,
    ensures
        backoff_ms(attempt) <= u64::MAX,
{
    lemma2_to64_rest();
    let doublings = (attempt - 1) as nat;
    if doublings < 55 {
        lemma_pow2_strictly_increases(doublings, 55);
    }
    assert(500 * pow2(doublings) <= 500 * 0x80_0000_0000_0000) by (nonlinear_arith)
        requires
            pow2(doublings) <= 0x80_0000_0000_0000,
    ;
}

/// The delivery of one record, between two attempts: it knows the number of
/// the attempt that is under way, which is at least 1 and at most
/// `MAX_ATTEMPTS`.
#[derive(Clone, Copy, PartialEq, Eq, Debug)]
pub struct Delivery {
    attempt: u32,
}

/// What to do after an attempt.
#[derive(Clone, Copy, PartialEq, Eq, Debug)]
pub enum DeliveryStep {
    /// The record arrived: nothing more to do.
    Delivered,
    /// Wait `wait_ms` milliseconds, then send again and report to `next`.
    RetryAfter { wait_ms: u64, next: Delivery },
    /// Every attempt failed: the record is given up.
    Dropped,
}

impl View for Delivery {
    type V = nat;

    closed spec fn view(&self) -> nat {
        self.attempt as nat
    }
}

impl View for DeliveryStep {
    type V = DeliveryStepView;

    open spec fn view(&self) -> DeliveryStepView {
        match self {
            DeliveryStep::Delivered => DeliveryStepView::Delivered,
            DeliveryStep::RetryAfter { wait_ms, next } => DeliveryStepView::RetryAfter {
                wait_ms: *wait_ms as nat,
                attempt: next@,
            },
            DeliveryStep::Dropped => DeliveryStepView::Dropped,
        }
    }
}

impl Delivery {
    #[verifier::type_invariant]
    spec fn in_range(self) -> bool {
        1 <= self.attempt <= MAX_ATTEMPTS
    }

    /// The delivery of a record starts with attempt number 1.
    pub fn begin() -> (delivery: Delivery)
        ensures
            delivery@ == 1,
    {
        Delivery { attempt: 1 }
    }

    /// The number of the attempt under way.
    pub fn attempt(&self) -> (attempt: u32)
        ensures
            attempt == self@,
            1 <= attempt <= MAX_ATTEMPTS,
    {
        proof {
            use_type_invariant(self);
        }
        self.attempt
    }

    /// What to do now that the attempt under way has ended with `outcome`.
    pub fn after_attempt(self, outcome: AttemptOutcome) -> (step: DeliveryStep)
        ensures
            step@ == after_attempt_spec(self@, outcome),
    {
        proof {
            use_type_invariant(self);
        }
        if is_success(outcome) {
            DeliveryStep::Delivered
        } else if self.attempt < MAX_ATTEMPTS {
            DeliveryStep::RetryAfter {
                wait_ms: backoff_millis(self.attempt),
                next: Delivery { attempt: self.attempt + 1 },
            }
        } else {
            DeliveryStep::Dropped
        }
    }
}

/// How the delivery of a record ended.
pub enum Verdict {
    /// An attempt succeeded.
    Delivered,
    /// `MAX_ATTEMPTS` attempts failed.
    Dropped,
    /// Neither yet: every outcome so far was a failure and attempts remain.
    Pending,
}

/// What a delivery did: how many attempts it made, the waits between them,
/// and how it stands.
pub struct DeliveryTrace {
    pub attempts: nat,
    pub waits: Seq<nat>,
    pub verdict: Verdict,
}

/// The course of a delivery that is about to make attempt number `attempt`
/// when the attempts it makes end with `outcomes`, in this order. Outcomes
/// past the end of the delivery are never asked for.
pub open spec fn delivery_trace(attempt: nat, outcomes: Seq<AttemptOutcome>) -> DeliveryTrace
    decreases outcomes.len(),
{
    if outcomes.len() == 0 {
        DeliveryTrace { attempts: 0, waits: seq![], verdict: Verdict::Pending }
    } else {
        match after_attempt_spec(attempt, outcomes.first()) {
            DeliveryStepView::Delivered => DeliveryTrace {
                attempts: 1,
                waits: seq![],
                verdict: Verdict::Delivered,
            },
            DeliveryStepView::Dropped => DeliveryTrace {
                attempts: 1,
                waits: seq![],
                verdict: Verdict::Dropped,
            },
            DeliveryStepView::RetryAfter { wait_ms, attempt: next } => {
                let rest = delivery_trace(next, outcomes.drop_first());
                DeliveryTrace {
                    attempts: 1 + rest.attempts,
                    waits: seq![wait_ms] + rest.waits,
                    verdict: rest.verdict,
                }
            },
        }
    }
}

/// A delivery never makes more than `MAX_ATTEMPTS` attempts, whatever the
/// collector does and however many outcomes are on offer.
pub proof fn lemma_attempts_are_bounded(attempt: nat, outcomes: Seq<AttemptOutcome>)
    requires
        1 <= attempt <= MAX_ATTEMPTS,
    ensures
        delivery_trace(attempt, outcomes).attempts <= MAX_ATTEMPTS + 1 - attempt,
        delivery_trace(attempt, outcomes).attempts <= outcomes.len(),
    decreases outcomes.len(),
{
    if outcomes.len() > 0 && !succeeded(outcomes.first()) && attempt < MAX_ATTEMPTS {
        lemma_attempts_are_bounded(attempt + 1, outcomes.drop_first());
    }
}

/// A delivery waits between attempts and not after the last one, and the
/// wait after attempt number `n` is 500 ms doubled `n - 1` times.
pub proof fn lemma_waits_follow_backoff(attempt: nat, outcomes: Seq<AttemptOutcome>)
    requires
        1 <= attempt <= MAX_ATTEMPTS,
    ensures
        ({
            let trace = delivery_trace(attempt, outcomes);
            &&& trace.verdict == Verdict::Pending ==> trace.waits.len() == trace.attempts
            &&& trace.verdict != Verdict::Pending ==> trace.waits.len() + 1 == trace.attempts
            &&& forall|k: int|
                0 <= k < trace.waits.len() ==> #[trigger] trace.waits[k] == backoff_ms(
                    (attempt + k) as nat,
                )
        }),
    decreases outcomes.len(),
{
    if outcomes.len() > 0 && !succeeded(outcomes.first()) && attempt < MAX_ATTEMPTS {
        let rest = delivery_trace(attempt + 1, outcomes.drop_first());
        lemma_waits_follow_backoff(attempt + 1, outcomes.drop_first());
        let trace = delivery_trace(attempt, outcomes);
        assert forall|k: int| 0 <= k < trace.waits.len() implies #[trigger] trace.waits[k]
            == backoff_ms((attempt + k) as nat) by {
            if k > 0 {
                assert(trace.waits[k] == rest.waits[k - 1]);
            }
        }
    }
}

/// A record is delivered exactly when one of the attempts that are made
/// succeeds, and dropped exactly when `MAX_ATTEMPTS` attempts in a row fail.
pub proof fn lemma_verdict(attempt: nat, outcomes: Seq<AttemptOutcome>)
    requires
        1 <= attempt <= MAX_ATTEMPTS,
    ensures
        delivery_trace(attempt, outcomes).verdict == Verdict::Delivered <==> exists|i: int|
            0 <= i < outcomes.len() && attempt + i <= MAX_ATTEMPTS && succeeded(
                #[trigger] outcomes[i],
            ),
        delivery_trace(attempt, outcomes).verdict == Verdict::Dropped <==> (attempt
            + outcomes.len() > MAX_ATTEMPTS && forall|i: int|
            0 <= i < outcomes.len() && attempt + i <= MAX_ATTEMPTS ==> !succeeded(
                #[trigger] outcomes[i],
            )),
    decreases outcomes.len(),
{
    if outcomes.len() > 0 {
        let rest = outcomes.drop_first();
        if succeeded(outcomes.first()) {
            assert(succeeded(outcomes[0]));
        } else if attempt < MAX_ATTEMPTS {
            lemma_verdict(attempt + 1, rest);
            if delivery_trace(attempt + 1, rest).verdict == Verdict::Delivered {
                let i = choose|i: int|
                    0 <= i < rest.len() && attempt + 1 + i <= MAX_ATTEMPTS && succeeded(
                        #[trigger] rest[i],
                    );
                assert(rest[i] == outcomes[i + 1]);
            }
            if exists|i: int|
                0 <= i < outcomes.len() && attempt + i <= MAX_ATTEMPTS && succeeded(
                    #[trigger] outcomes[i],
                ) {
                let i = choose|i: int|
                    0 <= i < outcomes.len() && attempt + i <= MAX_ATTEMPTS && succeeded(
                        #[trigger] outcomes[i],
                    );
                assert(i > 0);
                assert(rest[i - 1] == outcomes[i]);
            }
            if delivery_trace(attempt + 1, rest).verdict == Verdict::Dropped {
                assert forall|i: int|
                    0 <= i < outcomes.len() && attempt + i <= MAX_ATTEMPTS implies !succeeded(
                    #[trigger] outcomes[i],
                ) by {
                    if i > 0 {
                        assert(rest[i - 1] == outcomes[i]);
                    }
                }
            }
            if attempt + outcomes.len() > MAX_ATTEMPTS && forall|i: int|
                0 <= i < outcomes.len() && attempt + i <= MAX_ATTEMPTS ==> !succeeded(
                    #[trigger] outcomes[i],
                ) {
                assert forall|i: int|
                    0 <= i < rest.len() && attempt + 1 + i <= MAX_ATTEMPTS implies !succeeded(
                    #[trigger] rest[i],
                ) by {
                    assert(rest[i] == outcomes[i + 1]);
                }
            }
        } else {
            assert(!succeeded(outcomes[0]));
        }
    }
}

/// With a collector that answers the first attempt with a success status, a
/// record is delivered at once: one attempt, no wait.
pub proof fn lemma_responsive_collector_delivers(outcomes: Seq<AttemptOutcome>)
    requires
        outcomes.len() >= 1,
        succeeded(outcomes[0]),
    ensures
        delivery_trace(1, outcomes) == (DeliveryTrace {
            attempts: 1,
            waits: Seq::<nat>::empty(),
            verdict: Verdict::Delivered,
        }),
{
    assert(delivery_trace(1, outcomes).waits =~= Seq::<nat>::empty());
}

/// When the first two attempts fail and the third succeeds, exactly three
/// attempts are made, with waits of 500 ms and then 1000 ms, and the record
/// is delivered.
pub proof fn lemma_success_on_third_attempt(outcomes: Seq<AttemptOutcome>)
    requires
        outcomes.len() >= 3,
        !succeeded(outcomes[0]),
        !succeeded(outcomes[1]),
        succeeded(outcomes[2]),
    ensures
        delivery_trace(1, outcomes) == (DeliveryTrace {
            attempts: 3,
            waits: seq![500nat, 1000nat],
            verdict: Verdict::Delivered,
        }),
{
    lemma2_to64();
    let second = outcomes.drop_first();
    let third = second.drop_first();
    assert(second.first() == outcomes[1]);
    assert(third.first() == outcomes[2]);
    assert(delivery_trace(3, third).waits =~= Seq::<nat>::empty());
    assert(delivery_trace(2, second).waits =~= seq![1000nat]);
    assert(delivery_trace(1, outcomes).waits =~= seq![500nat, 1000nat]);
}

/// When the first three attempts fail, exactly three attempts are made, with
/// waits of 500 ms and then 1000 ms, and the record is dropped: there is no
/// fourth attempt, whatever a fourth attempt would have met.
pub proof fn lemma_three_failures_drop(outcomes: Seq<AttemptOutcome>)
    requires
        outcomes.len() >= 3,
        !succeeded(outcomes[0]),
        !succeeded(outcomes[1]),
        !succeeded(outcomes[2]),
    ensures
        delivery_trace(1, outcomes) == (DeliveryTrace {
            attempts: 3,
            waits: seq![500nat, 1000nat],
            verdict: Verdict::Dropped,
        }),
{
    lemma2_to64();
    let second = outcomes.drop_first();
    let third = second.drop_first();
    assert(second.first() == outcomes[1]);
    assert(third.first() == outcomes[2]);
    assert(delivery_trace(3, third).waits =~= Seq::<nat>::empty());
    assert(delivery_trace(2, second).waits =~= seq![1000nat]);
    assert(delivery_trace(1, outcomes).waits =~= seq![500nat, 1000nat]);
}

} // verus!
