use vstd::prelude::*;

use crate::blockchain::u256::hex_number_valid;
use crate::bytes::{after_sep, before_sep, count_byte};
use crate::hexcodec::hex_valid;

verus! {

/// The byte separating a settlement directive's components: `:`.
pub const DIRECTIVE_SEPARATOR: u8 = 58;

/// The lowest HTTP status the settlement channel answers with on failure.
pub const ROUTE_ERROR_STATUS: u16 = 400;

/// A decodable settlement directive `hex_calldata:hex_value`, as the
/// settlement process writes one per completed swap on its output
/// channel: exactly one separator, well-formed hexadecimal calldata, and
/// a value that denotes a 256-bit number.
pub open spec fn directive_well_formed(line: Seq<u8>) -> bool {
    &&& count_byte(line, DIRECTIVE_SEPARATOR) == 1
    &&& hex_valid(before_sep(line, DIRECTIVE_SEPARATOR))
    &&& hex_number_valid(after_sep(line, DIRECTIVE_SEPARATOR))
}

/// The three nested time budgets of the readiness gate, in milliseconds:
/// the outer deadline bounding the whole wait, the per-attempt connection
/// timeout, and the backoff slept between attempts.
#[derive(Clone, Copy, Debug, PartialEq, Eq, Structural)]
pub struct RetryTimeouts {
    pub main_ms: u64,
    pub connection_ms: u64,
    pub retry_ms: u64,
}

/// The default outer deadline: 30 s.
pub const DEFAULT_MAIN_TIMEOUT_MS: u64 = 30_000;

/// The default per-attempt connection timeout: 5 s.
pub const DEFAULT_CONNECTION_TIMEOUT_MS: u64 = 5_000;

/// The default inter-attempt backoff: 500 ms.
pub const DEFAULT_RETRY_TIMEOUT_MS: u64 = 500;

/// Fills each absent budget with its default.
pub fn resolve_timeouts(timeouts: (Option<u64>, Option<u64>, Option<u64>)) -> (r: RetryTimeouts)
    ensures
        r.main_ms == match timeouts.0 {
            Some(t) => t,
            None => DEFAULT_MAIN_TIMEOUT_MS,
        },
        r.connection_ms == match timeouts.1 {
            Some(t) => t,
            None => DEFAULT_CONNECTION_TIMEOUT_MS,
        },
        r.retry_ms == match timeouts.2 {
            Some(t) => t,
            None => DEFAULT_RETRY_TIMEOUT_MS,
        },
{
    RetryTimeouts {
        main_ms: match timeouts.0 {
            Some(t) => t,
            None => DEFAULT_MAIN_TIMEOUT_MS,
        },
        connection_ms: match timeouts.1 {
            Some(t) => t,
            None => DEFAULT_CONNECTION_TIMEOUT_MS,
        },
        retry_ms: match timeouts.2 {
            Some(t) => t,
            None => DEFAULT_RETRY_TIMEOUT_MS,
        },
    }
}

/// The outcome of one health-endpoint attempt, as the caller observed it.
#[derive(Clone, Copy, Debug, PartialEq, Eq, Structural)]
pub enum ConnectionAttempt {
    /// Some response arrived within the attempt's budget.
    Success,
    /// The attempt timed out or the connection failed.
    Failure,
}

/// One decision of the readiness gate.
#[derive(Clone, Copy, Debug, PartialEq, Eq, Structural)]
pub enum ConnectionDecision {
    /// The endpoint answered in time: the sidecar is ready.
    Connected,
    /// Sleep the backoff and try again.
    RetryAfterBackoff,
    /// The outer deadline expired: a hard startup failure.
    TimedOut,
}

/// One observed attempt: its outcome and how long it took.
#[derive(Clone, Copy, Debug, PartialEq, Eq, Structural)]
pub struct AttemptRecord {
    pub outcome: ConnectionAttempt,
    pub spent_ms: u64,
}

/// What a whole wait ends in, with the time it charged.
#[derive(Clone, Copy, Debug, PartialEq, Eq, Structural)]
pub enum WaitResult {
    /// The endpoint answered before the outer deadline.
    Connected { elapsed_ms: u64 },
    /// The outer deadline expired; it interrupts even mid-attempt, so the
    /// elapsed time is exactly the deadline.
    TimedOut { elapsed_ms: u64 },
    /// The attempts ran out before either; the caller keeps polling.
    Pending { elapsed_ms: u64 },
}

/// Time accounting, saturated at the outer deadline: the deadline
/// interrupts whatever it strikes in the middle of.
pub open spec fn spec_charge(elapsed: u64, spent: u64, cap: u64) -> u64 {
    if elapsed + spent >= cap {
        cap
    } else {
        (elapsed + spent) as u64
    }
}

/// One gate step: charge the attempt's time; past the deadline the wait
/// has timed out, on a success it has connected, and otherwise the backoff
/// is charged too and the attempt retried.
pub open spec fn spec_note(
    timeouts: RetryTimeouts,
    elapsed: u64,
    outcome: ConnectionAttempt,
    spent: u64,
) -> (ConnectionDecision, u64) {
    let charged = spec_charge(elapsed, spent, timeouts.main_ms);
    if charged >= timeouts.main_ms {
        (ConnectionDecision::TimedOut, timeouts.main_ms)
    } else if outcome == ConnectionAttempt::Success {
        (ConnectionDecision::Connected, charged)
    } else {
        (ConnectionDecision::RetryAfterBackoff, spec_charge(charged, timeouts.retry_ms, timeouts.main_ms))
    }
}

/// The readiness gate of the settlement sidecar: decides, attempt by
/// attempt, whether startup has connected, must retry, or has run out of
/// its outer deadline.
#[derive(Clone, Copy, Debug, PartialEq, Eq, Structural)]
pub struct ConnectionGate {
    pub timeouts: RetryTimeouts,
    pub elapsed_ms: u64,
}

impl ConnectionGate {
    /// The accounted time never passes the outer deadline.
    pub open spec fn wf(self) -> bool {
        self.elapsed_ms <= self.timeouts.main_ms
    }

    pub fn new(timeouts: RetryTimeouts) -> (r: ConnectionGate)
        ensures
            r.timeouts == timeouts,
            r.elapsed_ms == 0,
            r.wf(),
    {
        ConnectionGate { timeouts, elapsed_ms: 0 }
    }

    /// Notes one attempt and decides what follows it.
    pub fn note_attempt(&mut self, outcome: ConnectionAttempt, spent_ms: u64) -> (r:
        ConnectionDecision)
        requires
            old(self).wf(),
        ensures
            final(self).wf(),
            final(self).timeouts == old(self).timeouts,
            r == spec_note(old(self).timeouts, old(self).elapsed_ms, outcome, spent_ms).0,
            final(self).elapsed_ms == spec_note(
                old(self).timeouts,
                old(self).elapsed_ms,
                outcome,
                spent_ms,
            ).1,
    {
        let main = self.timeouts.main_ms;
        if spent_ms >= main - self.elapsed_ms {
            self.elapsed_ms = main;
            return ConnectionDecision::TimedOut;
        }
        self.elapsed_ms = self.elapsed_ms + spent_ms;
        match outcome {
            ConnectionAttempt::Success => ConnectionDecision::Connected,
            ConnectionAttempt::Failure => {
                if self.timeouts.retry_ms >= main - self.elapsed_ms {
                    self.elapsed_ms = main;
                } else {
                    self.elapsed_ms = self.elapsed_ms + self.timeouts.retry_ms;
                }
                ConnectionDecision::RetryAfterBackoff
            },
        }
    }
}

/// The wait a given run of attempts ends in, from a given charge.
pub open spec fn spec_wait(
    timeouts: RetryTimeouts,
    elapsed: u64,
    attempts: Seq<AttemptRecord>,
) -> WaitResult
    decreases attempts.len(),
{
    if attempts.len() == 0 {
        WaitResult::Pending { elapsed_ms: elapsed }
    } else {
        let step = spec_note(timeouts, elapsed, attempts[0].outcome, attempts[0].spent_ms);
        if step.0 == ConnectionDecision::Connected {
            WaitResult::Connected { elapsed_ms: step.1 }
        } else if step.0 == ConnectionDecision::TimedOut {
            WaitResult::TimedOut { elapsed_ms: step.1 }
        } else {
            spec_wait(timeouts, step.1, attempts.skip(1))
        }
    }
}

/// Replays a run of health-endpoint attempts through the readiness gate:
/// the decision procedure of `wait_for_connection`, on the record of what
/// each attempt did.
pub fn wait_for_connection(timeouts: RetryTimeouts, attempts: &Vec<AttemptRecord>) -> (r:
    WaitResult)
    ensures
        r == spec_wait(timeouts, 0, attempts@),
{
    let mut gate = ConnectionGate::new(timeouts);
    let mut i: usize = 0;
    proof {
        assert(attempts@.skip(0) =~= attempts@);
    }
    while i < attempts.len()
        invariant
            i <= attempts.len(),
            gate.wf(),
            gate.timeouts == timeouts,
            spec_wait(timeouts, 0, attempts@) == spec_wait(
                timeouts,
                gate.elapsed_ms,
                attempts@.skip(i as int),
            ),
        decreases attempts.len() - i,
    {
        proof {
            assert(attempts@.skip(i as int)[0] == attempts@[i as int]);
            assert(attempts@.skip(i as int).skip(1) =~= attempts@.skip(i as int + 1));
        }
        let record = attempts[i];
        let decision = gate.note_attempt(record.outcome, record.spent_ms);
        match decision {
            ConnectionDecision::Connected => {
                return WaitResult::Connected { elapsed_ms: gate.elapsed_ms };
            },
            ConnectionDecision::TimedOut => {
                return WaitResult::TimedOut { elapsed_ms: gate.elapsed_ms };
            },
            ConnectionDecision::RetryAfterBackoff => {},
        }
        i += 1;
    }
    proof {
        assert(attempts@.skip(attempts@.len() as int) =~= Seq::<AttemptRecord>::empty());
    }
    WaitResult::Pending { elapsed_ms: gate.elapsed_ms }
}

/// The time a run of failed attempts consumes, backoffs included.
pub open spec fn budget_spent(attempts: Seq<AttemptRecord>, retry_ms: u64) -> int
    decreases attempts.len(),
{
    if attempts.len() == 0 {
        0
    } else {
        attempts[0].spent_ms + retry_ms + budget_spent(attempts.skip(1), retry_ms)
    }
}

/// The attempts' own time, without backoffs.
pub open spec fn spent_sum(attempts: Seq<AttemptRecord>) -> int
    decreases attempts.len(),
{
    if attempts.len() == 0 {
        0
    } else {
        attempts[0].spent_ms + spent_sum(attempts.skip(1))
    }
}

pub proof fn lemma_budget_spent_nonneg(attempts: Seq<AttemptRecord>, retry_ms: u64)
    ensures
        budget_spent(attempts, retry_ms) >= 0,
    decreases attempts.len(),
{
    if attempts.len() > 0 {
        lemma_budget_spent_nonneg(attempts.skip(1), retry_ms);
    }
}

pub proof fn lemma_spent_sum_nonneg(attempts: Seq<AttemptRecord>)
    ensures
        spent_sum(attempts) >= 0,
    decreases attempts.len(),
{
    if attempts.len() > 0 {
        lemma_spent_sum_nonneg(attempts.skip(1));
    }
}

proof fn lemma_wait_connects_from(
    timeouts: RetryTimeouts,
    elapsed: u64,
    attempts: Seq<AttemptRecord>,
    n: int,
)
    requires
        0 <= n < attempts.len(),
        forall|i: int| 0 <= i < n ==> attempts[i].outcome == ConnectionAttempt::Failure,
        attempts[n].outcome == ConnectionAttempt::Success,
        elapsed + budget_spent(attempts.take(n), timeouts.retry_ms) + attempts[n].spent_ms
            < timeouts.main_ms,
    ensures
        spec_wait(timeouts, elapsed, attempts) matches WaitResult::Connected { elapsed_ms }
            && elapsed_ms < timeouts.main_ms,
    decreases n,
{
    lemma_budget_spent_nonneg(attempts.take(n), timeouts.retry_ms);
    if n == 0 {
        assert(attempts[0].outcome == ConnectionAttempt::Success);
    } else {
        assert(attempts.take(n)[0] == attempts[0]);
        assert(attempts.take(n).skip(1) =~= attempts.skip(1).take(n - 1));
        lemma_budget_spent_nonneg(attempts.skip(1).take(n - 1), timeouts.retry_ms);
        assert(attempts.skip(1)[n - 1] == attempts[n]);
        lemma_wait_connects_from(
            timeouts,
            spec_note(timeouts, elapsed, attempts[0].outcome, attempts[0].spent_ms).1,
            attempts.skip(1),
            n - 1,
        );
    }
}

/// Readiness, the succeeding side: a health endpoint that fails some
/// number of times and then answers, while the failures with their
/// backoffs and the answering attempt still fit the outer deadline, makes
/// the wait connect — strictly before the deadline.
pub proof fn lemma_wait_connects(timeouts: RetryTimeouts, attempts: Seq<AttemptRecord>, n: int)
    requires
        0 <= n < attempts.len(),
        forall|i: int| 0 <= i < n ==> attempts[i].outcome == ConnectionAttempt::Failure,
        attempts[n].outcome == ConnectionAttempt::Success,
        budget_spent(attempts.take(n), timeouts.retry_ms) + attempts[n].spent_ms
            < timeouts.main_ms,
    ensures
        spec_wait(timeouts, 0, attempts) matches WaitResult::Connected { elapsed_ms }
            && elapsed_ms < timeouts.main_ms,
{
    lemma_wait_connects_from(timeouts, 0, attempts, n);
}

proof fn lemma_wait_times_out_from(
    timeouts: RetryTimeouts,
    elapsed: u64,
    attempts: Seq<AttemptRecord>,
)
    requires
        attempts.len() > 0,
        elapsed <= timeouts.main_ms,
        forall|i: int| 0 <= i < attempts.len() ==> attempts[i].outcome == ConnectionAttempt::Failure,
        elapsed + spent_sum(attempts) >= timeouts.main_ms,
    ensures
        spec_wait(timeouts, elapsed, attempts) == (WaitResult::TimedOut {
            elapsed_ms: timeouts.main_ms,
        }),
    decreases attempts.len(),
{
    let step = spec_note(timeouts, elapsed, attempts[0].outcome, attempts[0].spent_ms);
    if spec_charge(elapsed, attempts[0].spent_ms, timeouts.main_ms) >= timeouts.main_ms {
    } else {
        lemma_spent_sum_nonneg(attempts.skip(1));
        assert(attempts.skip(1).len() > 0);
        assert(forall|i: int|
            0 <= i < attempts.skip(1).len() ==> attempts.skip(1)[i].outcome
                == ConnectionAttempt::Failure);
        lemma_wait_times_out_from(timeouts, step.1, attempts.skip(1));
    }
}

/// Readiness, the failing side: against a health endpoint that never
/// answers, once the attempts' own time reaches the outer deadline the
/// wait fails, and it fails exactly at the deadline's expiry: the time
/// charged is the outer budget itself.
pub proof fn lemma_wait_times_out(timeouts: RetryTimeouts, attempts: Seq<AttemptRecord>)
    requires
        attempts.len() > 0,
        forall|i: int| 0 <= i < attempts.len() ==> attempts[i].outcome == ConnectionAttempt::Failure,
        spent_sum(attempts) >= timeouts.main_ms,
    ensures
        spec_wait(timeouts, 0, attempts) == (WaitResult::TimedOut {
            elapsed_ms: timeouts.main_ms,
        }),
{
    lemma_wait_times_out_from(timeouts, 0, attempts);
}

/// A wait that never saw a success never reports readiness, however the
/// attempts' timing fell.
pub proof fn lemma_wait_never_connects_spuriously(
    timeouts: RetryTimeouts,
    elapsed: u64,
    attempts: Seq<AttemptRecord>,
)
    requires
        forall|i: int| 0 <= i < attempts.len() ==> attempts[i].outcome == ConnectionAttempt::Failure,
    ensures
        !(spec_wait(timeouts, elapsed, attempts) matches WaitResult::Connected { .. }),
    decreases attempts.len(),
{
    if attempts.len() > 0 {
        let step = spec_note(timeouts, elapsed, attempts[0].outcome, attempts[0].spent_ms);
        if step.0 == ConnectionDecision::RetryAfterBackoff {
            assert(forall|i: int|
                0 <= i < attempts.skip(1).len() ==> attempts.skip(1)[i].outcome
                    == ConnectionAttempt::Failure);
            lemma_wait_never_connects_spuriously(timeouts, step.1, attempts.skip(1));
        }
    }
}

} // verus!
