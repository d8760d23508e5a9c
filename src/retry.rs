use vstd::prelude::*;

verus! {

/// What one probe of a target gave: a response with its status code, or a
/// transport-level error with its description.
pub enum RawAttempt {
    Responded(u16),
    TransportError(String),
}

/// The terminal classification of a target.
pub enum CheckOutcome {
    Success(u16),
    Failure(String),
}

/// What the driver of a check does next.
pub enum Action {
    /// Probe the target once more.
    Probe,
    /// Stop: the check has reached this outcome.
    Finish(CheckOutcome),
}

/// One probe as seen by the controller: its result and how long it took,
/// in nanoseconds, counted from the end of the previous probe (or from the
/// start of the check for the first one).
pub struct Attempt {
    pub result: RawAttempt,
    pub nanos: u64,
}

/// The retry state machine of one target.
pub struct RetryController {
    pub max_retries: u32,
    pub attempts: u64,
    pub elapsed_nanos: u128,
    pub finished: bool,
}

/// Sum of the durations of the first `k` attempts.
pub open spec fn total_nanos(attempts: Seq<Attempt>, k: int) -> int
    decreases k,
{
    if k <= 0 {
        0
    } else {
        total_nanos(attempts, k - 1) + attempts[k - 1].nanos
    }
}

/// The outcome of a check and the number of probes it made, when the
/// probes from index `i` on come out as `attempts[i..]` and at most `limit`
/// probes are allowed in all: the first response among them, else the error
/// of the last allowed probe.
pub open spec fn run_from(attempts: Seq<Attempt>, i: int, limit: int) -> (CheckOutcome, int)
    decreases limit - i,
{
    if i < 0 || i >= attempts.len() || i >= limit {
        // outside the probes that a check can make; `resolved` never gets here
        (CheckOutcome::Success(0), i)
    } else {
        match attempts[i].result {
            RawAttempt::Responded(code) => (CheckOutcome::Success(code), i + 1),
            RawAttempt::TransportError(desc) => if i + 1 >= limit {
                (CheckOutcome::Failure(desc), i + 1)
            } else {
                run_from(attempts, i + 1, limit)
            },
        }
    }
}

/// The outcome of a check that allows `max_retries` additional attempts,
/// with the probes coming out as `attempts`, and the number of probes made.
pub open spec fn resolved(attempts: Seq<Attempt>, max_retries: nat) -> (CheckOutcome, int) {
    run_from(attempts, 0, max_retries + 1 as int)
}

impl RetryController {
    pub open spec fn max_attempts(&self) -> int {
        self.max_retries + 1
    }

    /// The controller's counters are in range.
    pub open spec fn wf(&self) -> bool {
        &&& self.attempts <= self.max_attempts()
        &&& self.elapsed_nanos <= self.attempts * 0xffff_ffff_ffff_ffff
        &&& !self.finished ==> self.attempts < self.max_attempts()
    }

    /// A controller for a check that allows `max_retries` additional attempts
    /// after the first.
    pub fn new(max_retries: u32) -> (r: RetryController)
        ensures
            r.wf(),
            r.max_retries == max_retries,
            r.attempts == 0,
            r.elapsed_nanos == 0,
            !r.finished,
    {
        RetryController { max_retries, attempts: 0, elapsed_nanos: 0, finished: false }
    }

    /// Takes the result of one probe and says what to do next: a response
    /// ends the check with `Success`; a transport error asks for another probe
    /// while attempts remain, and otherwise ends it with `Failure` carrying
    /// that error's description. The elapsed time adds up every probe.
    pub fn step(&mut self, attempt: Attempt) -> (action: Action)
        requires
            old(self).wf(),
            !old(self).finished,
        ensures
            final(self).wf(),
            final(self).max_retries == old(self).max_retries,
            final(self).attempts == old(self).attempts + 1,
            final(self).elapsed_nanos == old(self).elapsed_nanos + attempt.nanos,
            match attempt.result {
                RawAttempt::Responded(code) => {
                    &&& final(self).finished
                    &&& action == Action::Finish(CheckOutcome::Success(code))
                },
                RawAttempt::TransportError(desc) => {
                    if final(self).attempts < old(self).max_attempts() {
                        !final(self).finished && action == Action::Probe
                    } else {
                        final(self).finished && action == Action::Finish(
                            CheckOutcome::Failure(desc),
                        )
                    }
                },
            },
    {
        self.attempts = self.attempts + 1;
        assert(self.elapsed_nanos + attempt.nanos <= self.attempts * 0xffff_ffff_ffff_ffff)
            by (nonlinear_arith)
            requires
                self.elapsed_nanos <= (self.attempts - 1) * 0xffff_ffff_ffff_ffff,
                attempt.nanos <= 0xffff_ffff_ffff_ffff,
        ;
        assert(self.attempts * 0xffff_ffff_ffff_ffff <= 0x1_0000_0000 * 0xffff_ffff_ffff_ffff)
            by (nonlinear_arith)
            requires
                self.attempts <= 0x1_0000_0000,
        ;
        self.elapsed_nanos = self.elapsed_nanos + attempt.nanos as u128;
        match attempt.result {
            RawAttempt::Responded(code) => {
                self.finished = true;
                Action::Finish(CheckOutcome::Success(code))
            },
            RawAttempt::TransportError(desc) => {
                if self.attempts < self.max_retries as u64 + 1 {
                    Action::Probe
                } else {
                    self.finished = true;
                    Action::Finish(CheckOutcome::Failure(desc))
                }
            },
        }
    }
}

/// Runs a check to its terminal state, the probes coming out as `attempts`
/// in order, with `max_retries` additional attempts after the first. Returns
/// the outcome, the number of probes made and the elapsed time over all of
/// them.
pub fn resolve(attempts: &Vec<Attempt>, max_retries: u32) -> (r: (CheckOutcome, u64, u128))
    requires
        attempts@.len() > max_retries,
    ensures
        (r.0, r.1 as int) == resolved(attempts@, max_retries as nat),
        r.2 == total_nanos(attempts@, r.1 as int),
{
    let mut ctl = RetryController::new(max_retries);
    loop
        invariant
            ctl.wf(),
            !ctl.finished,
            ctl.max_retries == max_retries,
            attempts@.len() > max_retries,
            ctl.elapsed_nanos == total_nanos(attempts@, ctl.attempts as int),
            run_from(attempts@, ctl.attempts as int, max_retries + 1 as int) == resolved(attempts@, max_retries as nat),
        decreases max_retries + 1 - ctl.attempts,
    {
        let ghost k = ctl.attempts as int;
        let src = &attempts[ctl.attempts as usize];
        let result = match &src.result {
            RawAttempt::Responded(code) => RawAttempt::Responded(*code),
            RawAttempt::TransportError(desc) => RawAttempt::TransportError(desc.clone()),
        };
        let a = Attempt { result, nanos: src.nanos };
        assert(a == attempts@[k]);
        let action = ctl.step(a);
        assert(total_nanos(attempts@, k + 1) == total_nanos(attempts@, k) + attempts@[k].nanos);
        assert(run_from(attempts@, k, max_retries + 1 as int) == match attempts@[k].result {
            RawAttempt::Responded(code) => (CheckOutcome::Success(code), k + 1 as int),
            RawAttempt::TransportError(desc) => if k + 1 >= max_retries + 1 {
                (CheckOutcome::Failure(desc), k + 1)
            } else {
                run_from(attempts@, k + 1, max_retries + 1 as int)
            },
        });
        match action {
            Action::Finish(outcome) => {
                return (outcome, ctl.attempts, ctl.elapsed_nanos);
            },
            Action::Probe => {},
        }
    }
}

/// A probe sequence whose first `k` probes fail at the transport level.
pub open spec fn fails_first(attempts: Seq<Attempt>, k: int) -> bool {
    forall|j: int| 0 <= j < k ==> #[trigger] attempts[j].result is TransportError
}

proof fn lemma_run_from_skips_failures(attempts: Seq<Attempt>, i: int, k: int, limit: int)
    requires
        0 <= i <= k,
        k < limit,
        k < attempts.len(),
        fails_first(attempts, k),
    ensures
        run_from(attempts, i, limit) == run_from(attempts, k, limit),
    decreases k - i,
{
    if i < k {
        lemma_run_from_skips_failures(attempts, i + 1, k, limit);
    }
}

/// A check whose first `k` probes fail and whose next probe responds with
/// `code`, where `k` is within the retry budget, ends in `Success(code)`
/// after exactly `k + 1` probes (so the elapsed time that `resolve` returns
/// is `total_nanos` over all `k + 1` of them).
pub proof fn lemma_retry_recovers(attempts: Seq<Attempt>, max_retries: nat, k: nat, code: u16)
    requires
        k <= max_retries,
        k < attempts.len(),
        fails_first(attempts, k as int),
        attempts[k as int].result == RawAttempt::Responded(code),
    ensures
        resolved(attempts, max_retries) == (CheckOutcome::Success(code), k + 1 as int),
{
    lemma_run_from_skips_failures(attempts, 0, k as int, max_retries + 1 as int);
}

/// A check whose probes all fail ends in `Failure` carrying the description
/// of the last allowed probe, after `max_retries + 1` probes.
pub proof fn lemma_retry_exhausted(attempts: Seq<Attempt>, max_retries: nat)
    requires
        attempts.len() > max_retries,
        fails_first(attempts, max_retries + 1 as int),
    ensures
        resolved(attempts, max_retries) == (
            CheckOutcome::Failure(attempts[max_retries as int].result->TransportError_0),
            max_retries + 1 as int,
        ),
{
    lemma_run_from_skips_failures(attempts, 0, max_retries as int, max_retries + 1 as int);
}

/// With no retries allowed a check makes exactly one probe.
pub proof fn lemma_no_retry_single_probe(attempts: Seq<Attempt>)
    requires
        attempts.len() > 0,
    ensures
        resolved(attempts, 0).1 == 1,
{
}

/// A first probe that gets any response, whatever its status code, ends the
/// check in `Success` with that code.
pub proof fn lemma_response_is_success(attempts: Seq<Attempt>, max_retries: nat, code: u16)
    requires
        attempts.len() > 0,
        attempts[0].result == RawAttempt::Responded(code),
    ensures
        resolved(attempts, max_retries).0 == CheckOutcome::Success(code),
{
}

} // verus!
