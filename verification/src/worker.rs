use vstd::prelude::*;

verus! {

/// The number of jobs that wait for one destination; a job that finds the queue full is
/// dropped.
pub const QUEUE_CAPACITY: usize = 512;

/// The time, in nanoseconds, that a destination is left alone for each failed send in a row.
pub const BACKOFF_STEP: u64 = 10_000_000_000;

/// The time that a destination is left alone after `errors` failed sends in a row.
pub open spec fn backoff(errors: u32) -> int {
    BACKOFF_STEP * errors
}

/// The time from `then` to `now`, none where `now` is the earlier.
pub open spec fn elapsed(now: u64, then: u64) -> int {
    if now >= then {
        now - then
    } else {
        0
    }
}

/// What a worker does with a job.
#[derive(Debug, Clone, Copy, PartialEq, Eq, Structural)]
pub enum Verdict {
    /// The job is dropped unsent.
    Skip,
    /// The job is sent.
    Send,
}

/// The health of one destination: the failed sends in a row, and the time of the last
/// attempt. Times are nanoseconds on a clock that does not go back.
#[derive(Debug, Clone, Copy, PartialEq, Eq, Structural)]
pub struct Worker {
    pub errors: u32,
    pub last_attempt: Option<u64>,
}

/// The count of failures after one more outcome.
pub open spec fn errors_after(errors: u32, success: bool) -> u32 {
    if success {
        0
    } else if errors == u32::MAX {
        u32::MAX
    } else {
        (errors + 1) as u32
    }
}

/// The count of failures after these outcomes, oldest first, from none.
pub open spec fn errors_after_all(outcomes: Seq<bool>) -> u32
    decreases outcomes.len(),
{
    if outcomes.len() == 0 {
        0
    } else {
        errors_after(errors_after_all(outcomes.drop_last()), outcomes.last())
    }
}

/// The number of failures that the outcomes end with.
pub open spec fn trailing_failures(outcomes: Seq<bool>) -> nat
    decreases outcomes.len(),
{
    if outcomes.len() == 0 || outcomes.last() {
        0
    } else {
        1 + trailing_failures(outcomes.drop_last())
    }
}

impl Worker {
    /// Whether a job that arrives at `now` is dropped: there were failures, and less than
    /// their back-off has passed since the last attempt.
    pub open spec fn throttled(self, now: u64) -> bool {
        self.errors > 0 && match self.last_attempt {
            Some(then) => elapsed(now, then) < backoff(self.errors),
            None => false,
        }
    }

    /// A worker of a destination that nothing was sent to yet.
    pub fn new() -> (r: Self)
        ensures
            r.errors == 0,
            r.last_attempt is None,
    {
        Worker { errors: 0, last_attempt: None }
    }

    /// Takes a job at `now`: skips it while the destination is throttled, else notes the
    /// attempt and has it sent.
    pub fn on_job(&mut self, now: u64) -> (r: Verdict)
        ensures
            r == if old(self).throttled(now) {
                Verdict::Skip
            } else {
                Verdict::Send
            },
            final(self).errors == old(self).errors,
            final(self).last_attempt == if old(self).throttled(now) {
                old(self).last_attempt
            } else {
                Some(now)
            },
    {
        let errors = self.errors;
        assert(BACKOFF_STEP * errors <= BACKOFF_STEP * 0xffff_ffff) by (nonlinear_arith)
            requires
                0 <= errors <= 0xffff_ffff,
                BACKOFF_STEP >= 0,
        ;
        let wait: u128 = (BACKOFF_STEP as u128) * (errors as u128);
        let skip = errors > 0 && match self.last_attempt {
            Some(then) => {
                let passed: u64 = if now >= then {
                    now - then
                } else {
                    0
                };
                (passed as u128) < wait
            },
            None => false,
        };
        if skip {
            Verdict::Skip
        } else {
            self.last_attempt = Some(now);
            Verdict::Send
        }
    }

    /// Notes how a send ended. Returns whether the supervisor is told that the process is
    /// alive, which is after each success.
    pub fn on_result(&mut self, success: bool) -> (notify: bool)
        ensures
            notify == success,
            final(self).errors == errors_after(old(self).errors, success),
            final(self).last_attempt == old(self).last_attempt,
    {
        if success {
            self.errors = 0;
        } else {
            self.errors = self.errors.saturating_add(1);
        }
        success
    }
}

/// After `k` failures in a row the count of failures is `k`, as far as it can count.
pub proof fn lemma_errors_count(outcomes: Seq<bool>)
    ensures
        errors_after_all(outcomes) == if trailing_failures(outcomes) <= u32::MAX {
            trailing_failures(outcomes)
        } else {
            u32::MAX as nat
        },
    decreases outcomes.len(),
{
    if outcomes.len() > 0 {
        lemma_errors_count(outcomes.drop_last());
    }
}

/// After `k` failed sends in a row, the last of them attempted at `then`, no job is sent
/// before ten seconds times `k` have passed; and more failures never shorten the wait.
pub proof fn lemma_backoff(worker: Worker, then: u64, now: u64)
    requires
        worker.errors > 0,
        worker.last_attempt == Some(then),
        !worker.throttled(now),
    ensures
        now - then >= 10_000_000_000 * worker.errors,
        forall|more: u32| worker.errors <= more ==> backoff(worker.errors) <= #[trigger] backoff(more),
{
    assert forall|more: u32| worker.errors <= more implies backoff(worker.errors)
        <= #[trigger] backoff(more) by {
        assert(BACKOFF_STEP * worker.errors <= BACKOFF_STEP * more) by (nonlinear_arith)
            requires
                worker.errors <= more,
                BACKOFF_STEP >= 0,
        ;
    }
}

/// Back-off: a worker whose sends ended as `outcomes` say, the last `k` of them failures
/// and the last attempted at `then`, sends no job before ten seconds times `k` have passed.
pub proof fn lemma_backoff_after_failures(outcomes: Seq<bool>, then: u64, now: u64)
    requires
        0 < trailing_failures(outcomes) <= u32::MAX,
        !(Worker { errors: errors_after_all(outcomes), last_attempt: Some(then) }).throttled(now),
    ensures
        now - then >= 10_000_000_000 * trailing_failures(outcomes),
{
    lemma_errors_count(outcomes);
}

} // verus!
