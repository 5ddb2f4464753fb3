use vstd::prelude::*;

verus! {

/// Calls made to fetch a blockhash before giving up.
pub const MAX_BLOCKHASH_ATTEMPTS: u32 = 10;

/// Pause between two calls, in milliseconds.
pub const RETRY_DELAY_MS: u64 = 100;

/// The fetch failed on every attempt; `last_error` is the cause of the last.
#[derive(Clone, Debug)]
pub struct RetryExhausted<E> {
    pub attempts: u32,
    pub last_error: E,
}

/// What the caller does after a fetch.
#[derive(Clone, Debug)]
pub enum RetryAction<T, E> {
    /// The fetch succeeded: return its value.
    Done(T),
    /// Sleep this many milliseconds, then fetch again.
    Wait(u64),
    /// Stop and report.
    GiveUp(RetryExhausted<E>),
}

/// Which way the loop goes after one fetch.
pub enum Step {
    Return,
    Retry,
    Exhausted,
}

/// After `failures` failed fetches, one more fetch that succeeds or not:
/// the new failure count, and the way the loop goes.
pub open spec fn next_step(failures: nat, succeeded: bool) -> (nat, Step) {
    if succeeded {
        (failures, Step::Return)
    } else if failures + 1 >= MAX_BLOCKHASH_ATTEMPTS {
        (failures + 1, Step::Exhausted)
    } else {
        (failures + 1, Step::Retry)
    }
}

/// The fetch loop driven by `next_step`, started after `failures` failed
/// fetches, against a gateway that fails `fails_left` more times and then
/// answers: whether it ends with a blockhash, and how many fetches it makes.
pub open spec fn retry_run(failures: nat, fails_left: nat) -> (bool, nat)
    decreases fails_left,
{
    let (next, step) = next_step(failures, fails_left == 0);
    match step {
        Step::Return => (true, 1),
        Step::Exhausted => (false, 1),
        Step::Retry => {
            let (ok, calls) = retry_run(next, (fails_left - 1) as nat);
            (ok, calls + 1)
        },
    }
}

/// The state of one bounded blockhash fetch: how many fetches have failed.
#[derive(Clone, Copy, Debug)]
pub struct BlockhashRetry {
    pub failures: u32,
}

impl BlockhashRetry {
    /// A fetch that may still be tried.
    pub open spec fn well_formed(&self) -> bool {
        self.failures < MAX_BLOCKHASH_ATTEMPTS
    }

    /// No fetch made yet.
    pub fn new() -> (r: BlockhashRetry)
        ensures
            r.failures == 0,
            r.well_formed(),
    {
        BlockhashRetry { failures: 0 }
    }

    /// Takes the outcome of one fetch and says what to do next. A failure is
    /// swallowed, with a fixed pause before the next fetch, until the last
    /// attempt; its cause is then handed back.
    pub fn on_result<T, E>(&mut self, outcome: Result<T, E>) -> (r: RetryAction<T, E>)
        requires
            old(self).well_formed(),
        ensures
            final(self).failures == next_step(old(self).failures as nat, outcome is Ok).0,
            match next_step(old(self).failures as nat, outcome is Ok).1 {
                Step::Return => outcome matches Ok(v) && r == RetryAction::<T, E>::Done(v),
                Step::Retry => final(self).well_formed() && r == RetryAction::<T, E>::Wait(
                    RETRY_DELAY_MS,
                ),
                Step::Exhausted => outcome matches Err(e) && r == RetryAction::<T, E>::GiveUp(
                    RetryExhausted { attempts: MAX_BLOCKHASH_ATTEMPTS, last_error: e },
                ),
            },
    {
        match outcome {
            Ok(v) => RetryAction::Done(v),
            Err(e) => {
                self.failures = self.failures + 1;
                if self.failures >= MAX_BLOCKHASH_ATTEMPTS {
                    RetryAction::GiveUp(
                        RetryExhausted { attempts: MAX_BLOCKHASH_ATTEMPTS, last_error: e },
                    )
                } else {
                    RetryAction::Wait(RETRY_DELAY_MS)
                }
            },
        }
    }
}

proof fn lemma_retry_run_from(failures: nat, fails_left: nat)
    requires
        failures < MAX_BLOCKHASH_ATTEMPTS,
    ensures
        failures + fails_left < MAX_BLOCKHASH_ATTEMPTS ==> retry_run(failures, fails_left) == (
        true, fails_left + 1),
        failures + fails_left >= MAX_BLOCKHASH_ATTEMPTS ==> retry_run(failures, fails_left) == (
        false, (MAX_BLOCKHASH_ATTEMPTS - failures) as nat),
    decreases fails_left,
{
    if fails_left > 0 && failures + 1 < MAX_BLOCKHASH_ATTEMPTS {
        lemma_retry_run_from(failures + 1, (fails_left - 1) as nat);
    }
}

/// Against a gateway that fails `k` times and then answers, the fetch loop
/// returns a blockhash after `k + 1` fetches when `k` is below the attempt
/// bound, and otherwise gives up after exactly that many fetches.
pub proof fn lemma_retry_bound(k: nat)
    ensures
        k < MAX_BLOCKHASH_ATTEMPTS ==> retry_run(0, k) == (true, k + 1),
        k >= MAX_BLOCKHASH_ATTEMPTS ==> retry_run(0, k) == (false, MAX_BLOCKHASH_ATTEMPTS as nat),
{
    lemma_retry_run_from(0, k);
}

} // verus!
