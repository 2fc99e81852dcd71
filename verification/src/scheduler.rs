use vstd::prelude::*;

verus! {

/// Minimum interval between poll attempts, in milliseconds: a fixed
/// two-second cadence.
pub const POLL_CADENCE_MS: u64 = 2000;

/// A refresh is due when strictly more than `cadence_ms` milliseconds have
/// passed since the last recorded attempt.
pub open spec fn refresh_due(last_refresh_ms: int, cadence_ms: int, now_ms: int) -> bool {
    now_ms - last_refresh_ms > cadence_ms
}

/// Decides, from elapsed wall-clock time alone, when to trigger a refresh.
/// Every attempt advances `last_refresh_ms`, whether the fetch that follows
/// succeeds or fails, so a failed poll is retried only after a full cadence:
/// rate-limited best effort, not retry-with-backoff.
pub struct PollScheduler {
    /// Minimum interval between attempts, in milliseconds.
    pub cadence_ms: u64,
    /// Wall-clock time of the last attempt, in milliseconds; zero before
    /// any attempt has been made.
    pub last_refresh_ms: u64,
}

impl PollScheduler {
    /// A scheduler on the fixed cadence that has not yet attempted a fetch.
    pub fn new() -> (s: PollScheduler)
        ensures
            s.cadence_ms == POLL_CADENCE_MS,
            s.last_refresh_ms == 0,
    {
        PollScheduler { cadence_ms: POLL_CADENCE_MS, last_refresh_ms: 0 }
    }

    /// Is a refresh due at wall-clock time `now_ms`?
    pub fn should_refresh(&self, now_ms: u64) -> (due: bool)
        ensures
            due == refresh_due(self.last_refresh_ms as int, self.cadence_ms as int, now_ms as int),
    {
        now_ms > self.last_refresh_ms && now_ms - self.last_refresh_ms > self.cadence_ms
    }

    /// One scheduler tick at wall-clock time `now_ms`. Returns whether the
    /// caller must perform exactly one fetch now; if so, the attempt is
    /// recorded immediately, so that the next attempt comes only after a
    /// full cadence whatever the fetch's outcome.
    pub fn tick(&mut self, now_ms: u64) -> (trigger: bool)
        ensures
            trigger == refresh_due(
                old(self).last_refresh_ms as int,
                old(self).cadence_ms as int,
                now_ms as int,
            ),
            final(self).cadence_ms == old(self).cadence_ms,
            trigger ==> final(self).last_refresh_ms == now_ms,
            !trigger ==> final(self).last_refresh_ms == old(self).last_refresh_ms,
    {
        let trigger = self.should_refresh(now_ms);
        if trigger {
            self.last_refresh_ms = now_ms;
        }
        trigger
    }
}

/// Rate limiting: once an attempt has been recorded at time `t`, no tick
/// within the following full cadence triggers another fetch — in
/// particular, two ticks less than one cadence apart trigger at most one.
pub proof fn lemma_no_second_refresh_within_cadence(t: int, cadence_ms: int, now_ms: int)
    requires
        now_ms - t <= cadence_ms,
    ensures
        !refresh_due(t, cadence_ms, now_ms),
{
}

} // verus!
