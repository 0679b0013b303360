use vstd::prelude::*;

verus! {

/// The delay that follows one more consecutive failure: the current delay
/// doubled, saturating at the largest representable value.  The schedule
/// uses a fixed multiplier of 2 and no cap; saturation only changes
/// behavior where the uncapped delay would no longer be representable.
pub open spec fn next_delay_spec(d: u64) -> u64 {
    if d <= u64::MAX / 2 {
        (d * 2) as u64
    } else {
        u64::MAX
    }
}

/// Retry schedule of a fallible fetch: the initial (base) delay and the
/// delay the next failure would schedule.  The current delay doubles on each
/// consecutive failure and resets to the initial delay on the first success.
pub struct BackoffSchedule {
    pub initial_delay_s: u64,
    pub curr_delay_s: u64,
}

impl BackoffSchedule {
    pub fn new(initial_delay_s: u64) -> (b: BackoffSchedule)
        ensures
            b.initial_delay_s == initial_delay_s,
            b.curr_delay_s == initial_delay_s,
    {
        BackoffSchedule { initial_delay_s, curr_delay_s: initial_delay_s }
    }

    /// One more consecutive failure: the retry is scheduled after the current
    /// delay (the returned number of seconds), and the delay for a following
    /// failure doubles — it never decreases.
    pub fn on_failure(&mut self) -> (delay_s: u64)
        ensures
            delay_s == old(self).curr_delay_s,
            final(self).curr_delay_s == next_delay_spec(old(self).curr_delay_s),
            final(self).curr_delay_s >= old(self).curr_delay_s,
            final(self).initial_delay_s == old(self).initial_delay_s,
    {
        let delay = self.curr_delay_s;
        self.curr_delay_s = if self.curr_delay_s <= u64::MAX / 2 {
            self.curr_delay_s * 2
        } else {
            u64::MAX
        };
        delay
    }

    /// A success resets the current delay to the initial delay immediately.
    pub fn on_success(&mut self)
        ensures
            final(self).curr_delay_s == old(self).initial_delay_s,
            final(self).initial_delay_s == old(self).initial_delay_s,
    {
        self.curr_delay_s = self.initial_delay_s;
    }
}

/// The current delay after `n` consecutive failures of a fresh schedule.
pub open spec fn delay_after_failures(initial_delay_s: u64, n: nat) -> u64
    decreases n,
{
    if n == 0 {
        initial_delay_s
    } else {
        next_delay_spec(delay_after_failures(initial_delay_s, (n - 1) as nat))
    }
}

/// Across consecutive failures the backoff delay is monotonically
/// non-decreasing: more failures never schedule a shorter delay.  (The reset
/// on success is stated by `BackoffSchedule::on_success`.)
pub proof fn lemma_backoff_monotone(initial_delay_s: u64, n: nat, m: nat)
    requires
        n <= m,
    ensures
        delay_after_failures(initial_delay_s, n) <= delay_after_failures(initial_delay_s, m),
    decreases m,
{
    if n < m {
        lemma_backoff_monotone(initial_delay_s, n, (m - 1) as nat);
    }
}

/// Phase of a backoff-driven fetch loop.
#[derive(Clone, Copy, PartialEq, Eq, Structural, Debug)]
pub enum Phase {
    Idle,
    Attempting,
    Cooling,
}

/// The backoff controller: wraps a fallible fetch and a base polling
/// interval.  The loop that owns it performs the waiting and the fetch; the
/// controller decides, per the phase machine, when the next attempt is due:
///
/// - Idle → Attempting on timer fire;
/// - Attempting → Idle on success: delay reset, next attempt after the base
///   polling interval;
/// - Attempting → Cooling on failure: retry after the current delay, which
///   doubles for the following failure;
/// - Cooling → Attempting on cooldown timer fire.
///
/// There is no terminal phase: a persistently failing fetch retries forever
/// with geometrically growing delay.
pub struct Controller {
    pub phase: Phase,
    pub schedule: BackoffSchedule,
    pub poll_interval_s: u64,
}

impl Controller {
    pub fn new(retry_delay_s: u64, poll_interval_s: u64) -> (c: Controller)
        ensures
            c.phase is Idle,
            c.schedule.initial_delay_s == retry_delay_s,
            c.schedule.curr_delay_s == retry_delay_s,
            c.poll_interval_s == poll_interval_s,
    {
        Controller {
            phase: Phase::Idle,
            schedule: BackoffSchedule::new(retry_delay_s),
            poll_interval_s,
        }
    }

    /// A timer fired while waiting (idle after a success, or cooling after a
    /// failure): the next fetch attempt begins.
    pub fn timer_fired(&mut self)
        requires
            old(self).phase is Idle || old(self).phase is Cooling,
        ensures
            final(self).phase is Attempting,
            final(self).schedule == old(self).schedule,
            final(self).poll_interval_s == old(self).poll_interval_s,
    {
        self.phase = Phase::Attempting;
    }

    /// The pending fetch attempt finished.  Returns how long to wait before
    /// the next timer fire: the base polling interval after a success (with
    /// the delay reset to the initial value), the current backoff delay
    /// after a failure (with the delay doubled for the following failure).
    pub fn attempt_finished(&mut self, success: bool) -> (sleep_s: u64)
        requires
            old(self).phase is Attempting,
        ensures
            success ==> final(self).phase is Idle,
            success ==> sleep_s == old(self).poll_interval_s,
            success ==> final(self).schedule.curr_delay_s == old(self).schedule.initial_delay_s,
            !success ==> final(self).phase is Cooling,
            !success ==> sleep_s == old(self).schedule.curr_delay_s,
            !success ==> final(self).schedule.curr_delay_s == next_delay_spec(
                old(self).schedule.curr_delay_s,
            ),
            final(self).schedule.initial_delay_s == old(self).schedule.initial_delay_s,
            final(self).poll_interval_s == old(self).poll_interval_s,
    {
        if success {
            self.schedule.on_success();
            self.phase = Phase::Idle;
            self.poll_interval_s
        } else {
            let delay = self.schedule.on_failure();
            self.phase = Phase::Cooling;
            delay
        }
    }
}

} // verus!
