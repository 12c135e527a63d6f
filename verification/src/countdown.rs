//! The interruptible countdown: one decision per one-second tick.
//!
//! The countdown owns a remaining-time counter and, at every tick boundary,
//! reads a cancellation signal. `countdown_step` is that decision: while the
//! signal is live and time remains, the caller is told to sleep one second
//! and continue with one second less; otherwise the countdown ends, firing
//! the operation when the full delay elapsed and aborting when cancellation
//! arrived first.
//!
//! The cancellation signal is written at most once (live until some external
//! interrupt, dead forever after), so a whole run is modelled by
//! `countdown_run` over an optional tick index `cancel_after`: the signal
//! reads live for the first `cancel_after` reads and dead from then on.

use vstd::prelude::*;

verus! {

/// How a finished countdown ended: the delay elapsed fully (`Fire`, the
/// power operation should now run) or cancellation arrived with time still
/// remaining (`Aborted`, nothing runs).
#[derive(Clone, Copy, Debug, PartialEq, Eq, Structural)]
pub enum CountdownOutcome {
    Fire,
    Aborted,
}

/// What the countdown loop does next: sleep one second and continue with
/// `remaining` seconds left, or exit with an outcome.
#[derive(Clone, Copy, Debug, PartialEq, Eq, Structural)]
pub enum CountdownStep {
    Tick { remaining: u64 },
    Exit { outcome: CountdownOutcome },
}

/// The decision taken at one tick boundary, given the remaining time and
/// the value just read from the cancellation signal.
pub open spec fn spec_countdown_step(remaining: u64, keep_running: bool) -> CountdownStep {
    if keep_running && remaining > 0 {
        CountdownStep::Tick { remaining: (remaining - 1) as u64 }
    } else if remaining == 0 {
        CountdownStep::Exit { outcome: CountdownOutcome::Fire }
    } else {
        CountdownStep::Exit { outcome: CountdownOutcome::Aborted }
    }
}

/// Decides one tick of the countdown.
///
/// The caller runs the loop around it: on `Tick` it sleeps one second and
/// calls again with the returned remaining time; on `Exit` it performs the
/// operation (`Fire`) or reports the cancellation (`Aborted`).
pub fn countdown_step(remaining: u64, keep_running: bool) -> (step: CountdownStep)
    ensures
        step == spec_countdown_step(remaining, keep_running),
{
    if keep_running && remaining > 0 {
        CountdownStep::Tick { remaining: remaining - 1 }
    } else if remaining == 0 {
        CountdownStep::Exit { outcome: CountdownOutcome::Fire }
    } else {
        CountdownStep::Exit { outcome: CountdownOutcome::Aborted }
    }
}

/// The value the cancellation signal yields on its `reads_done`-th read:
/// live until the read at index `cancel_after`, dead from then on; always
/// live when cancellation never arrives (`None`). The signal is written at
/// most once, so every run of the countdown is one of these shapes.
pub open spec fn signal_live(cancel_after: Option<nat>, reads_done: nat) -> bool {
    match cancel_after {
        None => true,
        Some(k) => reads_done < k,
    }
}

/// A whole countdown run from `remaining` seconds, `ticks_done` ticks in,
/// against a signal that dies at `cancel_after`: the pair of the remaining
/// time at loop exit and the total number of ticks (sleeps) performed.
pub open spec fn countdown_run(remaining: nat, ticks_done: nat, cancel_after: Option<nat>) -> (
    nat,
    nat,
)
    decreases remaining,
{
    if remaining == 0 || !signal_live(cancel_after, ticks_done) {
        (remaining, ticks_done)
    } else {
        countdown_run((remaining - 1) as nat, ticks_done + 1, cancel_after)
    }
}

/// The outcome of a whole run: `Fire` exactly when the remaining time
/// reached zero before the signal died.
pub open spec fn run_outcome(remaining: nat, cancel_after: Option<nat>) -> CountdownOutcome {
    if countdown_run(remaining, 0, cancel_after).0 == 0 {
        CountdownOutcome::Fire
    } else {
        CountdownOutcome::Aborted
    }
}

/// Each tick decision drives the run model: while the run is not over, the
/// step is `Tick` and the run from the new state is the same run; once it
/// is over, the step is `Exit` with exactly the run's outcome.
pub proof fn lemma_step_refines_run(remaining: u64, ticks_done: nat, cancel_after: Option<nat>)
    ensures
        (match spec_countdown_step(remaining, signal_live(cancel_after, ticks_done)) {
            CountdownStep::Tick { remaining: next } => countdown_run(
                remaining as nat,
                ticks_done,
                cancel_after,
            ) == countdown_run(next as nat, ticks_done + 1, cancel_after),
            CountdownStep::Exit { outcome } => countdown_run(
                remaining as nat,
                ticks_done,
                cancel_after,
            ) == (remaining as nat, ticks_done) && outcome == (if remaining == 0 {
                CountdownOutcome::Fire
            } else {
                CountdownOutcome::Aborted
            }),
        }),
{
}

/// A zero-second countdown fires at once: no time passes, no tick (hence no
/// sleep) is performed, whatever the cancellation signal does.
pub proof fn lemma_countdown_zero(cancel_after: Option<nat>)
    ensures
        countdown_run(0, 0, cancel_after) == ((0nat, 0nat)),
        run_outcome(0, cancel_after) == CountdownOutcome::Fire,
{
}

proof fn lemma_countdown_uncancelled_from(remaining: nat, ticks_done: nat)
    ensures
        countdown_run(remaining, ticks_done, None) == (((0nat, (ticks_done + remaining) as nat))),
    decreases remaining,
{
    if remaining > 0 {
        lemma_countdown_uncancelled_from((remaining - 1) as nat, ticks_done + 1);
    }
}

/// A countdown of `n` seconds that is never cancelled fires after exactly
/// `n` ticks (one one-second sleep each), with the remaining time reaching
/// exactly zero.
pub proof fn lemma_countdown_uncancelled(n: nat)
    ensures
        countdown_run(n, 0, None) == (((0nat, n))),
        run_outcome(n, None) == CountdownOutcome::Fire,
{
    lemma_countdown_uncancelled_from(n, 0);
}

proof fn lemma_countdown_cancelled_from(remaining: nat, ticks_done: nat, k: nat)
    requires
        ticks_done <= k,
        k - ticks_done < remaining,
    ensures
        countdown_run(remaining, ticks_done, Some(k)) == ((((remaining - (k - ticks_done)) as nat,
        k))),
    decreases remaining,
{
    if ticks_done < k {
        lemma_countdown_cancelled_from((remaining - 1) as nat, ticks_done + 1, k);
    }
}

/// A countdown of `n` seconds whose cancellation arrives after `k < n`
/// ticks aborts with exactly `n - k` seconds still remaining, having slept
/// `k` times.
pub proof fn lemma_countdown_cancelled(n: nat, k: nat)
    requires
        k < n,
    ensures
        countdown_run(n, 0, Some(k)) == ((((n - k) as nat, k))),
        run_outcome(n, Some(k)) == CountdownOutcome::Aborted,
{
    lemma_countdown_cancelled_from(n, 0, k);
}

} // verus!
