use shutdown_timer::countdown::{countdown_step, CountdownOutcome, CountdownStep};

/// Runs a whole countdown against a signal that dies after `cancel_after`
/// ticks (never, for `None`), without the real one-second sleeps; returns
/// the outcome, the number of ticks taken, and the remaining time at exit.
fn run(seconds: u64, cancel_after: Option<u64>) -> (CountdownOutcome, u64, u64) {
    let mut remaining = seconds;
    let mut ticks: u64 = 0;
    loop {
        let keep_running = match cancel_after {
            None => true,
            Some(k) => ticks < k,
        };
        match countdown_step(remaining, keep_running) {
            CountdownStep::Tick { remaining: next } => {
                ticks += 1;
                remaining = next;
            }
            CountdownStep::Exit { outcome } => return (outcome, ticks, remaining),
        }
    }
}

#[test]
fn zero_seconds_fires_without_any_tick() {
    assert_eq!(run(0, None), (CountdownOutcome::Fire, 0, 0));
    assert_eq!(run(0, Some(0)), (CountdownOutcome::Fire, 0, 0));
}

#[test]
fn uncancelled_countdown_fires_after_exactly_n_ticks() {
    assert_eq!(run(3, None), (CountdownOutcome::Fire, 3, 0));
    assert_eq!(run(1, None), (CountdownOutcome::Fire, 1, 0));
    assert_eq!(run(10, None), (CountdownOutcome::Fire, 10, 0));
}

#[test]
fn cancellation_mid_countdown_aborts_with_time_left() {
    assert_eq!(run(5, Some(2)), (CountdownOutcome::Aborted, 2, 3));
    assert_eq!(run(3, Some(0)), (CountdownOutcome::Aborted, 0, 3));
    assert_eq!(run(100, Some(99)), (CountdownOutcome::Aborted, 99, 1));
}

#[test]
fn cancellation_at_the_final_tick_still_fires() {
    // The signal dies exactly as the remaining time reaches zero; the
    // elapsed delay wins.
    assert_eq!(run(3, Some(3)), (CountdownOutcome::Fire, 3, 0));
}

#[test]
fn single_step_decisions() {
    assert_eq!(
        countdown_step(0, true),
        CountdownStep::Exit { outcome: CountdownOutcome::Fire }
    );
    assert_eq!(
        countdown_step(0, false),
        CountdownStep::Exit { outcome: CountdownOutcome::Fire }
    );
    assert_eq!(countdown_step(4, true), CountdownStep::Tick { remaining: 3 });
    assert_eq!(
        countdown_step(4, false),
        CountdownStep::Exit { outcome: CountdownOutcome::Aborted }
    );
}
