//! One-shot countdowns, kept by the engine's own timer.

use bevy::time::Timer;
use vstd::prelude::*;

verus! {

/// What a countdown is, in nanoseconds.
pub struct CountdownView {
    /// Time counted so far.
    pub elapsed: nat,
    /// Time to count.
    pub duration: nat,
    /// Whether a tick has reached the duration.
    pub finished: bool,
}

/// The countdown after `delta` more nanoseconds: a finished one stays as it
/// is, an unfinished one adds the time and, where that reaches its duration,
/// stops there and is finished.
pub open spec fn ticked(c: CountdownView, delta: nat) -> CountdownView {
    if c.finished {
        c
    } else if c.elapsed + delta >= c.duration {
        CountdownView { elapsed: c.duration, duration: c.duration, finished: true }
    } else {
        CountdownView { elapsed: c.elapsed + delta, duration: c.duration, finished: false }
    }
}

/// Whether a tick of `delta` nanoseconds is the one that completes `c`: `c`
/// is not finished before it and is finished after it.
pub open spec fn fires(c: CountdownView, delta: nat) -> bool {
    !c.finished && ticked(c, delta).finished
}

/// A countdown completes once. The tick that completes it leaves it
/// finished, and a finished countdown is not changed by further ticks, none
/// of which completes it again.
pub proof fn lemma_fires_once(c: CountdownView, first: nat, second: nat)
    ensures
        fires(c, first) <==> !c.finished && c.elapsed + first >= c.duration,
        fires(c, first) ==> ticked(c, first).finished,
        ticked(c, first).finished ==> !fires(ticked(c, first), second) && ticked(
            ticked(c, first),
            second,
        ) == ticked(c, first),
        !fires(c, first) ==> ticked(c, first).finished == c.finished,
{
}

/// The engine's timer, `bevy::time::Timer`. Nothing inside it is visible to
/// the proofs: what they know of a timer they know through the four names
/// below and the three functions that speak of them.
#[verifier::external_type_specification]
#[verifier::external_body]
pub struct ExTimer(bevy::time::Timer);

/// The nanoseconds that a timer has counted, as `Timer::elapsed` reports them.
pub uninterp spec fn timer_elapsed(timer: Timer) -> nat;

/// The nanoseconds that a timer was made to count, as `Timer::duration`
/// reports them.
pub uninterp spec fn timer_duration(timer: Timer) -> nat;

/// Whether a timer has reached its duration, as `Timer::finished` reports it.
pub uninterp spec fn timer_finished(timer: Timer) -> bool;

/// Whether a timer is in the mode `TimerMode::Once` and is not paused.
pub uninterp spec fn timer_runs_once(timer: Timer) -> bool;

/// A timer as a countdown.
pub open spec fn timer_view(timer: Timer) -> CountdownView {
    CountdownView {
        elapsed: timer_elapsed(timer),
        duration: timer_duration(timer),
        finished: timer_finished(timer),
    }
}

/// `Timer::new` with the mode `TimerMode::Once`: a running one-shot timer
/// that has counted nothing yet and is not finished, whatever its duration.
#[verifier::external_body]
fn timer_once(duration_nanos: u64) -> (timer: Timer)
    ensures
        timer_runs_once(timer),
        timer_elapsed(timer) == 0,
        timer_duration(timer) == duration_nanos,
        !timer_finished(timer),
{
    Timer::new(std::time::Duration::from_nanos(duration_nanos), bevy::time::TimerMode::Once)
}

/// `Timer::tick` on a running one-shot timer, which does what `ticked` says:
/// a finished timer is left as it is; otherwise the time is added, and if
/// that reaches the duration the timer is finished and its elapsed time is
/// set to the duration. Mode and pause stay. The bound on the elapsed time
/// keeps the sum inside what a `Duration` holds, so that the call returns.
#[verifier::external_body]
fn timer_tick(timer: &mut Timer, delta_nanos: u64)
    requires
        timer_runs_once(*old(timer)),
        timer_elapsed(*old(timer)) <= timer_duration(*old(timer)) <= u64::MAX,
    ensures
        timer_runs_once(*final(timer)),
        timer_view(*final(timer)) == ticked(timer_view(*old(timer)), delta_nanos as nat),
{
    timer.tick(std::time::Duration::from_nanos(delta_nanos));
}

/// `Timer::finished`.
#[verifier::external_body]
fn timer_is_finished(timer: &Timer) -> (finished: bool)
    ensures
        finished == timer_finished(*timer),
{
    timer.finished()
}

/// A one-shot countdown. It cannot be paused, and only a fresh countdown
/// starts it over.
pub struct Countdown {
    timer: Timer,
}

impl View for Countdown {
    type V = CountdownView;

    closed spec fn view(&self) -> CountdownView {
        timer_view(self.timer)
    }
}

impl Countdown {
    #[verifier::type_invariant]
    spec fn running(self) -> bool {
        &&& timer_runs_once(self.timer)
        &&& timer_elapsed(self.timer) <= timer_duration(self.timer) <= u64::MAX
    }

    /// A countdown of `duration_nanos` nanoseconds that has not started
    /// counting. Even a countdown of no time at all is unfinished until its
    /// first tick.
    pub fn new(duration_nanos: u64) -> (countdown: Countdown)
        ensures
            countdown@ == (CountdownView {
                elapsed: 0,
                duration: duration_nanos as nat,
                finished: false,
            }),
    {
        Countdown { timer: timer_once(duration_nanos) }
    }

    /// Counts `delta_nanos` more nanoseconds and says whether the countdown
    /// is finished now. Ticking a finished countdown changes nothing.
    pub fn tick(&mut self, delta_nanos: u64) -> (finished: bool)
        ensures
            final(self)@ == ticked(old(self)@, delta_nanos as nat),
            finished == final(self)@.finished,
    {
        proof {
            use_type_invariant(&*self);
        }
        // The timer ticks outside the countdown, which holds a spare one
        // meanwhile.
        let mut timer = timer_once(0);
        std::mem::swap(&mut timer, &mut self.timer);
        timer_tick(&mut timer, delta_nanos);
        let finished = timer_is_finished(&timer);
        self.timer = timer;
        finished
    }

    /// Whether the countdown has completed.
    pub fn finished(&self) -> (finished: bool)
        ensures
            finished == self@.finished,
    {
        timer_is_finished(&self.timer)
    }
}

} // verus!
